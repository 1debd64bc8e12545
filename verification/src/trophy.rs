//! The trophy that the three best participants of a competition receive.

use vstd::prelude::*;
use crate::errors::ErrorCode;
use crate::identity::Identity;

verus! {

/// The request to mint a trophy for a participant who finished at `rank`.
#[derive(Clone, Debug, PartialEq, Eq)]
pub struct MintTrophyArgs {
    pub rank: u8,
    pub competition_id: String,
    pub final_pnl: i64,
    pub total_trades: u64,
}

/// The one creator that a trophy names.
#[derive(Clone, Copy, Debug, PartialEq, Eq)]
pub struct Creator {
    pub address: Identity,
    pub verified: bool,
    pub share: u8,
}

/// The description that is attached to a trophy.
#[derive(Clone, Debug, PartialEq, Eq)]
pub struct TrophyMetadata {
    pub name: String,
    pub symbol: String,
    pub uri: String,
    pub seller_fee_basis_points: u16,
    pub creator: Creator,
    pub is_mutable: bool,
}

/// What the host has to mint: how many tokens, for whom, described how.
#[derive(Clone, Debug, PartialEq, Eq)]
pub struct TrophyMint {
    pub recipient: Identity,
    pub amount: u64,
    pub metadata: TrophyMetadata,
}

/// Whether a trophy exists for `rank`.
pub open spec fn is_podium(rank: u8) -> bool {
    1 <= rank <= 3
}

/// The name of the trophy for a podium rank.
pub open spec fn trophy_name(rank: u8) -> Seq<char> {
    if rank == 1 {
        "Gold Trophy - 1st Place"@
    } else if rank == 2 {
        "Silver Trophy - 2nd Place"@
    } else {
        "Bronze Trophy - 3rd Place"@
    }
}

/// The symbol of the trophy for a podium rank.
pub open spec fn trophy_symbol(rank: u8) -> Seq<char> {
    if rank == 1 {
        "GOLD"@
    } else if rank == 2 {
        "SILVER"@
    } else {
        "BRONZE"@
    }
}

/// The address of the trophy's description for a podium rank.
pub open spec fn trophy_uri(rank: u8) -> Seq<char> {
    if rank == 1 {
        "https://arweave.net/gold-trophy.json"@
    } else if rank == 2 {
        "https://arweave.net/silver-trophy.json"@
    } else {
        "https://arweave.net/bronze-trophy.json"@
    }
}

/// Whether `mint` is the trophy that `authority` issues to `winner` for a
/// podium `rank`: one token, described by the rank's name, symbol and
/// address, free of fees, immutable, with the authority as its only and
/// verified creator.
pub open spec fn is_trophy_for(mint: TrophyMint, authority: Identity, winner: Identity, rank: u8)
    -> bool {
    &&& mint.recipient == winner
    &&& mint.amount == 1
    &&& mint.metadata.name@ == trophy_name(rank)
    &&& mint.metadata.symbol@ == trophy_symbol(rank)
    &&& mint.metadata.uri@ == trophy_uri(rank)
    &&& mint.metadata.seller_fee_basis_points == 0
    &&& mint.metadata.creator == (Creator { address: authority, verified: true, share: 100 })
    &&& !mint.metadata.is_mutable
}

/// Decides which trophy, if any, the request earns. Ranks other than one,
/// two and three earn none.
pub fn mint_trophy_nft(authority: Identity, winner: Identity, args: &MintTrophyArgs) -> (r: Result<
    TrophyMint,
    ErrorCode,
>)
    ensures
        is_podium(args.rank) ==> r is Ok && is_trophy_for(
            r.unwrap(),
            authority,
            winner,
            args.rank,
        ),
        !is_podium(args.rank) ==> r == Err::<TrophyMint, ErrorCode>(ErrorCode::InvalidRank),
{
    let (name, symbol, uri) = match args.rank {
        1 => (
            "Gold Trophy - 1st Place".to_owned(),
            "GOLD".to_owned(),
            "https://arweave.net/gold-trophy.json".to_owned(),
        ),
        2 => (
            "Silver Trophy - 2nd Place".to_owned(),
            "SILVER".to_owned(),
            "https://arweave.net/silver-trophy.json".to_owned(),
        ),
        3 => (
            "Bronze Trophy - 3rd Place".to_owned(),
            "BRONZE".to_owned(),
            "https://arweave.net/bronze-trophy.json".to_owned(),
        ),
        _ => {
            return Err(ErrorCode::InvalidRank);
        },
    };
    Ok(
        TrophyMint {
            recipient: winner,
            amount: 1,
            metadata: TrophyMetadata {
                name,
                symbol,
                uri,
                seller_fee_basis_points: 0,
                creator: Creator { address: authority, verified: true, share: 100 },
                is_mutable: false,
            },
        },
    )
}

} // verus!
