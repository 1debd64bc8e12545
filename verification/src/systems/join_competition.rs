//! Enrols a participant in an active competition.

use vstd::prelude::*;
use crate::components::{Competition, TradingAccount};
use crate::errors::ErrorCode;
use crate::identity::Identity;

verus! {

/// The mock balance that every participant starts with: 10,000 units of
/// quote currency at six decimals.
pub const STARTING_BALANCE: u64 = 10_000_000_000;

/// What the system works on.
#[derive(Clone, Debug, PartialEq, Eq)]
pub struct Components {
    pub competition: Competition,
    pub trading_account: TradingAccount,
}

/// The trading account of a participant who has just joined.
pub open spec fn enrolled_account(authority: Identity, now: i64) -> TradingAccount {
    TradingAccount {
        owner: authority,
        balance: STARTING_BALANCE,
        total_pnl: 0,
        total_trades: 0,
        winning_trades: 0,
        losing_trades: 0,
        created_at: now,
    }
}

/// What joining does: the competition counts one participant more and the
/// trading account starts afresh for `authority`.
pub open spec fn join_outcome(components: Components, authority: Identity, now: i64) -> Result<
    Components,
    ErrorCode,
> {
    if !components.competition.is_active {
        Err(ErrorCode::CompetitionNotActive)
    } else if components.competition.total_participants == u64::MAX {
        Err(ErrorCode::ArithmeticOverflow)
    } else {
        Ok(
            Components {
                competition: Competition {
                    total_participants: (components.competition.total_participants + 1) as u64,
                    ..components.competition
                },
                trading_account: enrolled_account(authority, now),
            },
        )
    }
}

/// Enrols `authority` in the competition at time `now`.
pub fn execute(components: Components, authority: Identity, now: i64) -> (r: Result<
    Components,
    ErrorCode,
>)
    ensures
        r == join_outcome(components, authority, now),
{
    if !components.competition.is_active {
        return Err(ErrorCode::CompetitionNotActive);
    }
    if components.competition.total_participants == u64::MAX {
        return Err(ErrorCode::ArithmeticOverflow);
    }
    let mut changed = components;
    changed.trading_account = TradingAccount {
        owner: authority,
        balance: STARTING_BALANCE,
        total_pnl: 0,
        total_trades: 0,
        winning_trades: 0,
        losing_trades: 0,
        created_at: now,
    };
    changed.competition.total_participants = changed.competition.total_participants + 1;
    Ok(changed)
}

} // verus!
