//! Opens a position inside an active competition.

use vstd::prelude::*;
use crate::components::{Competition, Position, TradingAccount};
use crate::errors::ErrorCode;
use crate::identity::Identity;

verus! {

/// What the system works on.
#[derive(Clone, Debug, PartialEq, Eq)]
pub struct Components {
    pub competition: Competition,
    pub trading_account: TradingAccount,
    pub position: Position,
}

/// The request to open a competition position. A threshold that is left
/// out is recorded as 0.
#[derive(Clone, Copy, Debug, PartialEq, Eq)]
pub struct OpenPositionArgs {
    pub pair_index: u8,
    pub direction: u8,
    pub current_price: u64,
    pub size: u64,
    pub take_profit: Option<u64>,
    pub stop_loss: Option<u64>,
}

/// The threshold that is recorded for an optional one.
pub open spec fn threshold_or_zero(threshold: Option<u64>) -> u64 {
    match threshold {
        Some(price) => price,
        None => 0,
    }
}

/// The position that the request opens for `authority` at time `now`.
pub open spec fn opened(authority: Identity, args: OpenPositionArgs, now: i64) -> Position {
    Position {
        owner: authority,
        pair_index: args.pair_index,
        direction: args.direction,
        entry_price: args.current_price,
        size: args.size,
        take_profit: threshold_or_zero(args.take_profit),
        stop_loss: threshold_or_zero(args.stop_loss),
        current_price: args.current_price,
        pnl: 0,
        is_open: true,
        opened_at: now,
        closed_at: 0,
    }
}

/// What opening does: the position is filled in from the request and the
/// trading account counts one trade more.
pub open spec fn open_outcome(
    components: Components,
    authority: Identity,
    args: OpenPositionArgs,
    now: i64,
) -> Result<Components, ErrorCode> {
    if !components.competition.is_active {
        Err(ErrorCode::CompetitionNotActive)
    } else if components.trading_account.total_trades == u64::MAX {
        Err(ErrorCode::ArithmeticOverflow)
    } else {
        Ok(
            Components {
                competition: components.competition,
                trading_account: TradingAccount {
                    total_trades: (components.trading_account.total_trades + 1) as u64,
                    ..components.trading_account
                },
                position: opened(authority, args, now),
            },
        )
    }
}

/// Opens the requested position for `authority` at time `now`.
pub fn execute(components: Components, authority: Identity, args: OpenPositionArgs, now: i64) -> (r:
    Result<Components, ErrorCode>)
    ensures
        r == open_outcome(components, authority, args, now),
{
    if !components.competition.is_active {
        return Err(ErrorCode::CompetitionNotActive);
    }
    if components.trading_account.total_trades == u64::MAX {
        return Err(ErrorCode::ArithmeticOverflow);
    }
    let take_profit: u64 = match args.take_profit {
        Some(price) => price,
        None => 0,
    };
    let stop_loss: u64 = match args.stop_loss {
        Some(price) => price,
        None => 0,
    };
    let mut changed = components;
    changed.position = Position {
        owner: authority,
        pair_index: args.pair_index,
        direction: args.direction,
        entry_price: args.current_price,
        size: args.size,
        take_profit,
        stop_loss,
        current_price: args.current_price,
        pnl: 0,
        is_open: true,
        opened_at: now,
        closed_at: 0,
    };
    changed.trading_account.total_trades = changed.trading_account.total_trades + 1;
    Ok(changed)
}

} // verus!
