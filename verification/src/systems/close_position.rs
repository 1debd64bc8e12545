//! Closes a competition position and books its profit or loss.

use vstd::prelude::*;
use crate::components::{Competition, Position, TradingAccount};
use crate::errors::ErrorCode;

verus! {

/// What the system works on.
#[derive(Clone, Debug, PartialEq, Eq)]
pub struct Components {
    pub competition: Competition,
    pub trading_account: TradingAccount,
    pub position: Position,
}

/// How far the price has moved in the position's favour: upwards for a
/// long position (`direction` 0), downwards for a short one.
pub open spec fn favourable_move(position: Position) -> int {
    if position.direction == 0 {
        position.current_price - position.entry_price
    } else {
        position.entry_price - position.current_price
    }
}

/// The profit (positive) or loss (negative) of a position: the favourable
/// move times the size, divided by the entry price and rounded towards
/// zero.
pub open spec fn realized_pnl(position: Position) -> int {
    let gain = favourable_move(position) * position.size;
    if gain >= 0 {
        gain / (position.entry_price as int)
    } else {
        -((-gain) / (position.entry_price as int))
    }
}

/// What closing at time `now` does: the position records its profit or
/// loss and is closed, and the trading account books the result as a win
/// (a profit above zero) or a loss.
pub open spec fn close_outcome(components: Components, now: i64) -> Result<Components, ErrorCode> {
    let pnl = realized_pnl(components.position);
    let total = components.trading_account.total_pnl + pnl;
    if !components.position.is_open {
        Err(ErrorCode::PositionNotOpen)
    } else if pnl > i64::MAX || total > i64::MAX {
        Err(ErrorCode::ArithmeticOverflow)
    } else if pnl < i64::MIN || total < i64::MIN {
        Err(ErrorCode::ArithmeticUnderflow)
    } else if pnl > 0 && components.trading_account.winning_trades == u64::MAX {
        Err(ErrorCode::ArithmeticOverflow)
    } else if pnl <= 0 && components.trading_account.losing_trades == u64::MAX {
        Err(ErrorCode::ArithmeticOverflow)
    } else {
        Ok(
            Components {
                competition: components.competition,
                trading_account: TradingAccount {
                    total_pnl: total as i64,
                    winning_trades: if pnl > 0 {
                        (components.trading_account.winning_trades + 1) as u64
                    } else {
                        components.trading_account.winning_trades
                    },
                    losing_trades: if pnl > 0 {
                        components.trading_account.losing_trades
                    } else {
                        (components.trading_account.losing_trades + 1) as u64
                    },
                    ..components.trading_account
                },
                position: Position {
                    pnl: pnl as i64,
                    is_open: false,
                    closed_at: now,
                    ..components.position
                },
            },
        )
    }
}

/// Computes the profit or loss of a position, or says on which side it
/// leaves the range of a signed 64-bit number.
pub fn compute_pnl(position: &Position) -> (r: Result<i64, ErrorCode>)
    requires
        position.entry_price > 0,
    ensures
        i64::MIN <= realized_pnl(*position) <= i64::MAX ==> r == Ok::<i64, ErrorCode>(
            realized_pnl(*position) as i64,
        ),
        realized_pnl(*position) > i64::MAX ==> r == Err::<i64, ErrorCode>(
            ErrorCode::ArithmeticOverflow,
        ),
        realized_pnl(*position) < i64::MIN ==> r == Err::<i64, ErrorCode>(
            ErrorCode::ArithmeticUnderflow,
        ),
{
    let rose = position.current_price >= position.entry_price;
    let distance: u64 = if rose {
        position.current_price - position.entry_price
    } else {
        position.entry_price - position.current_price
    };
    let gains = (position.direction == 0) == rose;
    assert(0 <= distance as int * position.size as int <= u64::MAX as int * u64::MAX as int)
        by (nonlinear_arith)
        requires
            0 <= distance as int <= u64::MAX as int,
            0 <= position.size as int <= u64::MAX as int,
    ;
    let product: u128 = (distance as u128) * (position.size as u128);
    let magnitude: u128 = product / (position.entry_price as u128);
    proof {
        let gain = favourable_move(*position) * position.size;
        if gains {
            assert(favourable_move(*position) == distance);
            assert(gain == product);
        } else {
            assert(favourable_move(*position) == -distance);
            assert(gain == -(distance as int * position.size as int)) by (nonlinear_arith)
                requires
                    gain == favourable_move(*position) * position.size,
                    favourable_move(*position) == -distance,
            ;
            assert(-gain == product);
            if product == 0 {
                assert(0int / (position.entry_price as int) == 0);
            }
        }
    }
    if gains {
        if magnitude > 0x7fff_ffff_ffff_ffff {
            Err(ErrorCode::ArithmeticOverflow)
        } else {
            Ok(magnitude as i64)
        }
    } else if magnitude > 0x8000_0000_0000_0000 {
        Err(ErrorCode::ArithmeticUnderflow)
    } else if magnitude == 0x8000_0000_0000_0000 {
        Ok(i64::MIN)
    } else {
        Ok(-(magnitude as i64))
    }
}

/// Closes the position at time `now` and books its profit or loss.
pub fn execute(components: Components, now: i64) -> (r: Result<Components, ErrorCode>)
    requires
        components.position.is_open ==> components.position.entry_price > 0,
    ensures
        r == close_outcome(components, now),
{
    if !components.position.is_open {
        return Err(ErrorCode::PositionNotOpen);
    }
    let pnl = compute_pnl(&components.position)?;
    let total_pnl: i64 = match components.trading_account.total_pnl.checked_add(pnl) {
        Some(total) => total,
        None => {
            if pnl > 0 {
                return Err(ErrorCode::ArithmeticOverflow);
            } else {
                return Err(ErrorCode::ArithmeticUnderflow);
            }
        },
    };
    let mut changed = components;
    if pnl > 0 {
        if changed.trading_account.winning_trades == u64::MAX {
            return Err(ErrorCode::ArithmeticOverflow);
        }
        changed.trading_account.winning_trades = changed.trading_account.winning_trades + 1;
    } else {
        if changed.trading_account.losing_trades == u64::MAX {
            return Err(ErrorCode::ArithmeticOverflow);
        }
        changed.trading_account.losing_trades = changed.trading_account.losing_trades + 1;
    }
    changed.trading_account.total_pnl = total_pnl;
    changed.position.pnl = pnl;
    changed.position.is_open = false;
    changed.position.closed_at = now;
    Ok(changed)
}

} // verus!
