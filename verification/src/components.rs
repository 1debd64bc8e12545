//! The records of the competition mode: the competition itself, a
//! participant's trading account, a competition position and a leaderboard
//! entry.

use vstd::prelude::*;
use crate::identity::{is_zero_identity, Identity};

verus! {

/// A tournament: active from its creation until it is settled.
#[derive(Clone, Debug, PartialEq, Eq)]
pub struct Competition {
    pub authority: Identity,
    pub start_time: i64,
    pub end_time: i64,
    pub total_participants: u64,
    pub prize_pool: u64,
    pub is_active: bool,
    pub name: String,
}

/// One line of the ranking, a read-only projection of closed positions.
#[derive(Clone, Copy, Debug, PartialEq, Eq)]
pub struct Leaderboard {
    pub rank: u64,
    pub player: Identity,
    pub total_pnl: i64,
    pub total_trades: u64,
    pub win_rate: u64,
    pub last_updated: i64,
}

/// A position held inside a competition. `direction` 0 is long, every
/// other value is short.
#[derive(Clone, Copy, Debug, PartialEq, Eq)]
pub struct Position {
    pub owner: Identity,
    pub pair_index: u8,
    pub direction: u8,
    pub entry_price: u64,
    pub size: u64,
    pub take_profit: u64,
    pub stop_loss: u64,
    pub current_price: u64,
    pub pnl: i64,
    pub is_open: bool,
    pub opened_at: i64,
    pub closed_at: i64,
}

/// A participant's standing inside a competition.
#[derive(Clone, Copy, Debug, PartialEq, Eq)]
pub struct TradingAccount {
    pub owner: Identity,
    pub balance: u64,
    pub total_pnl: i64,
    pub total_trades: u64,
    pub winning_trades: u64,
    pub losing_trades: u64,
    pub created_at: i64,
}

impl Default for Position {
    /// A closed, empty position of the zero identity.
    fn default() -> (r: Position)
        ensures
            is_zero_identity(r.owner),
            r.pair_index == 0,
            r.direction == 0,
            r.entry_price == 0,
            r.size == 0,
            r.take_profit == 0,
            r.stop_loss == 0,
            r.current_price == 0,
            r.pnl == 0,
            !r.is_open,
            r.opened_at == 0,
            r.closed_at == 0,
    {
        Position {
            owner: Identity::default(),
            pair_index: 0,
            direction: 0,
            entry_price: 0,
            size: 0,
            take_profit: 0,
            stop_loss: 0,
            current_price: 0,
            pnl: 0,
            is_open: false,
            opened_at: 0,
            closed_at: 0,
        }
    }
}

impl Default for TradingAccount {
    /// An empty account of the zero identity.
    fn default() -> (r: TradingAccount)
        ensures
            is_zero_identity(r.owner),
            r.balance == 0,
            r.total_pnl == 0,
            r.total_trades == 0,
            r.winning_trades == 0,
            r.losing_trades == 0,
            r.created_at == 0,
    {
        TradingAccount {
            owner: Identity::default(),
            balance: 0,
            total_pnl: 0,
            total_trades: 0,
            winning_trades: 0,
            losing_trades: 0,
            created_at: 0,
        }
    }
}

impl Default for Leaderboard {
    /// An empty ranking line of the zero identity.
    fn default() -> (r: Leaderboard)
        ensures
            is_zero_identity(r.player),
            r.rank == 0,
            r.total_pnl == 0,
            r.total_trades == 0,
            r.win_rate == 0,
            r.last_updated == 0,
    {
        Leaderboard {
            rank: 0,
            player: Identity::default(),
            total_pnl: 0,
            total_trades: 0,
            win_rate: 0,
            last_updated: 0,
        }
    }
}

impl Default for Competition {
    /// An inactive, unnamed competition of the zero identity.
    fn default() -> (r: Competition)
        ensures
            is_zero_identity(r.authority),
            r.start_time == 0,
            r.end_time == 0,
            r.total_participants == 0,
            r.prize_pool == 0,
            !r.is_active,
            r.name@ == Seq::<char>::empty(),
    {
        Competition {
            authority: Identity::default(),
            start_time: 0,
            end_time: 0,
            total_participants: 0,
            prize_pool: 0,
            is_active: false,
            name: String::new(),
        }
    }
}

} // verus!
