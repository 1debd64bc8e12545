//! The error kinds that a rejected transition reports.

use vstd::prelude::*;

verus! {

/// Every way in which a transition can be rejected. A rejected transition
/// leaves all records exactly as they were.
#[derive(Clone, Copy, Debug, PartialEq, Eq, Structural)]
pub enum ErrorCode {
    /// The entry fee is below the fixed minimum.
    EntryFeeTooLow,
    /// A debit exceeds the balance it is taken from.
    InsufficientBalance,
    /// The take-profit price lies on the wrong side of the entry price.
    InvalidTakeProfitPrice,
    /// The stop-loss price lies on the wrong side of the entry price.
    InvalidStopLossPrice,
    /// The position has already been closed.
    PositionNotActive,
    /// Neither the take-profit nor the stop-loss threshold is crossed.
    ConditionNotMet,
    /// The caller is not the identity that owns or administers the record.
    Unauthorized,
    /// The executor is not on the whitelist.
    UnauthorizedExecutor,
    /// The executor is already on the whitelist.
    ExecutorAlreadyExists,
    /// The whitelist already holds as many executors as it may.
    ExecutorListFull,
    /// The position and the account belong to different trading pairs.
    PairMismatch,
    /// An account already exists for this owner and trading pair.
    DuplicateAccount,
    /// A result does not fit in its integer type.
    ArithmeticOverflow,
    /// A subtraction would go below zero, or below the least signed value.
    ArithmeticUnderflow,
    /// The competition is not active.
    CompetitionNotActive,
    /// The competition has not reached its end time.
    CompetitionNotEnded,
    /// A trophy exists only for ranks one, two and three.
    InvalidRank,
    /// The competition position is not open.
    PositionNotOpen,
}

impl ErrorCode {
    /// The message that goes with each error kind.
    pub open spec fn message_text(self) -> Seq<char> {
        match self {
            ErrorCode::EntryFeeTooLow => "Entry fee is too low (minimum 0.1 SOL)"@,
            ErrorCode::InsufficientBalance => "Insufficient mock balance"@,
            ErrorCode::InvalidTakeProfitPrice => "Invalid take profit price"@,
            ErrorCode::InvalidStopLossPrice => "Invalid stop loss price"@,
            ErrorCode::PositionNotActive => "Position is not active"@,
            ErrorCode::ConditionNotMet => "TP/SL condition not met"@,
            ErrorCode::Unauthorized => "Unauthorized access"@,
            ErrorCode::UnauthorizedExecutor => "Executor is not authorized to execute TP/SL"@,
            ErrorCode::ExecutorAlreadyExists => "Executor already exists in the whitelist"@,
            ErrorCode::ExecutorListFull => "Executor whitelist is full"@,
            ErrorCode::PairMismatch => "Pair index mismatch between position and user account"@,
            ErrorCode::DuplicateAccount => "Account already exists for this owner and pair"@,
            ErrorCode::ArithmeticOverflow => "Arithmetic overflow"@,
            ErrorCode::ArithmeticUnderflow => "Arithmetic underflow"@,
            ErrorCode::CompetitionNotActive => "Competition is not active"@,
            ErrorCode::CompetitionNotEnded => "Competition has not ended yet"@,
            ErrorCode::InvalidRank => "Invalid rank for trophy (must be 1, 2, or 3)"@,
            ErrorCode::PositionNotOpen => "Position is not open"@,
        }
    }

    /// The message that goes with this error kind.
    pub fn message(&self) -> (r: &'static str)
        ensures
            r@ == self.message_text(),
    {
        match self {
            ErrorCode::EntryFeeTooLow => "Entry fee is too low (minimum 0.1 SOL)",
            ErrorCode::InsufficientBalance => "Insufficient mock balance",
            ErrorCode::InvalidTakeProfitPrice => "Invalid take profit price",
            ErrorCode::InvalidStopLossPrice => "Invalid stop loss price",
            ErrorCode::PositionNotActive => "Position is not active",
            ErrorCode::ConditionNotMet => "TP/SL condition not met",
            ErrorCode::Unauthorized => "Unauthorized access",
            ErrorCode::UnauthorizedExecutor => "Executor is not authorized to execute TP/SL",
            ErrorCode::ExecutorAlreadyExists => "Executor already exists in the whitelist",
            ErrorCode::ExecutorListFull => "Executor whitelist is full",
            ErrorCode::PairMismatch => "Pair index mismatch between position and user account",
            ErrorCode::DuplicateAccount => "Account already exists for this owner and pair",
            ErrorCode::ArithmeticOverflow => "Arithmetic overflow",
            ErrorCode::ArithmeticUnderflow => "Arithmetic underflow",
            ErrorCode::CompetitionNotActive => "Competition is not active",
            ErrorCode::CompetitionNotEnded => "Competition has not ended yet",
            ErrorCode::InvalidRank => "Invalid rank for trophy (must be 1, 2, or 3)",
            ErrorCode::PositionNotOpen => "Position is not open",
        }
    }
}

} // verus!
