//! The position record and its lifecycle: open, then exactly one close.

use vstd::prelude::*;
use crate::account::UserAccount;
use crate::config::ProgramConfig;
use crate::errors::ErrorCode;
use crate::identity::{is_zero_identity, Identity};
use crate::math::{checked_add, checked_sub, scaled_multiply_divide, value_at, PRICE_SCALE};

verus! {

/// The side of a position.
#[derive(Clone, Copy, Debug, PartialEq, Eq, Structural)]
pub enum PositionType {
    /// Profits when the price rises.
    Long,
    /// Profits when the price falls.
    Short,
}

/// Whether a position is still open. `Closed` is terminal.
#[derive(Clone, Copy, Debug, PartialEq, Eq, Structural)]
pub enum PositionStatus {
    Active,
    Closed,
}

/// Which of the three closing paths settled a position.
#[derive(Clone, Copy, Debug, PartialEq, Eq, Structural)]
pub enum CloseReason {
    TakeProfit,
    StopLoss,
    Manual,
}

/// One leveraged exposure with its entry price and its two thresholds.
#[derive(Clone, Copy, Debug, PartialEq, Eq)]
pub struct PositionAccount {
    pub owner: Identity,
    pub pair_index: u8,
    pub position_id: u64,
    pub position_type: PositionType,
    pub amount_token_out: u64,
    pub entry_price: u64,
    pub take_profit_price: u64,
    pub stop_loss_price: u64,
    pub status: PositionStatus,
    pub opened_at: i64,
    pub closed_at: i64,
}

impl Default for PositionType {
    fn default() -> (r: PositionType)
        ensures
            r == PositionType::Long,
    {
        PositionType::Long
    }
}

impl Default for PositionStatus {
    fn default() -> (r: PositionStatus)
        ensures
            r == PositionStatus::Active,
    {
        PositionStatus::Active
    }
}

impl Default for PositionAccount {
    /// An active, empty long position of the zero identity.
    fn default() -> (r: PositionAccount)
        ensures
            is_zero_identity(r.owner),
            r.pair_index == 0,
            r.position_id == 0,
            r.position_type == PositionType::Long,
            r.amount_token_out == 0,
            r.entry_price == 0,
            r.take_profit_price == 0,
            r.stop_loss_price == 0,
            r.status == PositionStatus::Active,
            r.opened_at == 0,
            r.closed_at == 0,
    {
        PositionAccount {
            owner: Identity::default(),
            pair_index: 0,
            position_id: 0,
            position_type: PositionType::Long,
            amount_token_out: 0,
            entry_price: 0,
            take_profit_price: 0,
            stop_loss_price: 0,
            status: PositionStatus::Active,
            opened_at: 0,
            closed_at: 0,
        }
    }
}

/// Reported when a position has been opened.
#[derive(Clone, Copy, Debug, PartialEq, Eq)]
pub struct PositionOpened {
    pub user: Identity,
    pub pair_index: u8,
    pub position_id: u64,
    pub position_type: PositionType,
    pub amount: u64,
    pub entry_price: u64,
    pub tp_price: u64,
    pub sl_price: u64,
    pub timestamp: i64,
}

/// The settlement record of a close: why and at what price the position
/// was closed, and by how much each balance of the account grew.
#[derive(Clone, Copy, Debug, PartialEq, Eq)]
pub struct PositionClosed {
    pub user: Identity,
    pub pair_index: u8,
    pub position_id: u64,
    pub close_price: u64,
    pub close_reason: CloseReason,
    pub token_in_credited: u64,
    pub token_out_credited: u64,
    pub timestamp: i64,
}

/// The take-profit price lies on the winning side of the entry price.
pub open spec fn take_profit_valid(side: PositionType, entry_price: u64, take_profit_price: u64)
    -> bool {
    match side {
        PositionType::Long => take_profit_price > entry_price,
        PositionType::Short => take_profit_price < entry_price,
    }
}

/// The stop-loss price lies on the losing side of the entry price.
pub open spec fn stop_loss_valid(side: PositionType, entry_price: u64, stop_loss_price: u64)
    -> bool {
    match side {
        PositionType::Long => stop_loss_price < entry_price,
        PositionType::Short => stop_loss_price > entry_price,
    }
}

impl PositionAccount {
    /// The thresholds lie on their sides of the entry price, and the
    /// position carries a closing time exactly when it is closed.
    pub open spec fn wf(&self) -> bool {
        &&& take_profit_valid(self.position_type, self.entry_price, self.take_profit_price)
        &&& stop_loss_valid(self.position_type, self.entry_price, self.stop_loss_price)
        &&& (self.closed_at != 0 <==> self.status == PositionStatus::Closed)
    }

    /// This position once it has been closed at time `now`.
    pub open spec fn closed(self, now: i64) -> PositionAccount {
        PositionAccount { status: PositionStatus::Closed, closed_at: now, ..self }
    }
}

/// The position that an open creates for `account`: it takes the
/// account's next sequence number and starts active.
pub open spec fn opened_position(
    account: UserAccount,
    side: PositionType,
    size: u64,
    entry_price: u64,
    take_profit_price: u64,
    stop_loss_price: u64,
    now: i64,
) -> PositionAccount {
    PositionAccount {
        owner: account.owner,
        pair_index: account.pair_index,
        position_id: account.total_positions,
        position_type: side,
        amount_token_out: size,
        entry_price,
        take_profit_price,
        stop_loss_price,
        status: PositionStatus::Active,
        opened_at: now,
        closed_at: 0,
    }
}

/// What an open does to an account: the account after the debit together
/// with the new position, or the reason for which the open is rejected.
///
/// A long position costs its value at the entry price in quote currency;
/// a short position takes its size out of the traded-asset balance.
pub open spec fn open_outcome(
    account: UserAccount,
    side: PositionType,
    size: u64,
    entry_price: u64,
    take_profit_price: u64,
    stop_loss_price: u64,
    now: i64,
) -> Result<(UserAccount, PositionAccount), ErrorCode> {
    let cost = value_at(size, entry_price);
    let position = opened_position(
        account,
        side,
        size,
        entry_price,
        take_profit_price,
        stop_loss_price,
        now,
    );
    if !take_profit_valid(side, entry_price, take_profit_price) {
        Err(ErrorCode::InvalidTakeProfitPrice)
    } else if !stop_loss_valid(side, entry_price, stop_loss_price) {
        Err(ErrorCode::InvalidStopLossPrice)
    } else if cost > u64::MAX {
        Err(ErrorCode::ArithmeticOverflow)
    } else if side == PositionType::Long && account.token_in_balance < cost {
        Err(ErrorCode::InsufficientBalance)
    } else if side == PositionType::Short && account.token_out_balance < size {
        Err(ErrorCode::InsufficientBalance)
    } else if account.total_positions == u64::MAX {
        Err(ErrorCode::ArithmeticOverflow)
    } else {
        match side {
            PositionType::Long => Ok(
                (
                    account.with_token_in(
                        (account.token_in_balance - cost) as u64,
                    ).with_next_position(),
                    position,
                ),
            ),
            PositionType::Short => Ok(
                (
                    account.with_token_out(
                        (account.token_out_balance - size) as u64,
                    ).with_next_position(),
                    position,
                ),
            ),
        }
    }
}

/// The record of the opening of `position`.
pub open spec fn opening_record(position: PositionAccount) -> PositionOpened {
    PositionOpened {
        user: position.owner,
        pair_index: position.pair_index,
        position_id: position.position_id,
        position_type: position.position_type,
        amount: position.amount_token_out,
        entry_price: position.entry_price,
        tp_price: position.take_profit_price,
        sl_price: position.stop_loss_price,
        timestamp: position.opened_at,
    }
}

/// Opens a position of the given side: checks the thresholds against the
/// entry price, debits the account, numbers the position and advances the
/// account's counter, all or nothing.
pub fn open_position(
    user_account: &mut UserAccount,
    side: PositionType,
    amount_token_out: u64,
    entry_price: u64,
    take_profit_price: u64,
    stop_loss_price: u64,
    now: i64,
) -> (r: Result<(PositionAccount, PositionOpened), ErrorCode>)
    ensures
        match open_outcome(
            *old(user_account),
            side,
            amount_token_out,
            entry_price,
            take_profit_price,
            stop_loss_price,
            now,
        ) {
            Ok((account, position)) => *final(user_account) == account && r == Ok::<
                (PositionAccount, PositionOpened),
                ErrorCode,
            >((position, opening_record(position))),
            Err(e) => r == Err::<(PositionAccount, PositionOpened), ErrorCode>(e)
                && *final(user_account) == *old(user_account),
        },
        !take_profit_valid(side, entry_price, take_profit_price) ==> r == Err::<
            (PositionAccount, PositionOpened),
            ErrorCode,
        >(ErrorCode::InvalidTakeProfitPrice),
        r is Ok && side == PositionType::Long ==> old(user_account).token_in_balance
            - final(user_account).token_in_balance == value_at(amount_token_out, entry_price)
            && final(user_account).token_out_balance == old(user_account).token_out_balance,
        r is Ok && side == PositionType::Short ==> old(user_account).token_out_balance
            - final(user_account).token_out_balance == amount_token_out
            && final(user_account).token_in_balance == old(user_account).token_in_balance,
        r matches Ok((position, _)) ==> position.wf()
            && position.position_id == old(user_account).total_positions
            && final(user_account).total_positions == old(user_account).total_positions + 1,
{
    let valid_take_profit = match side {
        PositionType::Long => take_profit_price > entry_price,
        PositionType::Short => take_profit_price < entry_price,
    };
    if !valid_take_profit {
        return Err(ErrorCode::InvalidTakeProfitPrice);
    }
    let valid_stop_loss = match side {
        PositionType::Long => stop_loss_price < entry_price,
        PositionType::Short => stop_loss_price > entry_price,
    };
    if !valid_stop_loss {
        return Err(ErrorCode::InvalidStopLossPrice);
    }
    let cost = scaled_multiply_divide(amount_token_out, entry_price, PRICE_SCALE)?;
    let mut debited: UserAccount = *user_account;
    match side {
        PositionType::Long => debited.debit_base(cost)?,
        PositionType::Short => debited.debit_quote(amount_token_out)?,
    }
    let position_id = debited.next_position_id();
    debited.total_positions = checked_add(position_id, 1)?;
    let position = PositionAccount {
        owner: debited.owner,
        pair_index: debited.pair_index,
        position_id,
        position_type: side,
        amount_token_out,
        entry_price,
        take_profit_price,
        stop_loss_price,
        status: PositionStatus::Active,
        opened_at: now,
        closed_at: 0,
    };
    let record = PositionOpened {
        user: position.owner,
        pair_index: position.pair_index,
        position_id,
        position_type: side,
        amount: amount_token_out,
        entry_price,
        tp_price: take_profit_price,
        sl_price: stop_loss_price,
        timestamp: now,
    };
    *user_account = debited;
    Ok((position, record))
}

/// Opens a long position: the take-profit price must lie above the entry
/// price and the stop-loss price below it; the account pays the position's
/// value at the entry price.
pub fn open_long_position(
    user_account: &mut UserAccount,
    amount_token_out: u64,
    entry_price: u64,
    take_profit_price: u64,
    stop_loss_price: u64,
    now: i64,
) -> (r: Result<(PositionAccount, PositionOpened), ErrorCode>)
    ensures
        match open_outcome(
            *old(user_account),
            PositionType::Long,
            amount_token_out,
            entry_price,
            take_profit_price,
            stop_loss_price,
            now,
        ) {
            Ok((account, position)) => *final(user_account) == account && r == Ok::<
                (PositionAccount, PositionOpened),
                ErrorCode,
            >((position, opening_record(position))),
            Err(e) => r == Err::<(PositionAccount, PositionOpened), ErrorCode>(e)
                && *final(user_account) == *old(user_account),
        },
        take_profit_price <= entry_price ==> r == Err::<
            (PositionAccount, PositionOpened),
            ErrorCode,
        >(ErrorCode::InvalidTakeProfitPrice),
        r is Ok ==> old(user_account).token_in_balance - final(user_account).token_in_balance
            == value_at(amount_token_out, entry_price),
{
    open_position(
        user_account,
        PositionType::Long,
        amount_token_out,
        entry_price,
        take_profit_price,
        stop_loss_price,
        now,
    )
}

/// Opens a short position: the take-profit price must lie below the entry
/// price and the stop-loss price above it; the account lends the position
/// its size in the traded asset.
pub fn open_short_position(
    user_account: &mut UserAccount,
    amount_token_out: u64,
    entry_price: u64,
    take_profit_price: u64,
    stop_loss_price: u64,
    now: i64,
) -> (r: Result<(PositionAccount, PositionOpened), ErrorCode>)
    ensures
        match open_outcome(
            *old(user_account),
            PositionType::Short,
            amount_token_out,
            entry_price,
            take_profit_price,
            stop_loss_price,
            now,
        ) {
            Ok((account, position)) => *final(user_account) == account && r == Ok::<
                (PositionAccount, PositionOpened),
                ErrorCode,
            >((position, opening_record(position))),
            Err(e) => r == Err::<(PositionAccount, PositionOpened), ErrorCode>(e)
                && *final(user_account) == *old(user_account),
        },
        take_profit_price >= entry_price ==> r == Err::<
            (PositionAccount, PositionOpened),
            ErrorCode,
        >(ErrorCode::InvalidTakeProfitPrice),
        r is Ok ==> old(user_account).token_out_balance - final(user_account).token_out_balance
            == amount_token_out,
{
    open_position(
        user_account,
        PositionType::Short,
        amount_token_out,
        entry_price,
        take_profit_price,
        stop_loss_price,
        now,
    )
}

/// What closing a position at `current_price` pays into the
/// quote-currency balance.
///
/// A long position pays its current value. A short position pays its entry
/// value plus what its value fell, or minus what it rose; a current value
/// above twice the entry value would make the payment negative and is an
/// underflow.
pub open spec fn settlement_credit(
    side: PositionType,
    size: u64,
    entry_price: u64,
    current_price: u64,
) -> Result<u64, ErrorCode> {
    let entry_value = value_at(size, entry_price);
    let current_value = value_at(size, current_price);
    match side {
        PositionType::Long => if current_value > u64::MAX {
            Err(ErrorCode::ArithmeticOverflow)
        } else {
            Ok(current_value as u64)
        },
        PositionType::Short => if entry_value > u64::MAX || current_value > u64::MAX {
            Err(ErrorCode::ArithmeticOverflow)
        } else if entry_value + (entry_value - current_value) < 0 {
            Err(ErrorCode::ArithmeticUnderflow)
        } else if entry_value + (entry_value - current_value) > u64::MAX {
            Err(ErrorCode::ArithmeticOverflow)
        } else {
            Ok((entry_value + (entry_value - current_value)) as u64)
        },
    }
}

/// The traded-asset units that a close hands back: a short position
/// returns what it borrowed, a long position returns nothing.
pub open spec fn returned_asset(side: PositionType, size: u64) -> u64 {
    match side {
        PositionType::Long => 0,
        PositionType::Short => size,
    }
}

/// What a close does to a position and an account: the two records after
/// the close, or the reason for which it is rejected. The three closing
/// paths all settle by this one rule.
pub open spec fn close_outcome(
    position: PositionAccount,
    account: UserAccount,
    current_price: u64,
    now: i64,
) -> Result<(PositionAccount, UserAccount), ErrorCode> {
    if position.status != PositionStatus::Active {
        Err(ErrorCode::PositionNotActive)
    } else if position.pair_index != account.pair_index {
        Err(ErrorCode::PairMismatch)
    } else {
        match settlement_credit(
            position.position_type,
            position.amount_token_out,
            position.entry_price,
            current_price,
        ) {
            Err(e) => Err(e),
            Ok(credit) => {
                let returned = returned_asset(position.position_type, position.amount_token_out);
                if account.token_in_balance + credit > u64::MAX || account.token_out_balance
                    + returned > u64::MAX {
                    Err(ErrorCode::ArithmeticOverflow)
                } else {
                    Ok(
                        (
                            position.closed(now),
                            account.with_token_in(
                                (account.token_in_balance + credit) as u64,
                            ).with_token_out((account.token_out_balance + returned) as u64),
                        ),
                    )
                }
            },
        }
    }
}

/// The settlement record of a close that took `before` to `after`.
pub open spec fn settlement_record(
    position: PositionAccount,
    before: UserAccount,
    after: UserAccount,
    current_price: u64,
    close_reason: CloseReason,
    now: i64,
) -> PositionClosed {
    PositionClosed {
        user: position.owner,
        pair_index: position.pair_index,
        position_id: position.position_id,
        close_price: current_price,
        close_reason,
        token_in_credited: (after.token_in_balance - before.token_in_balance) as u64,
        token_out_credited: (after.token_out_balance - before.token_out_balance) as u64,
        timestamp: now,
    }
}

/// Computes what closing `position` at `current_price` pays into the
/// quote-currency balance.
pub fn settlement_value(position: &PositionAccount, current_price: u64) -> (r: Result<
    u64,
    ErrorCode,
>)
    ensures
        r == settlement_credit(
            position.position_type,
            position.amount_token_out,
            position.entry_price,
            current_price,
        ),
{
    match position.position_type {
        PositionType::Long => scaled_multiply_divide(
            position.amount_token_out,
            current_price,
            PRICE_SCALE,
        ),
        PositionType::Short => {
            let entry_value = scaled_multiply_divide(
                position.amount_token_out,
                position.entry_price,
                PRICE_SCALE,
            )?;
            let current_value = scaled_multiply_divide(
                position.amount_token_out,
                current_price,
                PRICE_SCALE,
            )?;
            if entry_value > current_value {
                let profit = checked_sub(entry_value, current_value)?;
                checked_add(entry_value, profit)
            } else {
                let loss = checked_sub(current_value, entry_value)?;
                checked_sub(entry_value, loss)
            }
        },
    }
}

/// Settles an active position at `current_price` and closes it. The one
/// routine behind the manual, the take-profit and the stop-loss path.
///
/// Either both records change as `close_outcome` says, or neither does.
pub fn close_position_logic(
    position_account: &mut PositionAccount,
    user_account: &mut UserAccount,
    current_price: u64,
    close_reason: CloseReason,
    now: i64,
) -> (r: Result<PositionClosed, ErrorCode>)
    ensures
        match close_outcome(*old(position_account), *old(user_account), current_price, now) {
            Ok((position, account)) => *final(position_account) == position
                && *final(user_account) == account && r == Ok::<PositionClosed, ErrorCode>(
                settlement_record(
                    *old(position_account),
                    *old(user_account),
                    account,
                    current_price,
                    close_reason,
                    now,
                ),
            ),
            Err(e) => r == Err::<PositionClosed, ErrorCode>(e)
                && *final(position_account) == *old(position_account)
                && *final(user_account) == *old(user_account),
        },
        old(position_account).status == PositionStatus::Closed ==> r == Err::<
            PositionClosed,
            ErrorCode,
        >(ErrorCode::PositionNotActive),
        r is Ok && old(position_account).wf() && now != 0 ==> final(position_account).wf(),
{
    if position_account.status != PositionStatus::Active {
        return Err(ErrorCode::PositionNotActive);
    }
    if position_account.pair_index != user_account.pair_index {
        return Err(ErrorCode::PairMismatch);
    }
    let credit = settlement_value(position_account, current_price)?;
    let returned: u64 = match position_account.position_type {
        PositionType::Long => 0,
        PositionType::Short => position_account.amount_token_out,
    };
    let mut settled: UserAccount = *user_account;
    settled.credit_base(credit)?;
    settled.credit_quote(returned)?;
    let record = PositionClosed {
        user: position_account.owner,
        pair_index: position_account.pair_index,
        position_id: position_account.position_id,
        close_price: current_price,
        close_reason,
        token_in_credited: credit,
        token_out_credited: returned,
        timestamp: now,
    };
    *user_account = settled;
    position_account.status = PositionStatus::Closed;
    position_account.closed_at = now;
    Ok(record)
}

/// What a manual close by `caller` does: only the owner of an active
/// position may close it, and the close then settles as every close does.
pub open spec fn manual_close_outcome(
    position: PositionAccount,
    account: UserAccount,
    caller: Identity,
    current_price: u64,
    now: i64,
) -> Result<(PositionAccount, UserAccount), ErrorCode> {
    if position.status != PositionStatus::Active {
        Err(ErrorCode::PositionNotActive)
    } else if position.owner != caller {
        Err(ErrorCode::Unauthorized)
    } else {
        close_outcome(position, account, current_price, now)
    }
}

/// Closes an active position for its owner at `current_price`.
pub fn close_position(
    position_account: &mut PositionAccount,
    user_account: &mut UserAccount,
    caller: Identity,
    current_price: u64,
    now: i64,
) -> (r: Result<PositionClosed, ErrorCode>)
    ensures
        match manual_close_outcome(
            *old(position_account),
            *old(user_account),
            caller,
            current_price,
            now,
        ) {
            Ok((position, account)) => *final(position_account) == position
                && *final(user_account) == account && r == Ok::<PositionClosed, ErrorCode>(
                settlement_record(
                    *old(position_account),
                    *old(user_account),
                    account,
                    current_price,
                    CloseReason::Manual,
                    now,
                ),
            ),
            Err(e) => r == Err::<PositionClosed, ErrorCode>(e)
                && *final(position_account) == *old(position_account)
                && *final(user_account) == *old(user_account),
        },
        old(position_account).status == PositionStatus::Closed ==> r == Err::<
            PositionClosed,
            ErrorCode,
        >(ErrorCode::PositionNotActive),
        r is Ok && old(position_account).wf() && now != 0 ==> final(position_account).wf(),
{
    if position_account.status != PositionStatus::Active {
        return Err(ErrorCode::PositionNotActive);
    }
    if position_account.owner != caller {
        return Err(ErrorCode::Unauthorized);
    }
    close_position_logic(position_account, user_account, current_price, CloseReason::Manual, now)
}

/// The threshold that `current_price` has crossed, if any. A long
/// position takes profit at or above its take-profit price and stops at or
/// below its stop-loss price; a short position the other way round.
pub open spec fn crossed_threshold(position: PositionAccount, current_price: u64) -> Option<
    CloseReason,
> {
    match position.position_type {
        PositionType::Long => if current_price >= position.take_profit_price {
            Some(CloseReason::TakeProfit)
        } else if current_price <= position.stop_loss_price {
            Some(CloseReason::StopLoss)
        } else {
            None
        },
        PositionType::Short => if current_price <= position.take_profit_price {
            Some(CloseReason::TakeProfit)
        } else if current_price >= position.stop_loss_price {
            Some(CloseReason::StopLoss)
        } else {
            None
        },
    }
}

/// Decides which threshold, if any, `current_price` has crossed.
pub fn check_trigger(position: &PositionAccount, current_price: u64) -> (r: Option<CloseReason>)
    ensures
        r == crossed_threshold(*position, current_price),
{
    match position.position_type {
        PositionType::Long => {
            if current_price >= position.take_profit_price {
                Some(CloseReason::TakeProfit)
            } else if current_price <= position.stop_loss_price {
                Some(CloseReason::StopLoss)
            } else {
                None
            }
        },
        PositionType::Short => {
            if current_price <= position.take_profit_price {
                Some(CloseReason::TakeProfit)
            } else if current_price >= position.stop_loss_price {
                Some(CloseReason::StopLoss)
            } else {
                None
            }
        },
    }
}

/// What an automated close by `executor` does. The whitelist is consulted
/// first and on every call; then the position must be active, of the
/// account's pair, and past one of its thresholds.
pub open spec fn automated_close_outcome(
    config: ProgramConfig,
    position: PositionAccount,
    account: UserAccount,
    executor: Identity,
    current_price: u64,
    now: i64,
) -> Result<(PositionAccount, UserAccount), ErrorCode> {
    if !config.authorizes(executor) {
        Err(ErrorCode::UnauthorizedExecutor)
    } else if position.status != PositionStatus::Active {
        Err(ErrorCode::PositionNotActive)
    } else if position.pair_index != account.pair_index {
        Err(ErrorCode::PairMismatch)
    } else if crossed_threshold(position, current_price) is None {
        Err(ErrorCode::ConditionNotMet)
    } else {
        close_outcome(position, account, current_price, now)
    }
}

/// Closes another owner's position on behalf of a whitelisted executor
/// once `current_price` has crossed the take-profit or the stop-loss price.
pub fn execute_tp_sl(
    config: &ProgramConfig,
    position_account: &mut PositionAccount,
    user_account: &mut UserAccount,
    executor: Identity,
    current_price: u64,
    now: i64,
) -> (r: Result<PositionClosed, ErrorCode>)
    ensures
        match automated_close_outcome(
            *config,
            *old(position_account),
            *old(user_account),
            executor,
            current_price,
            now,
        ) {
            Ok((position, account)) => *final(position_account) == position
                && *final(user_account) == account && r == Ok::<PositionClosed, ErrorCode>(
                settlement_record(
                    *old(position_account),
                    *old(user_account),
                    account,
                    current_price,
                    crossed_threshold(*old(position_account), current_price).unwrap(),
                    now,
                ),
            ),
            Err(e) => r == Err::<PositionClosed, ErrorCode>(e)
                && *final(position_account) == *old(position_account)
                && *final(user_account) == *old(user_account),
        },
        !config.authorizes(executor) ==> r == Err::<PositionClosed, ErrorCode>(
            ErrorCode::UnauthorizedExecutor,
        ),
        config.authorizes(executor) && old(position_account).status == PositionStatus::Closed
            ==> r == Err::<PositionClosed, ErrorCode>(ErrorCode::PositionNotActive),
        r is Ok && old(position_account).wf() && now != 0 ==> final(position_account).wf(),
{
    if !config.is_authorized(&executor) {
        return Err(ErrorCode::UnauthorizedExecutor);
    }
    if position_account.status != PositionStatus::Active {
        return Err(ErrorCode::PositionNotActive);
    }
    if position_account.pair_index != user_account.pair_index {
        return Err(ErrorCode::PairMismatch);
    }
    match check_trigger(position_account, current_price) {
        None => Err(ErrorCode::ConditionNotMet),
        Some(close_reason) => close_position_logic(
            position_account,
            user_account,
            current_price,
            close_reason,
            now,
        ),
    }
}

/// One request to open a position.
#[derive(Clone, Copy, Debug, PartialEq, Eq)]
pub struct OpenRequest {
    pub side: PositionType,
    pub size: u64,
    pub entry_price: u64,
    pub take_profit_price: u64,
    pub stop_loss_price: u64,
    pub now: i64,
}

/// The account after a run of open requests, and the positions that the
/// run created, in order. A rejected request creates nothing and leaves the
/// account as it was.
pub open spec fn open_all(account: UserAccount, requests: Seq<OpenRequest>) -> (
    UserAccount,
    Seq<PositionAccount>,
)
    decreases requests.len(),
{
    if requests.len() == 0 {
        (account, Seq::empty())
    } else {
        let (before, opened) = open_all(account, requests.drop_last());
        let request = requests.last();
        match open_outcome(
            before,
            request.side,
            request.size,
            request.entry_price,
            request.take_profit_price,
            request.stop_loss_price,
            request.now,
        ) {
            Ok((after, position)) => (after, opened.push(position)),
            Err(_) => (before, opened),
        }
    }
}

/// The positions of one account are numbered in the order in which they
/// were opened, from the account's counter upwards, without gap or repeat:
/// on a new account the numbers are 0, 1, 2 and so on. Rejected requests
/// use up no number.
pub proof fn lemma_position_ids_count_up(account: UserAccount, requests: Seq<OpenRequest>)
    ensures
        open_all(account, requests).0.total_positions == account.total_positions + open_all(
            account,
            requests,
        ).1.len(),
        open_all(account, requests).0.owner == account.owner,
        open_all(account, requests).0.pair_index == account.pair_index,
        forall|i: int|
            0 <= i < open_all(account, requests).1.len() ==> {
                &&& (#[trigger] open_all(account, requests).1[i]).position_id
                    == account.total_positions + i
                &&& open_all(account, requests).1[i].owner == account.owner
                &&& open_all(account, requests).1[i].pair_index == account.pair_index
            },
        forall|i: int, j: int|
            0 <= i < j < open_all(account, requests).1.len() ==> (#[trigger] open_all(
                account,
                requests,
            ).1[i]).position_id != (#[trigger] open_all(account, requests).1[j]).position_id,
    decreases requests.len(),
{
    if requests.len() > 0 {
        lemma_position_ids_count_up(account, requests.drop_last());
    }
}

/// A long position that is closed at its entry price gives back exactly
/// what it cost: both balances are what they were before the open.
pub proof fn lemma_long_round_trip_at_entry_price(
    account: UserAccount,
    size: u64,
    entry_price: u64,
    take_profit_price: u64,
    stop_loss_price: u64,
    now: i64,
    later: i64,
)
    requires
        open_outcome(
            account,
            PositionType::Long,
            size,
            entry_price,
            take_profit_price,
            stop_loss_price,
            now,
        ) is Ok,
    ensures
        ({
            let (debited, position) = open_outcome(
                account,
                PositionType::Long,
                size,
                entry_price,
                take_profit_price,
                stop_loss_price,
                now,
            ).unwrap();
            &&& close_outcome(position, debited, entry_price, later) is Ok
            &&& close_outcome(position, debited, entry_price, later).unwrap().1.token_in_balance
                == account.token_in_balance
            &&& close_outcome(position, debited, entry_price, later).unwrap().1.token_out_balance
                == account.token_out_balance
        }),
{
}

/// The closing paths settle alike: whenever the manual path or the
/// automated path accepts a close, both records end up exactly as the one
/// settlement rule says, so two paths that both accept the same close leave
/// the same records.
pub proof fn lemma_closing_paths_settle_alike(
    config: ProgramConfig,
    position: PositionAccount,
    account: UserAccount,
    owner: Identity,
    executor: Identity,
    current_price: u64,
    now: i64,
)
    ensures
        manual_close_outcome(position, account, owner, current_price, now) is Ok
            ==> manual_close_outcome(position, account, owner, current_price, now)
            == close_outcome(position, account, current_price, now),
        automated_close_outcome(config, position, account, executor, current_price, now) is Ok
            ==> automated_close_outcome(config, position, account, executor, current_price, now)
            == close_outcome(position, account, current_price, now),
{
}

/// A closed position stays closed: once a close has succeeded, every
/// later close of the same position is rejected as not active, whoever
/// asks, at whatever price, against whatever account. An executor gets
/// that answer if it is whitelisted, and is turned away as unauthorized
/// if it is not.
pub proof fn lemma_closed_is_terminal(
    position: PositionAccount,
    account: UserAccount,
    current_price: u64,
    now: i64,
    config: ProgramConfig,
    later_account: UserAccount,
    later_caller: Identity,
    later_price: u64,
    later_now: i64,
)
    requires
        close_outcome(position, account, current_price, now) is Ok,
    ensures
        ({
            let closed = close_outcome(position, account, current_price, now).unwrap().0;
            &&& closed.status == PositionStatus::Closed
            &&& close_outcome(closed, later_account, later_price, later_now) == Err::<
                (PositionAccount, UserAccount),
                ErrorCode,
            >(ErrorCode::PositionNotActive)
            &&& manual_close_outcome(closed, later_account, later_caller, later_price, later_now)
                == Err::<(PositionAccount, UserAccount), ErrorCode>(ErrorCode::PositionNotActive)
            &&& automated_close_outcome(
                config,
                closed,
                later_account,
                later_caller,
                later_price,
                later_now,
            ) == Err::<(PositionAccount, UserAccount), ErrorCode>(
                if config.authorizes(later_caller) {
                    ErrorCode::PositionNotActive
                } else {
                    ErrorCode::UnauthorizedExecutor
                },
            )
        }),
{
}

} // verus!
