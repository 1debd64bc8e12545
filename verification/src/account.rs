//! The per-owner, per-pair balance record and its checked mutations.

use vstd::prelude::*;
use crate::config::ProgramConfig;
use crate::errors::ErrorCode;
use crate::identity::{is_zero_identity, Identity};
use crate::math::{scaled_multiply_divide, value_at, PRICE_SCALE};

verus! {

/// The balances of one owner for one trading pair.
///
/// `token_in_balance` is the quote-currency balance (six decimals) that pays
/// for long positions; `token_out_balance` is the traded-asset balance (nine
/// decimals) that short positions borrow from. `total_positions` is the
/// sequence number that the next position will get.
#[derive(Clone, Copy, Debug, PartialEq, Eq)]
pub struct UserAccount {
    pub owner: Identity,
    pub pair_index: u8,
    pub token_in_balance: u64,
    pub token_out_balance: u64,
    pub total_positions: u64,
    pub created_at: i64,
}

impl UserAccount {
    /// This account with another quote-currency balance.
    pub open spec fn with_token_in(self, balance: u64) -> UserAccount {
        UserAccount { token_in_balance: balance, ..self }
    }

    /// This account with another traded-asset balance.
    pub open spec fn with_token_out(self, balance: u64) -> UserAccount {
        UserAccount { token_out_balance: balance, ..self }
    }

    /// This account after one more position has been numbered.
    pub open spec fn with_next_position(self) -> UserAccount {
        UserAccount { total_positions: (self.total_positions + 1) as u64, ..self }
    }

    /// Takes `amount` from the quote-currency balance.
    pub fn debit_base(&mut self, amount: u64) -> (r: Result<(), ErrorCode>)
        ensures
            amount <= old(self).token_in_balance ==> r == Ok::<(), ErrorCode>(()) && *final(self)
                == old(self).with_token_in((old(self).token_in_balance - amount) as u64),
            amount > old(self).token_in_balance ==> r == Err::<(), ErrorCode>(
                ErrorCode::InsufficientBalance,
            ) && *final(self) == *old(self),
    {
        if amount > self.token_in_balance {
            return Err(ErrorCode::InsufficientBalance);
        }
        self.token_in_balance = self.token_in_balance - amount;
        Ok(())
    }

    /// Adds `amount` to the quote-currency balance.
    pub fn credit_base(&mut self, amount: u64) -> (r: Result<(), ErrorCode>)
        ensures
            old(self).token_in_balance + amount <= u64::MAX ==> r == Ok::<(), ErrorCode>(())
                && *final(self) == old(self).with_token_in(
                (old(self).token_in_balance + amount) as u64,
            ),
            old(self).token_in_balance + amount > u64::MAX ==> r == Err::<(), ErrorCode>(
                ErrorCode::ArithmeticOverflow,
            ) && *final(self) == *old(self),
    {
        if amount > u64::MAX - self.token_in_balance {
            return Err(ErrorCode::ArithmeticOverflow);
        }
        self.token_in_balance = self.token_in_balance + amount;
        Ok(())
    }

    /// Takes `amount` from the traded-asset balance.
    pub fn debit_quote(&mut self, amount: u64) -> (r: Result<(), ErrorCode>)
        ensures
            amount <= old(self).token_out_balance ==> r == Ok::<(), ErrorCode>(()) && *final(self)
                == old(self).with_token_out((old(self).token_out_balance - amount) as u64),
            amount > old(self).token_out_balance ==> r == Err::<(), ErrorCode>(
                ErrorCode::InsufficientBalance,
            ) && *final(self) == *old(self),
    {
        if amount > self.token_out_balance {
            return Err(ErrorCode::InsufficientBalance);
        }
        self.token_out_balance = self.token_out_balance - amount;
        Ok(())
    }

    /// Adds `amount` to the traded-asset balance.
    pub fn credit_quote(&mut self, amount: u64) -> (r: Result<(), ErrorCode>)
        ensures
            old(self).token_out_balance + amount <= u64::MAX ==> r == Ok::<(), ErrorCode>(())
                && *final(self) == old(self).with_token_out(
                (old(self).token_out_balance + amount) as u64,
            ),
            old(self).token_out_balance + amount > u64::MAX ==> r == Err::<(), ErrorCode>(
                ErrorCode::ArithmeticOverflow,
            ) && *final(self) == *old(self),
    {
        if amount > u64::MAX - self.token_out_balance {
            return Err(ErrorCode::ArithmeticOverflow);
        }
        self.token_out_balance = self.token_out_balance + amount;
        Ok(())
    }

    /// The sequence number that the next position of this account gets.
    /// The caller increments the counter in the same transition.
    pub fn next_position_id(&self) -> (r: u64)
        ensures
            r == self.total_positions,
    {
        self.total_positions
    }
}

impl Default for UserAccount {
    /// An empty account of the zero identity.
    fn default() -> (r: UserAccount)
        ensures
            is_zero_identity(r.owner),
            r.pair_index == 0,
            r.token_in_balance == 0,
            r.token_out_balance == 0,
            r.total_positions == 0,
            r.created_at == 0,
    {
        UserAccount {
            owner: Identity::default(),
            pair_index: 0,
            token_in_balance: 0,
            token_out_balance: 0,
            total_positions: 0,
            created_at: 0,
        }
    }
}

/// The least entry fee that opens an account.
pub const MIN_ENTRY_FEE: u64 = 100_000_000;

/// The payment that the host performs together with a transition; if it
/// fails, the transition is abandoned as a whole.
#[derive(Clone, Copy, Debug, PartialEq, Eq)]
pub struct FeeTransfer {
    pub payer: Identity,
    pub payee: Identity,
    pub amount: u64,
}

/// Reported when an account has been opened.
#[derive(Clone, Copy, Debug, PartialEq, Eq)]
pub struct AccountInitialized {
    pub user: Identity,
    pub pair_index: u8,
    pub initial_token_in: u64,
    pub timestamp: i64,
}

/// The direction of a trade without thresholds.
#[derive(Clone, Copy, Debug, PartialEq, Eq, Structural)]
pub enum TradeType {
    Buy,
    Sell,
}

/// Reported when a trade without thresholds has been made.
#[derive(Clone, Copy, Debug, PartialEq, Eq)]
pub struct TradeExecuted {
    pub user: Identity,
    pub pair_index: u8,
    pub trade_type: TradeType,
    pub amount: u64,
    pub price: u64,
    pub timestamp: i64,
}

/// The account that `initialize_account` creates.
pub open spec fn fresh_account(owner: Identity, pair_index: u8, initial_token_in: u64, now: i64)
    -> UserAccount {
    UserAccount {
        owner,
        pair_index,
        token_in_balance: initial_token_in,
        token_out_balance: 0,
        total_positions: 0,
        created_at: now,
    }
}

/// Opens the account of `owner` for one trading pair.
///
/// `already_exists` says whether the store holds a record for this owner
/// and pair. On success the caller gets the new record, the entry-fee
/// payment from the owner to the configured treasury that the host has to
/// perform with it, and the record of the event.
pub fn initialize_account(
    config: &ProgramConfig,
    already_exists: bool,
    owner: Identity,
    pair_index: u8,
    entry_fee: u64,
    initial_token_in: u64,
    now: i64,
) -> (r: Result<(UserAccount, FeeTransfer, AccountInitialized), ErrorCode>)
    ensures
        already_exists ==> r == Err::<(UserAccount, FeeTransfer, AccountInitialized), ErrorCode>(
            ErrorCode::DuplicateAccount,
        ),
        !already_exists && entry_fee < MIN_ENTRY_FEE ==> r == Err::<
            (UserAccount, FeeTransfer, AccountInitialized),
            ErrorCode,
        >(ErrorCode::EntryFeeTooLow),
        !already_exists && entry_fee >= MIN_ENTRY_FEE ==> r == Ok::<
            (UserAccount, FeeTransfer, AccountInitialized),
            ErrorCode,
        >(
            (
                fresh_account(owner, pair_index, initial_token_in, now),
                FeeTransfer { payer: owner, payee: config.treasury, amount: entry_fee },
                AccountInitialized { user: owner, pair_index, initial_token_in, timestamp: now },
            ),
        ),
{
    if already_exists {
        return Err(ErrorCode::DuplicateAccount);
    }
    if entry_fee < MIN_ENTRY_FEE {
        return Err(ErrorCode::EntryFeeTooLow);
    }
    let account = UserAccount {
        owner,
        pair_index,
        token_in_balance: initial_token_in,
        token_out_balance: 0,
        total_positions: 0,
        created_at: now,
    };
    let fee = FeeTransfer { payer: owner, payee: config.treasury, amount: entry_fee };
    let record = AccountInitialized { user: owner, pair_index, initial_token_in, timestamp: now };
    Ok((account, fee, record))
}

/// What buying `amount` asset units at `price` does to an account.
pub open spec fn buy_outcome(account: UserAccount, amount: u64, price: u64) -> Result<
    UserAccount,
    ErrorCode,
> {
    let cost = value_at(amount, price);
    if cost > u64::MAX {
        Err(ErrorCode::ArithmeticOverflow)
    } else if account.token_in_balance < cost {
        Err(ErrorCode::InsufficientBalance)
    } else if account.token_out_balance + amount > u64::MAX {
        Err(ErrorCode::ArithmeticOverflow)
    } else {
        Ok(
            account.with_token_in((account.token_in_balance - cost) as u64).with_token_out(
                (account.token_out_balance + amount) as u64,
            ),
        )
    }
}

/// What selling `amount` asset units at `price` does to an account.
pub open spec fn sell_outcome(account: UserAccount, amount: u64, price: u64) -> Result<
    UserAccount,
    ErrorCode,
> {
    let proceeds = value_at(amount, price);
    if account.token_out_balance < amount {
        Err(ErrorCode::InsufficientBalance)
    } else if proceeds > u64::MAX {
        Err(ErrorCode::ArithmeticOverflow)
    } else if account.token_in_balance + proceeds > u64::MAX {
        Err(ErrorCode::ArithmeticOverflow)
    } else {
        Ok(
            account.with_token_out((account.token_out_balance - amount) as u64).with_token_in(
                (account.token_in_balance + proceeds) as u64,
            ),
        )
    }
}

/// The record of a trade on `account`.
pub open spec fn trade_record(
    account: UserAccount,
    trade_type: TradeType,
    amount: u64,
    price: u64,
    now: i64,
) -> TradeExecuted {
    TradeExecuted {
        user: account.owner,
        pair_index: account.pair_index,
        trade_type,
        amount,
        price,
        timestamp: now,
    }
}

/// Buys `amount_token_out` asset units at `price`, paying their value in
/// quote currency. All or nothing.
pub fn buy(user_account: &mut UserAccount, amount_token_out: u64, price: u64, now: i64) -> (r:
    Result<TradeExecuted, ErrorCode>)
    ensures
        match buy_outcome(*old(user_account), amount_token_out, price) {
            Ok(account) => *final(user_account) == account && r == Ok::<TradeExecuted, ErrorCode>(
                trade_record(*old(user_account), TradeType::Buy, amount_token_out, price, now),
            ),
            Err(e) => r == Err::<TradeExecuted, ErrorCode>(e)
                && *final(user_account) == *old(user_account),
        },
{
    let cost = scaled_multiply_divide(amount_token_out, price, PRICE_SCALE)?;
    let mut traded: UserAccount = *user_account;
    traded.debit_base(cost)?;
    traded.credit_quote(amount_token_out)?;
    *user_account = traded;
    Ok(
        TradeExecuted {
            user: traded.owner,
            pair_index: traded.pair_index,
            trade_type: TradeType::Buy,
            amount: amount_token_out,
            price,
            timestamp: now,
        },
    )
}

/// Sells `amount_token_out` asset units at `price`, receiving their value
/// in quote currency. All or nothing.
pub fn sell(user_account: &mut UserAccount, amount_token_out: u64, price: u64, now: i64) -> (r:
    Result<TradeExecuted, ErrorCode>)
    ensures
        match sell_outcome(*old(user_account), amount_token_out, price) {
            Ok(account) => *final(user_account) == account && r == Ok::<TradeExecuted, ErrorCode>(
                trade_record(*old(user_account), TradeType::Sell, amount_token_out, price, now),
            ),
            Err(e) => r == Err::<TradeExecuted, ErrorCode>(e)
                && *final(user_account) == *old(user_account),
        },
{
    let mut traded: UserAccount = *user_account;
    traded.debit_quote(amount_token_out)?;
    let proceeds = scaled_multiply_divide(amount_token_out, price, PRICE_SCALE)?;
    traded.credit_base(proceeds)?;
    *user_account = traded;
    Ok(
        TradeExecuted {
            user: traded.owner,
            pair_index: traded.pair_index,
            trade_type: TradeType::Sell,
            amount: amount_token_out,
            price,
            timestamp: now,
        },
    )
}

} // verus!
