use paper_trading::account::{
    buy, initialize_account, sell, AccountInitialized, FeeTransfer, TradeExecuted, TradeType,
    UserAccount, MIN_ENTRY_FEE,
};
use paper_trading::config::{initialize_config, ProgramConfig};
use paper_trading::errors::ErrorCode;
use paper_trading::identity::Identity;

fn ident(tag: u8) -> Identity {
    Identity::new([tag; 32])
}

fn program() -> ProgramConfig {
    initialize_config(ident(1), ident(2), 255).0
}

fn ledger(token_in: u64, token_out: u64) -> UserAccount {
    UserAccount {
        owner: ident(7),
        pair_index: 0,
        token_in_balance: token_in,
        token_out_balance: token_out,
        total_positions: 0,
        created_at: 1_700_000_000,
    }
}

#[test]
fn initialize_account_creates_record_and_fee_transfer() {
    let (account, fee, event) =
        initialize_account(&program(), false, ident(7), 1, 100_000_000, 10_000_000_000, 42)
            .unwrap();
    assert_eq!(
        account,
        UserAccount {
            owner: ident(7),
            pair_index: 1,
            token_in_balance: 10_000_000_000,
            token_out_balance: 0,
            total_positions: 0,
            created_at: 42,
        }
    );
    assert_eq!(fee, FeeTransfer { payer: ident(7), payee: ident(2), amount: 100_000_000 });
    assert_eq!(
        event,
        AccountInitialized {
            user: ident(7),
            pair_index: 1,
            initial_token_in: 10_000_000_000,
            timestamp: 42
        }
    );
}

#[test]
fn initialize_account_rejects_low_fee() {
    assert_eq!(MIN_ENTRY_FEE, 100_000_000);
    assert_eq!(
        initialize_account(&program(), false, ident(7), 0, 99_999_999, 5, 42),
        Err(ErrorCode::EntryFeeTooLow)
    );
    assert_eq!(
        initialize_account(&program(), false, ident(7), 0, 0, 5, 42),
        Err(ErrorCode::EntryFeeTooLow)
    );
}

#[test]
fn initialize_account_rejects_duplicate() {
    assert_eq!(
        initialize_account(&program(), true, ident(7), 0, 100_000_000, 5, 42),
        Err(ErrorCode::DuplicateAccount)
    );
    assert_eq!(
        initialize_account(&program(), true, ident(7), 0, 1, 5, 42),
        Err(ErrorCode::DuplicateAccount)
    );
}

#[test]
fn debit_and_credit_base() {
    let mut account = ledger(100, 0);
    assert_eq!(account.debit_base(40), Ok(()));
    assert_eq!(account.token_in_balance, 60);
    assert_eq!(account.credit_base(15), Ok(()));
    assert_eq!(account.token_in_balance, 75);
    assert_eq!(account.debit_base(75), Ok(()));
    assert_eq!(account.token_in_balance, 0);
    assert_eq!(account.token_out_balance, 0);
}

#[test]
fn debit_base_beyond_balance_is_rejected() {
    let mut account = ledger(100, 3);
    assert_eq!(account.debit_base(101), Err(ErrorCode::InsufficientBalance));
    assert_eq!(account, ledger(100, 3));
}

#[test]
fn credit_base_overflow_is_rejected() {
    let mut account = ledger(u64::MAX - 1, 0);
    assert_eq!(account.credit_base(2), Err(ErrorCode::ArithmeticOverflow));
    assert_eq!(account, ledger(u64::MAX - 1, 0));
    assert_eq!(account.credit_base(1), Ok(()));
    assert_eq!(account.token_in_balance, u64::MAX);
}

#[test]
fn debit_and_credit_quote() {
    let mut account = ledger(9, 100);
    assert_eq!(account.credit_quote(5), Ok(()));
    assert_eq!(account.token_out_balance, 105);
    assert_eq!(account.debit_quote(105), Ok(()));
    assert_eq!(account.token_out_balance, 0);
    assert_eq!(account.debit_quote(1), Err(ErrorCode::InsufficientBalance));
    assert_eq!(account.token_in_balance, 9);
    let mut full = ledger(0, u64::MAX);
    assert_eq!(full.credit_quote(1), Err(ErrorCode::ArithmeticOverflow));
    assert_eq!(full, ledger(0, u64::MAX));
}

#[test]
fn next_position_id_reads_the_counter() {
    let mut account = ledger(0, 0);
    assert_eq!(account.next_position_id(), 0);
    account.total_positions = 41;
    assert_eq!(account.next_position_id(), 41);
}

#[test]
fn buy_moves_value_between_balances() {
    let mut account = ledger(1_000_000_000_000, 0);
    let event = buy(&mut account, 2_000_000_000, 150_500_000, 77).unwrap();
    assert_eq!(account.token_in_balance, 699_000_000_000);
    assert_eq!(account.token_out_balance, 2_000_000_000);
    assert_eq!(
        event,
        TradeExecuted {
            user: ident(7),
            pair_index: 0,
            trade_type: TradeType::Buy,
            amount: 2_000_000_000,
            price: 150_500_000,
            timestamp: 77,
        }
    );
}

#[test]
fn buy_without_funds_is_rejected() {
    let mut account = ledger(300_999_999, 5);
    assert_eq!(buy(&mut account, 2_000_000, 150_500_000, 77), Err(ErrorCode::InsufficientBalance));
    assert_eq!(account, ledger(300_999_999, 5));
    assert!(buy(&mut account, 2_000_000, 150_499_999, 77).is_ok());
}

#[test]
fn buy_overflow_leaves_account_untouched() {
    let mut account = ledger(u64::MAX, 5);
    assert_eq!(
        buy(&mut account, u64::MAX, 2_000_000, 77),
        Err(ErrorCode::ArithmeticOverflow)
    );
    assert_eq!(account, ledger(u64::MAX, 5));
    // The cost fits, the asset balance would not.
    assert_eq!(buy(&mut account, u64::MAX - 4, 1, 77), Err(ErrorCode::ArithmeticOverflow));
    assert_eq!(account, ledger(u64::MAX, 5));
}

#[test]
fn sell_moves_value_between_balances() {
    let mut account = ledger(10, 3_000_000_000);
    let event = sell(&mut account, 1_000_000_000, 20_000_000, 78).unwrap();
    assert_eq!(account.token_in_balance, 20_000_000_010);
    assert_eq!(account.token_out_balance, 2_000_000_000);
    assert_eq!(event.trade_type, TradeType::Sell);
    assert_eq!(event.amount, 1_000_000_000);
    assert_eq!(event.price, 20_000_000);
    assert_eq!(event.timestamp, 78);
}

#[test]
fn sell_more_than_held_is_rejected() {
    let mut account = ledger(10, 5);
    assert_eq!(sell(&mut account, 6, 1_000_000, 78), Err(ErrorCode::InsufficientBalance));
    assert_eq!(account, ledger(10, 5));
}

#[test]
fn sell_overflow_leaves_account_untouched() {
    let mut account = ledger(u64::MAX, 10);
    assert_eq!(sell(&mut account, 10, 1_000_000, 78), Err(ErrorCode::ArithmeticOverflow));
    assert_eq!(account, ledger(u64::MAX, 10));
    let mut rich = ledger(0, u64::MAX);
    assert_eq!(sell(&mut rich, u64::MAX, 2_000_000, 78), Err(ErrorCode::ArithmeticOverflow));
    assert_eq!(rich, ledger(0, u64::MAX));
}

#[test]
fn buy_then_sell_at_same_price_returns_the_cost() {
    let mut account = ledger(1_000_000_000, 0);
    buy(&mut account, 4_000_000, 25_000_000, 1).unwrap();
    assert_eq!(account.token_in_balance, 900_000_000);
    sell(&mut account, 4_000_000, 25_000_000, 2).unwrap();
    assert_eq!(account, ledger(1_000_000_000, 0));
}
