use paper_trading::components::{Competition, Leaderboard, Position, TradingAccount};
use paper_trading::errors::ErrorCode;
use paper_trading::identity::Identity;
use paper_trading::systems::{close_position, join_competition, open_position, settle_competition};
use paper_trading::trophy::{mint_trophy_nft, Creator, MintTrophyArgs};

fn player(tag: u8) -> Identity {
    Identity::new([tag; 32])
}

fn competition(is_active: bool) -> Competition {
    Competition {
        authority: player(1),
        start_time: 100,
        end_time: 200,
        total_participants: 3,
        prize_pool: 5_000,
        is_active,
        name: String::from("Winter Cup"),
    }
}

fn standing() -> TradingAccount {
    TradingAccount {
        owner: player(7),
        balance: 10_000_000_000,
        total_pnl: -50,
        total_trades: 4,
        winning_trades: 1,
        losing_trades: 2,
        created_at: 110,
    }
}

fn open_position_of(direction: u8, entry: u64, current: u64, size: u64) -> Position {
    Position {
        owner: player(7),
        pair_index: 2,
        direction,
        entry_price: entry,
        size,
        take_profit: 0,
        stop_loss: 0,
        current_price: current,
        pnl: 0,
        is_open: true,
        opened_at: 120,
        closed_at: 0,
    }
}

#[test]
fn join_enrols_and_counts_the_participant() {
    let components = join_competition::Components {
        competition: competition(true),
        trading_account: standing(),
    };
    let joined = join_competition::execute(components, player(9), 150).unwrap();
    assert_eq!(joined.competition.total_participants, 4);
    assert_eq!(
        joined.competition,
        Competition { total_participants: 4, ..competition(true) }
    );
    assert_eq!(
        joined.trading_account,
        TradingAccount {
            owner: player(9),
            balance: 10_000 * 1_000_000,
            total_pnl: 0,
            total_trades: 0,
            winning_trades: 0,
            losing_trades: 0,
            created_at: 150,
        }
    );
    assert_eq!(join_competition::STARTING_BALANCE, 10_000_000_000);
}

#[test]
fn join_inactive_competition_is_rejected() {
    let components = join_competition::Components {
        competition: competition(false),
        trading_account: standing(),
    };
    assert_eq!(
        join_competition::execute(components, player(9), 150),
        Err(ErrorCode::CompetitionNotActive)
    );
}

#[test]
fn join_with_exhausted_counter_is_rejected() {
    let mut full = competition(true);
    full.total_participants = u64::MAX;
    let components =
        join_competition::Components { competition: full, trading_account: standing() };
    assert_eq!(
        join_competition::execute(components, player(9), 150),
        Err(ErrorCode::ArithmeticOverflow)
    );
}

#[test]
fn settle_after_the_end_deactivates() {
    let components = settle_competition::Components { competition: competition(true) };
    let settled = settle_competition::execute(components, 200).unwrap();
    assert_eq!(settled.competition, Competition { is_active: false, ..competition(true) });
    // Settling again is rejected.
    assert_eq!(
        settle_competition::execute(settled, 500),
        Err(ErrorCode::CompetitionNotActive)
    );
}

#[test]
fn settle_before_the_end_is_rejected() {
    let components = settle_competition::Components { competition: competition(true) };
    assert_eq!(
        settle_competition::execute(components, 199),
        Err(ErrorCode::CompetitionNotEnded)
    );
}

#[test]
fn settle_inactive_competition_is_rejected() {
    let components = settle_competition::Components { competition: competition(false) };
    assert_eq!(
        settle_competition::execute(components, 100),
        Err(ErrorCode::CompetitionNotActive)
    );
}

#[test]
fn join_after_settlement_is_rejected() {
    let settled = settle_competition::execute(
        settle_competition::Components { competition: competition(true) },
        250,
    )
    .unwrap();
    let components = join_competition::Components {
        competition: settled.competition,
        trading_account: TradingAccount::default(),
    };
    assert_eq!(
        join_competition::execute(components, player(9), 260),
        Err(ErrorCode::CompetitionNotActive)
    );
}

#[test]
fn open_fills_the_position_from_the_request() {
    let components = open_position::Components {
        competition: competition(true),
        trading_account: standing(),
        position: Position::default(),
    };
    let args = open_position::OpenPositionArgs {
        pair_index: 2,
        direction: 1,
        current_price: 150_000_000,
        size: 40,
        take_profit: Some(140_000_000),
        stop_loss: None,
    };
    let opened = open_position::execute(components, player(7), args, 160).unwrap();
    assert_eq!(
        opened.position,
        Position {
            owner: player(7),
            pair_index: 2,
            direction: 1,
            entry_price: 150_000_000,
            size: 40,
            take_profit: 140_000_000,
            stop_loss: 0,
            current_price: 150_000_000,
            pnl: 0,
            is_open: true,
            opened_at: 160,
            closed_at: 0,
        }
    );
    assert_eq!(opened.trading_account, TradingAccount { total_trades: 5, ..standing() });
    assert_eq!(opened.competition, competition(true));
}

#[test]
fn open_in_inactive_competition_is_rejected() {
    let components = open_position::Components {
        competition: competition(false),
        trading_account: standing(),
        position: Position::default(),
    };
    let args = open_position::OpenPositionArgs {
        pair_index: 0,
        direction: 0,
        current_price: 1,
        size: 1,
        take_profit: None,
        stop_loss: None,
    };
    assert_eq!(
        open_position::execute(components, player(7), args, 160),
        Err(ErrorCode::CompetitionNotActive)
    );
}

#[test]
fn open_with_exhausted_trade_counter_is_rejected() {
    let mut account = standing();
    account.total_trades = u64::MAX;
    let components = open_position::Components {
        competition: competition(true),
        trading_account: account,
        position: Position::default(),
    };
    let args = open_position::OpenPositionArgs {
        pair_index: 0,
        direction: 0,
        current_price: 1,
        size: 1,
        take_profit: None,
        stop_loss: None,
    };
    assert_eq!(
        open_position::execute(components, player(7), args, 160),
        Err(ErrorCode::ArithmeticOverflow)
    );
}

fn close(position: Position, account: TradingAccount) -> Result<close_position::Components, ErrorCode> {
    close_position::execute(
        close_position::Components {
            competition: competition(true),
            trading_account: account,
            position,
        },
        300,
    )
}

#[test]
fn close_books_a_long_profit_as_a_win() {
    // (160 - 150) * 3000 / 150 = 200
    let closed = close(open_position_of(0, 150, 160, 3_000), standing()).unwrap();
    assert_eq!(closed.position.pnl, 200);
    assert!(!closed.position.is_open);
    assert_eq!(closed.position.closed_at, 300);
    assert_eq!(
        closed.trading_account,
        TradingAccount { total_pnl: 150, winning_trades: 2, ..standing() }
    );
    assert_eq!(closed.competition, competition(true));
}

#[test]
fn close_books_a_long_loss_rounded_towards_zero() {
    // (140 - 150) * 1 / 150 rounds to 0, (140 - 150) * 31 / 150 to -2.
    let flat = close(open_position_of(0, 150, 140, 1), standing()).unwrap();
    assert_eq!(flat.position.pnl, 0);
    assert_eq!(flat.trading_account, TradingAccount { losing_trades: 3, ..standing() });
    let lost = close(open_position_of(0, 150, 140, 31), standing()).unwrap();
    assert_eq!(lost.position.pnl, -2);
    assert_eq!(
        lost.trading_account,
        TradingAccount { total_pnl: -52, losing_trades: 3, ..standing() }
    );
}

#[test]
fn close_books_a_short_the_other_way_round() {
    let won = close(open_position_of(1, 150, 140, 3_000), standing()).unwrap();
    assert_eq!(won.position.pnl, 200);
    assert_eq!(won.trading_account.winning_trades, 2);
    let lost = close(open_position_of(5, 150, 160, 3_000), standing()).unwrap();
    assert_eq!(lost.position.pnl, -200);
    assert_eq!(lost.trading_account.losing_trades, 3);
    assert_eq!(lost.trading_account.total_pnl, -250);
}

#[test]
fn close_a_closed_position_is_rejected() {
    let mut position = open_position_of(0, 150, 160, 3_000);
    position.is_open = false;
    assert_eq!(close(position, standing()), Err(ErrorCode::PositionNotOpen));
    assert_eq!(close(Position::default(), standing()), Err(ErrorCode::PositionNotOpen));
}

#[test]
fn close_with_pnl_beyond_64_bits_is_rejected() {
    assert_eq!(
        close(open_position_of(0, 1, u64::MAX, u64::MAX), standing()),
        Err(ErrorCode::ArithmeticOverflow)
    );
    assert_eq!(
        close(open_position_of(1, 1, u64::MAX, u64::MAX), standing()),
        Err(ErrorCode::ArithmeticUnderflow)
    );
}

#[test]
fn close_at_the_edges_of_the_signed_range() {
    let mut account = standing();
    account.total_pnl = 0;
    // (2^63 + 1 - 1) * 1 / 1 = 2^63, one more than the largest profit.
    assert_eq!(
        close(open_position_of(0, 1, (1u64 << 63) + 1, 1), account),
        Err(ErrorCode::ArithmeticOverflow)
    );
    let most = close(open_position_of(0, 1, 1u64 << 63, 1), account).unwrap();
    assert_eq!(most.position.pnl, i64::MAX);
    let least = close(open_position_of(1, 1, (1u64 << 63) + 1, 1), account).unwrap();
    assert_eq!(least.position.pnl, i64::MIN);
    assert_eq!(least.trading_account.total_pnl, i64::MIN);
    assert_eq!(
        close(open_position_of(1, 1, (1u64 << 63) + 2, 1), account),
        Err(ErrorCode::ArithmeticUnderflow)
    );
}

#[test]
fn close_with_total_beyond_64_bits_is_rejected() {
    let mut account = standing();
    account.total_pnl = i64::MAX;
    assert_eq!(
        close(open_position_of(0, 150, 160, 3_000), account),
        Err(ErrorCode::ArithmeticOverflow)
    );
    account.total_pnl = i64::MIN;
    assert_eq!(
        close(open_position_of(0, 150, 140, 3_000), account),
        Err(ErrorCode::ArithmeticUnderflow)
    );
    account.total_pnl = 0;
    account.winning_trades = u64::MAX;
    assert_eq!(
        close(open_position_of(0, 150, 160, 3_000), account),
        Err(ErrorCode::ArithmeticOverflow)
    );
}

#[test]
fn component_defaults_are_empty() {
    let position = Position::default();
    assert_eq!(position.owner, Identity::default());
    assert!(!position.is_open);
    assert_eq!(position.entry_price, 0);
    let competition = Competition::default();
    assert!(!competition.is_active);
    assert_eq!(competition.name, "");
    let board = Leaderboard::default();
    assert_eq!(board.rank, 0);
    assert_eq!(board.player, Identity::default());
    assert_eq!(TradingAccount::default().balance, 0);
}

fn trophy_request(rank: u8) -> MintTrophyArgs {
    MintTrophyArgs {
        rank,
        competition_id: String::from("winter-cup"),
        final_pnl: 1_234,
        total_trades: 17,
    }
}

#[test]
fn podium_ranks_earn_their_trophies() {
    let gold = mint_trophy_nft(player(1), player(7), &trophy_request(1)).unwrap();
    assert_eq!(gold.metadata.name, "Gold Trophy - 1st Place");
    assert_eq!(gold.metadata.symbol, "GOLD");
    assert_eq!(gold.metadata.uri, "https://arweave.net/gold-trophy.json");
    let silver = mint_trophy_nft(player(1), player(7), &trophy_request(2)).unwrap();
    assert_eq!(silver.metadata.name, "Silver Trophy - 2nd Place");
    assert_eq!(silver.metadata.symbol, "SILVER");
    assert_eq!(silver.metadata.uri, "https://arweave.net/silver-trophy.json");
    let bronze = mint_trophy_nft(player(1), player(7), &trophy_request(3)).unwrap();
    assert_eq!(bronze.metadata.name, "Bronze Trophy - 3rd Place");
    assert_eq!(bronze.metadata.symbol, "BRONZE");
    assert_eq!(bronze.metadata.uri, "https://arweave.net/bronze-trophy.json");
}

#[test]
fn trophy_is_one_immutable_token_of_the_authority() {
    let gold = mint_trophy_nft(player(1), player(7), &trophy_request(1)).unwrap();
    assert_eq!(gold.recipient, player(7));
    assert_eq!(gold.amount, 1);
    assert_eq!(gold.metadata.seller_fee_basis_points, 0);
    assert_eq!(gold.metadata.creator, Creator { address: player(1), verified: true, share: 100 });
    assert!(!gold.metadata.is_mutable);
}

#[test]
fn other_ranks_earn_no_trophy() {
    for rank in [0u8, 4, 5, 255] {
        assert_eq!(
            mint_trophy_nft(player(1), player(7), &trophy_request(rank)),
            Err(ErrorCode::InvalidRank)
        );
    }
}
