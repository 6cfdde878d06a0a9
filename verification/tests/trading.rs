use token_factory::state::GRADUATION_MARKET_CAP;
use token_factory::{
    create_token, update_trading_data, Address, CreateToken, TokenData, UpdateTradingData,
};

fn created_record() -> TokenData {
    let mut ctx = CreateToken {
        mint: Address { bytes: [1; 32] },
        admin_token_account: Address { bytes: [2; 32] },
        burning_token_account: Address { bytes: [3; 32] },
        creator_token_account: Address { bytes: [4; 32] },
        token_data: TokenData::default(),
        creator: Address { bytes: [5; 32] },
        admin: Address { bytes: [6; 32] },
        token_program: Address { bytes: [7; 32] },
    };
    create_token(&mut ctx, "Doge".to_string(), "DG".to_string(), "u".to_string(), Some(2), 100)
        .unwrap();
    ctx.token_data
}

fn reporter(record: TokenData) -> UpdateTradingData {
    UpdateTradingData { token_data: record, trading_program: Address { bytes: [8; 32] } }
}

#[test]
fn update_overwrites_the_snapshot() {
    let created = created_record();
    let mut ctx = reporter(created.clone());
    update_trading_data(&mut ctx, 11, 22, 33, 44, 55, 200);
    let expected = TokenData {
        current_price: Some(11),
        market_cap: Some(22),
        total_volume: Some(33),
        holder_count: Some(44),
        transactions_count: Some(55),
        updated_at: 200,
        ..created
    };
    assert_eq!(ctx.token_data, expected);
    assert_eq!(ctx.trading_program, Address { bytes: [8; 32] });
    update_trading_data(&mut ctx, 1, 2, 3, 4, 5, 150);
    let expected = TokenData {
        current_price: Some(1),
        market_cap: Some(2),
        total_volume: Some(3),
        holder_count: Some(4),
        transactions_count: Some(5),
        updated_at: 150,
        ..expected
    };
    assert_eq!(ctx.token_data, expected);
}

#[test]
fn update_takes_any_figures() {
    let mut ctx = reporter(created_record());
    update_trading_data(&mut ctx, u64::MAX, 0, u64::MAX, u32::MAX, u64::MAX, i64::MIN);
    assert_eq!(ctx.token_data.current_price, Some(u64::MAX));
    assert_eq!(ctx.token_data.market_cap, Some(0));
    assert_eq!(ctx.token_data.holder_count, Some(u32::MAX));
    assert_eq!(ctx.token_data.updated_at, i64::MIN);
    assert!(!ctx.token_data.graduation_eligible);
}

#[test]
fn threshold_is_sixty_nine_thousand_dollars() {
    assert_eq!(GRADUATION_MARKET_CAP, 69_000_000_000);
}

#[test]
fn below_the_threshold_is_not_eligible() {
    let mut ctx = reporter(created_record());
    update_trading_data(&mut ctx, 1, 68_999_999_999, 3, 4, 5, 6);
    assert!(!ctx.token_data.graduation_eligible);
}

#[test]
fn at_the_threshold_is_eligible() {
    let mut ctx = reporter(created_record());
    update_trading_data(&mut ctx, 1, 69_000_000_000, 3, 4, 5, 6);
    assert!(ctx.token_data.graduation_eligible);
    assert!(!ctx.token_data.graduated);
}

#[test]
fn above_the_threshold_is_eligible() {
    let mut ctx = reporter(created_record());
    update_trading_data(&mut ctx, 1, u64::MAX, 3, 4, 5, 6);
    assert!(ctx.token_data.graduation_eligible);
}

#[test]
fn eligibility_is_kept_when_the_market_falls() {
    let mut ctx = reporter(created_record());
    update_trading_data(&mut ctx, 1, 70_000_000_000, 3, 4, 5, 6);
    update_trading_data(&mut ctx, 1, 5, 3, 4, 5, 7);
    assert!(ctx.token_data.graduation_eligible);
    assert_eq!(ctx.token_data.market_cap, Some(5));
}

#[test]
fn update_keeps_the_token() {
    let created = created_record();
    let mut ctx = reporter(created.clone());
    update_trading_data(&mut ctx, 1, 70_000_000_000, 3, 4, 5, 6);
    let after = &ctx.token_data;
    assert_eq!(after.mint, created.mint);
    assert_eq!(after.creator, created.creator);
    assert_eq!(after.admin, created.admin);
    assert_eq!(after.name, created.name);
    assert_eq!(after.symbol, created.symbol);
    assert_eq!(after.uri, created.uri);
    assert_eq!(after.total_supply, 1_000_000_000_000_000_000);
    assert_eq!(after.bonding_curve_supply, 800_000_000_000_000_000);
    assert_eq!(after.burning_reserve, 200_000_000_000_000_000);
    assert_eq!(after.created_at, 100);
    assert_eq!(after.initial_purchase_amount, Some(2));
    assert_eq!(after.initial_tokens_purchased, Some(2_000_000_000_000_000));
    assert!(after.is_active);
}
