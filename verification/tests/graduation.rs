use token_factory::{
    graduate_token, update_trading_data, Address, GraduateToken, TokenData, TokenFactoryError,
    TokenGraduated, UpdateTradingData,
};

const MINT: Address = Address { bytes: [1; 32] };
const POOL: Address = Address { bytes: [9; 32] };
const OTHER_POOL: Address = Address { bytes: [10; 32] };
const SIGNER: Address = Address { bytes: [6; 32] };

fn record() -> TokenData {
    TokenData {
        mint: MINT,
        total_supply: 1_000_000_000_000_000_000,
        bonding_curve_supply: 800_000_000_000_000_000,
        burning_reserve: 200_000_000_000_000_000,
        created_at: 100,
        is_active: true,
        ..TokenData::default()
    }
}

fn reported(market_cap: u64) -> TokenData {
    let mut ctx = UpdateTradingData { token_data: record(), trading_program: SIGNER };
    update_trading_data(&mut ctx, 1, market_cap, 3, 4, 5, 150);
    ctx.token_data
}

#[test]
fn graduation_needs_eligibility() {
    let mut ctx = GraduateToken { token_data: reported(68_999_999_999), admin: SIGNER };
    let before = ctx.clone();
    let refused = graduate_token(&mut ctx, POOL, 10, 200);
    assert_eq!(refused, Err(TokenFactoryError::NotEligibleForGraduation));
    assert_eq!(ctx, before);
}

#[test]
fn graduation_of_an_unreported_token_is_refused() {
    let mut ctx = GraduateToken { token_data: record(), admin: SIGNER };
    let refused = graduate_token(&mut ctx, POOL, 10, 200);
    assert_eq!(refused, Err(TokenFactoryError::NotEligibleForGraduation));
}

#[test]
fn graduation_records_pool_fee_and_time() {
    let eligible = reported(69_000_000_000);
    let mut ctx = GraduateToken { token_data: eligible.clone(), admin: SIGNER };
    let event = graduate_token(&mut ctx, POOL, 10, 200);
    assert_eq!(
        event,
        Ok(TokenGraduated {
            mint: MINT,
            raydium_pool_id: POOL,
            graduation_fee: 10,
            market_cap: 69_000_000_000,
        })
    );
    let expected = TokenData {
        graduated: true,
        graduation_date: Some(200),
        raydium_pool_id: Some(POOL),
        graduation_fee: Some(10),
        ..eligible
    };
    assert_eq!(ctx.token_data, expected);
    assert_eq!(ctx.admin, SIGNER);
}

#[test]
fn graduation_happens_once() {
    let mut ctx = GraduateToken { token_data: reported(70_000_000_000), admin: SIGNER };
    graduate_token(&mut ctx, POOL, 10, 200).unwrap();
    let graduated = ctx.clone();
    let again = graduate_token(&mut ctx, OTHER_POOL, 11, 300);
    assert_eq!(again, Err(TokenFactoryError::AlreadyGraduated));
    assert_eq!(ctx, graduated);
}

#[test]
fn graduation_survives_later_updates() {
    let mut ctx = GraduateToken { token_data: reported(70_000_000_000), admin: SIGNER };
    graduate_token(&mut ctx, POOL, 10, 200).unwrap();
    let mut update = UpdateTradingData { token_data: ctx.token_data, trading_program: SIGNER };
    update_trading_data(&mut update, 1, 2, 3, 4, 5, 400);
    assert!(update.token_data.graduated);
    assert!(update.token_data.graduation_eligible);
    assert_eq!(update.token_data.graduation_date, Some(200));
    assert_eq!(update.token_data.raydium_pool_id, Some(POOL));
    assert_eq!(update.token_data.graduation_fee, Some(10));
    let mut ctx = GraduateToken { token_data: update.token_data, admin: SIGNER };
    assert_eq!(
        graduate_token(&mut ctx, OTHER_POOL, 11, 500),
        Err(TokenFactoryError::AlreadyGraduated)
    );
}

#[test]
fn notice_carries_the_last_reported_market_cap() {
    let mut update = UpdateTradingData { token_data: reported(70_000_000_000), trading_program: SIGNER };
    update_trading_data(&mut update, 1, 42, 3, 4, 5, 160);
    let mut ctx = GraduateToken { token_data: update.token_data, admin: SIGNER };
    let event = graduate_token(&mut ctx, POOL, 0, 200).unwrap();
    assert_eq!(event.market_cap, 42);
    assert_eq!(event.graduation_fee, 0);
}

#[test]
fn notice_without_a_report_carries_zero() {
    let mut token_data = record();
    token_data.graduation_eligible = true;
    let mut ctx = GraduateToken { token_data, admin: SIGNER };
    let event = graduate_token(&mut ctx, POOL, 10, 200).unwrap();
    assert_eq!(event.market_cap, 0);
    assert!(ctx.token_data.graduated);
}

#[test]
fn eligibility_is_checked_before_repetition() {
    let mut token_data = record();
    token_data.graduated = true;
    let mut ctx = GraduateToken { token_data, admin: SIGNER };
    assert_eq!(
        graduate_token(&mut ctx, POOL, 10, 200),
        Err(TokenFactoryError::NotEligibleForGraduation)
    );
}
