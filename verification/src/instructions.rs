//! The three instructions of the factory.
//!
//! Each is a function of what the host read for it: the accounts, the
//! arguments and the time. A rejected instruction changes nothing.

use crate::address::Address;
use crate::context::{
    CreateToken, CreateTokenView, GraduateToken, GraduateTokenView, UpdateTradingData,
    UpdateTradingDataView,
};
use crate::error::TokenFactoryError;
use crate::events::{TokenCreated, TokenCreatedView, TokenGraduated, TokenGraduatedView};
use crate::invoke::{
    invocation_views, system_transfer, system_transfer_instruction, Invocation, InvocationView,
};
use crate::state::{TokenData, TokenDataView, GRADUATION_MARKET_CAP};
use crate::supply::{
    calculate_initial_purchase_tokens, initial_purchase_tokens, purchase_in_range,
    BONDING_CURVE_ALLOCATION, BURNING_ALLOCATION, TOTAL_SUPPLY,
};
use crate::text::{char_len, MAX_NAME_LEN, MAX_SYMBOL_LEN, MAX_URI_LEN};
use vstd::prelude::*;

verus! {

/// What a successful creation leaves for the host to do.
#[derive(Clone, Debug, PartialEq, Eq)]
pub struct Creation {
    /// The calls to make, in this order. If one fails, the creation fails
    /// with it and nothing of it is kept.
    pub invocations: Vec<Invocation>,
    /// The notice to give out once the calls have succeeded.
    pub event: TokenCreated,
}

/// What a creation holds.
pub struct CreationView {
    pub invocations: Seq<InvocationView>,
    pub event: TokenCreatedView,
}

impl View for Creation {
    type V = CreationView;

    open spec fn view(&self) -> CreationView {
        CreationView { invocations: invocation_views(self.invocations@), event: self.event@ }
    }
}

/// Why a creation with these arguments is refused, if it is: the first of
/// the name, the symbol and the URI that has too many characters, or else a
/// purchase of nothing.
pub open spec fn create_rejection(
    name: Seq<char>,
    symbol: Seq<char>,
    uri: Seq<char>,
    initial_purchase_amount: Option<u64>,
) -> Option<TokenFactoryError> {
    if name.len() > MAX_NAME_LEN {
        Some(TokenFactoryError::NameTooLong)
    } else if symbol.len() > MAX_SYMBOL_LEN {
        Some(TokenFactoryError::SymbolTooLong)
    } else if uri.len() > MAX_URI_LEN {
        Some(TokenFactoryError::UriTooLong)
    } else if initial_purchase_amount == Some(0u64) {
        Some(TokenFactoryError::InvalidPurchaseAmount)
    } else {
        None
    }
}

/// The tokens recorded for an initial purchase.
pub open spec fn tokens_purchased(initial_purchase_amount: Option<u64>) -> Option<u64> {
    match initial_purchase_amount {
        Some(paid) => Some(initial_purchase_tokens(paid) as u64),
        None => None,
    }
}

/// The record of a token right after its creation.
pub open spec fn created_record(
    accounts: CreateTokenView,
    name: Seq<char>,
    symbol: Seq<char>,
    uri: Seq<char>,
    initial_purchase_amount: Option<u64>,
    unix_timestamp: i64,
) -> TokenDataView {
    TokenDataView {
        mint: accounts.mint,
        creator: accounts.creator,
        admin: accounts.admin,
        name,
        symbol,
        uri,
        total_supply: TOTAL_SUPPLY,
        bonding_curve_supply: BONDING_CURVE_ALLOCATION,
        burning_reserve: BURNING_ALLOCATION,
        created_at: unix_timestamp,
        is_active: true,
        initial_purchase_amount,
        initial_tokens_purchased: tokens_purchased(initial_purchase_amount),
        ..TokenDataView::unset()
    }
}

/// The calls of a creation: the whole supply is minted to the admin's token
/// account and the burning allocation is moved on from there; for an initial
/// purchase the creator then pays the admin, and the admin's token account
/// delivers the tokens bought.
pub open spec fn creation_invocations(
    accounts: CreateTokenView,
    initial_purchase_amount: Option<u64>,
) -> Seq<InvocationView> {
    let supply = seq![
        InvocationView::MintTo {
            program: accounts.token_program,
            mint: accounts.mint,
            to: accounts.admin_token_account,
            authority: accounts.admin,
            amount: TOTAL_SUPPLY,
        },
        InvocationView::Transfer {
            program: accounts.token_program,
            from: accounts.admin_token_account,
            to: accounts.burning_token_account,
            authority: accounts.admin,
            amount: BURNING_ALLOCATION,
        },
    ];
    match initial_purchase_amount {
        Some(paid) => supply + seq![
            InvocationView::Native {
                instruction: system_transfer_instruction(accounts.creator, accounts.admin, paid),
            },
            InvocationView::Transfer {
                program: accounts.token_program,
                from: accounts.admin_token_account,
                to: accounts.creator_token_account,
                authority: accounts.admin,
                amount: initial_purchase_tokens(paid) as u64,
            },
        ],
        None => supply,
    }
}

/// The notice of a creation.
pub open spec fn creation_event(
    accounts: CreateTokenView,
    name: Seq<char>,
    symbol: Seq<char>,
    initial_purchase_amount: Option<u64>,
) -> TokenCreatedView {
    TokenCreatedView {
        mint: accounts.mint,
        creator: accounts.creator,
        name,
        symbol,
        total_supply: TOTAL_SUPPLY,
        initial_purchase: initial_purchase_amount,
    }
}

/// Whether a creation with these arguments can be carried out: it is
/// refused, or the tokens of its initial purchase can be counted in a `u64`.
pub open spec fn creation_in_range(
    name: Seq<char>,
    symbol: Seq<char>,
    uri: Seq<char>,
    initial_purchase_amount: Option<u64>,
) -> bool {
    create_rejection(name, symbol, uri, initial_purchase_amount) is None ==> (
    initial_purchase_amount matches Some(paid) ==> initial_purchase_tokens(paid) <= u64::MAX)
}

/// What a creation does: refused, it reports why and changes nothing;
/// accepted, it writes the record over whatever the account held and hands
/// back the calls to make and the notice to give out.
pub open spec fn creates(
    before: CreateToken,
    after: CreateToken,
    name: Seq<char>,
    symbol: Seq<char>,
    uri: Seq<char>,
    initial_purchase_amount: Option<u64>,
    unix_timestamp: i64,
    result: Result<Creation, TokenFactoryError>,
) -> bool {
    match create_rejection(name, symbol, uri, initial_purchase_amount) {
        Some(error) => {
            &&& result matches Err(e)
            &&& e == error
            &&& after == before
        },
        None => {
            &&& result matches Ok(creation)
            &&& creation@.invocations == creation_invocations(before@, initial_purchase_amount)
            &&& creation@.event == creation_event(before@, name, symbol, initial_purchase_amount)
            &&& after@ == (CreateTokenView {
                token_data: created_record(
                    before@,
                    name,
                    symbol,
                    uri,
                    initial_purchase_amount,
                    unix_timestamp,
                ),
                ..before@
            })
        },
    }
}

/// Checks the arguments of a creation, in the order in which they are
/// given.
pub fn check_creation(
    name: &String,
    symbol: &String,
    uri: &String,
    initial_purchase_amount: Option<u64>,
) -> (result: Result<(), TokenFactoryError>)
    ensures
        match create_rejection(name@, symbol@, uri@, initial_purchase_amount) {
            Some(error) => result matches Err(e) && e == error,
            None => result is Ok,
        },
{
    if char_len(name) > MAX_NAME_LEN {
        return Err(TokenFactoryError::NameTooLong);
    }
    if char_len(symbol) > MAX_SYMBOL_LEN {
        return Err(TokenFactoryError::SymbolTooLong);
    }
    if char_len(uri) > MAX_URI_LEN {
        return Err(TokenFactoryError::UriTooLong);
    }
    match initial_purchase_amount {
        Some(0) => Err(TokenFactoryError::InvalidPurchaseAmount),
        _ => Ok(()),
    }
}

/// Creates a token: checks the arguments, writes the token's record and says
/// which calls into other programs the host has to make.
///
/// The tokens of an initial purchase have to be countable in a `u64`;
/// [`try_create_token`] tests that first.
pub fn create_token(
    ctx: &mut CreateToken,
    name: String,
    symbol: String,
    uri: String,
    initial_purchase_amount: Option<u64>,
    unix_timestamp: i64,
) -> (result: Result<Creation, TokenFactoryError>)
    requires
        creation_in_range(name@, symbol@, uri@, initial_purchase_amount),
    ensures
        creates(
            *old(ctx),
            *final(ctx),
            name@,
            symbol@,
            uri@,
            initial_purchase_amount,
            unix_timestamp,
            result,
        ),
        result is Ok ==> final(ctx).token_data.well_formed(),
{
    if let Err(error) = check_creation(&name, &symbol, &uri, initial_purchase_amount) {
        return Err(error);
    }
    let mut invocations: Vec<Invocation> = Vec::new();
    invocations.push(
        Invocation::MintTo {
            program: ctx.token_program,
            mint: ctx.mint,
            to: ctx.admin_token_account,
            authority: ctx.admin,
            amount: TOTAL_SUPPLY,
        },
    );
    invocations.push(
        Invocation::Transfer {
            program: ctx.token_program,
            from: ctx.admin_token_account,
            to: ctx.burning_token_account,
            authority: ctx.admin,
            amount: BURNING_ALLOCATION,
        },
    );
    let mut initial_tokens_purchased: Option<u64> = None;
    if let Some(sol_amount) = initial_purchase_amount {
        let payment = system_transfer(&ctx.creator, &ctx.admin, sol_amount);
        invocations.push(Invocation::Native { instruction: payment });
        let tokens_to_transfer = calculate_initial_purchase_tokens(sol_amount);
        invocations.push(
            Invocation::Transfer {
                program: ctx.token_program,
                from: ctx.admin_token_account,
                to: ctx.creator_token_account,
                authority: ctx.admin,
                amount: tokens_to_transfer,
            },
        );
        initial_tokens_purchased = Some(tokens_to_transfer);
    }
    let event = TokenCreated {
        mint: ctx.mint,
        creator: ctx.creator,
        name: name.clone(),
        symbol: symbol.clone(),
        total_supply: TOTAL_SUPPLY,
        initial_purchase: initial_purchase_amount,
    };
    ctx.token_data = TokenData {
        mint: ctx.mint,
        creator: ctx.creator,
        admin: ctx.admin,
        name,
        symbol,
        uri,
        total_supply: TOTAL_SUPPLY,
        bonding_curve_supply: BONDING_CURVE_ALLOCATION,
        burning_reserve: BURNING_ALLOCATION,
        created_at: unix_timestamp,
        updated_at: 0,
        is_active: true,
        current_price: None,
        market_cap: None,
        total_volume: None,
        holder_count: None,
        transactions_count: None,
        graduation_eligible: false,
        graduated: false,
        graduation_date: None,
        raydium_pool_id: None,
        graduation_fee: None,
        initial_purchase_amount,
        initial_tokens_purchased,
    };
    let creation = Creation { invocations, event };
    assert(creation@.invocations =~= creation_invocations(old(ctx)@, initial_purchase_amount));
    Ok(creation)
}

/// Creates a token as [`create_token`] does, where it can: `None`, and
/// nothing changed, where the arguments pass every check but the tokens of
/// the initial purchase cannot be counted in a `u64`.
pub fn try_create_token(
    ctx: &mut CreateToken,
    name: String,
    symbol: String,
    uri: String,
    initial_purchase_amount: Option<u64>,
    unix_timestamp: i64,
) -> (result: Option<Result<Creation, TokenFactoryError>>)
    ensures
        result is Some <==> creation_in_range(name@, symbol@, uri@, initial_purchase_amount),
        match result {
            Some(outcome) => {
                &&& creates(
                    *old(ctx),
                    *final(ctx),
                    name@,
                    symbol@,
                    uri@,
                    initial_purchase_amount,
                    unix_timestamp,
                    outcome,
                )
                &&& outcome is Ok ==> final(ctx).token_data.well_formed()
            },
            None => *final(ctx) == *old(ctx),
        },
{
    if let Some(sol_amount) = initial_purchase_amount {
        if !purchase_in_range(sol_amount) && check_creation(
            &name,
            &symbol,
            &uri,
            initial_purchase_amount,
        ).is_ok() {
            return None;
        }
    }
    Some(create_token(ctx, name, symbol, uri, initial_purchase_amount, unix_timestamp))
}

/// The record after a trading update: the five figures and the time are
/// overwritten, and the token becomes eligible for graduation if the market
/// capitalisation has reached the threshold. Eligibility, once gained, stays.
pub open spec fn updated_record(
    record: TokenDataView,
    current_price: u64,
    market_cap: u64,
    total_volume: u64,
    holder_count: u32,
    transactions_count: u64,
    unix_timestamp: i64,
) -> TokenDataView {
    TokenDataView {
        current_price: Some(current_price),
        market_cap: Some(market_cap),
        total_volume: Some(total_volume),
        holder_count: Some(holder_count),
        transactions_count: Some(transactions_count),
        updated_at: unix_timestamp,
        graduation_eligible: record.graduation_eligible || market_cap >= GRADUATION_MARKET_CAP,
        ..record
    }
}

/// Records the trading figures that the reporter hands in. Nothing is
/// checked, and what was recorded before is not kept.
pub fn update_trading_data(
    ctx: &mut UpdateTradingData,
    current_price: u64,
    market_cap: u64,
    total_volume: u64,
    holder_count: u32,
    transactions_count: u64,
    unix_timestamp: i64,
)
    ensures
        final(ctx)@ == (UpdateTradingDataView {
            token_data: updated_record(
                old(ctx)@.token_data,
                current_price,
                market_cap,
                total_volume,
                holder_count,
                transactions_count,
                unix_timestamp,
            ),
            ..old(ctx)@
        }),
        old(ctx).token_data.well_formed() ==> final(ctx).token_data.well_formed(),
        old(ctx).token_data.graduation_eligible ==> final(ctx).token_data.graduation_eligible,
        final(ctx).token_data.graduated == old(ctx).token_data.graduated,
{
    ctx.token_data.current_price = Some(current_price);
    ctx.token_data.market_cap = Some(market_cap);
    ctx.token_data.total_volume = Some(total_volume);
    ctx.token_data.holder_count = Some(holder_count);
    ctx.token_data.transactions_count = Some(transactions_count);
    ctx.token_data.updated_at = unix_timestamp;
    if market_cap >= GRADUATION_MARKET_CAP {
        ctx.token_data.graduation_eligible = true;
    }
}

/// Why the graduation of a token with this record is refused, if it is.
pub open spec fn graduation_rejection(record: TokenDataView) -> Option<TokenFactoryError> {
    if !record.graduation_eligible {
        Some(TokenFactoryError::NotEligibleForGraduation)
    } else if record.graduated {
        Some(TokenFactoryError::AlreadyGraduated)
    } else {
        None
    }
}

/// Checks whether the token in `record` may graduate now.
pub fn check_graduation(record: &TokenData) -> (result: Result<(), TokenFactoryError>)
    ensures
        match graduation_rejection(record@) {
            Some(error) => result matches Err(e) && e == error,
            None => result is Ok,
        },
{
    if !record.graduation_eligible {
        return Err(TokenFactoryError::NotEligibleForGraduation);
    }
    if record.graduated {
        return Err(TokenFactoryError::AlreadyGraduated);
    }
    Ok(())
}

/// The record after a graduation.
pub open spec fn graduated_record(
    record: TokenDataView,
    raydium_pool_id: Seq<u8>,
    graduation_fee: u64,
    unix_timestamp: i64,
) -> TokenDataView {
    TokenDataView {
        graduated: true,
        graduation_date: Some(unix_timestamp),
        raydium_pool_id: Some(raydium_pool_id),
        graduation_fee: Some(graduation_fee),
        ..record
    }
}

/// The notice of a graduation.
pub open spec fn graduation_event(
    record: TokenDataView,
    raydium_pool_id: Seq<u8>,
    graduation_fee: u64,
) -> TokenGraduatedView {
    TokenGraduatedView {
        mint: record.mint,
        raydium_pool_id,
        graduation_fee,
        market_cap: record.market_cap.unwrap_or(0),
    }
}

/// Marks an eligible token as graduated to the pool `raydium_pool_id`, once
/// and for good, and returns the notice to give out.
pub fn graduate_token(
    ctx: &mut GraduateToken,
    raydium_pool_id: Address,
    graduation_fee: u64,
    unix_timestamp: i64,
) -> (result: Result<TokenGraduated, TokenFactoryError>)
    ensures
        match graduation_rejection(old(ctx)@.token_data) {
            Some(error) => {
                &&& result matches Err(e)
                &&& e == error
                &&& *final(ctx) == *old(ctx)
            },
            None => {
                &&& result matches Ok(event)
                &&& event@ == graduation_event(
                    old(ctx)@.token_data,
                    raydium_pool_id@,
                    graduation_fee,
                )
                &&& final(ctx)@ == (GraduateTokenView {
                    token_data: graduated_record(
                        old(ctx)@.token_data,
                        raydium_pool_id@,
                        graduation_fee,
                        unix_timestamp,
                    ),
                    ..old(ctx)@
                })
            },
        },
        old(ctx).token_data.well_formed() ==> final(ctx).token_data.well_formed(),
        old(ctx).token_data.graduated ==> final(ctx).token_data.graduated,
        final(ctx).token_data.graduation_eligible == old(ctx).token_data.graduation_eligible,
{
    if let Err(error) = check_graduation(&ctx.token_data) {
        return Err(error);
    }
    ctx.token_data.graduated = true;
    ctx.token_data.graduation_date = Some(unix_timestamp);
    ctx.token_data.raydium_pool_id = Some(raydium_pool_id);
    ctx.token_data.graduation_fee = Some(graduation_fee);
    Ok(
        TokenGraduated {
            mint: ctx.token_data.mint,
            raydium_pool_id,
            graduation_fee,
            market_cap: ctx.token_data.market_cap.unwrap_or(0),
        },
    )
}

} // verus!
