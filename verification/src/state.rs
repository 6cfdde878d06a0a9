//! The record that the factory keeps for each token.

use crate::address::{optional_address, zero_address, Address};
use crate::supply::{
    initial_purchase_tokens, BONDING_CURVE_ALLOCATION, BURNING_ALLOCATION, TOTAL_SUPPLY,
};
use crate::text::{
    lemma_utf8_len_bounds, utf8_len, MAX_NAME_BYTES, MAX_NAME_LEN, MAX_SYMBOL_BYTES,
    MAX_SYMBOL_LEN, MAX_URI_BYTES, MAX_URI_LEN,
};
use vstd::prelude::*;

verus! {

/// The market capitalisation, in millionths of a dollar, from which a token
/// may graduate.
pub const GRADUATION_MARKET_CAP: u64 = 69_000_000_000;

/// The record of one token.
#[derive(Clone, Debug, PartialEq, Eq)]
pub struct TokenData {
    /// The token's mint. The record's own address is derived from it.
    pub mint: Address,
    /// Who created the token.
    pub creator: Address,
    /// Who holds the mint authority and receives the supply.
    pub admin: Address,
    pub name: String,
    pub symbol: String,
    pub uri: String,
    pub total_supply: u64,
    pub bonding_curve_supply: u64,
    pub burning_reserve: u64,
    /// Unix time of creation.
    pub created_at: i64,
    /// Unix time of the last trading update; zero before the first one.
    pub updated_at: i64,
    pub is_active: bool,
    pub current_price: Option<u64>,
    pub market_cap: Option<u64>,
    pub total_volume: Option<u64>,
    pub holder_count: Option<u32>,
    pub transactions_count: Option<u64>,
    pub graduation_eligible: bool,
    pub graduated: bool,
    pub graduation_date: Option<i64>,
    pub raydium_pool_id: Option<Address>,
    pub graduation_fee: Option<u64>,
    /// Lamports paid for the initial purchase, if there was one.
    pub initial_purchase_amount: Option<u64>,
    /// Tokens handed out for the initial purchase, if there was one.
    pub initial_tokens_purchased: Option<u64>,
}

/// What a record holds: addresses as their bytes, texts as their characters.
pub struct TokenDataView {
    pub mint: Seq<u8>,
    pub creator: Seq<u8>,
    pub admin: Seq<u8>,
    pub name: Seq<char>,
    pub symbol: Seq<char>,
    pub uri: Seq<char>,
    pub total_supply: u64,
    pub bonding_curve_supply: u64,
    pub burning_reserve: u64,
    pub created_at: i64,
    pub updated_at: i64,
    pub is_active: bool,
    pub current_price: Option<u64>,
    pub market_cap: Option<u64>,
    pub total_volume: Option<u64>,
    pub holder_count: Option<u32>,
    pub transactions_count: Option<u64>,
    pub graduation_eligible: bool,
    pub graduated: bool,
    pub graduation_date: Option<i64>,
    pub raydium_pool_id: Option<Seq<u8>>,
    pub graduation_fee: Option<u64>,
    pub initial_purchase_amount: Option<u64>,
    pub initial_tokens_purchased: Option<u64>,
}

impl View for TokenData {
    type V = TokenDataView;

    open spec fn view(&self) -> TokenDataView {
        TokenDataView {
            mint: self.mint@,
            creator: self.creator@,
            admin: self.admin@,
            name: self.name@,
            symbol: self.symbol@,
            uri: self.uri@,
            total_supply: self.total_supply,
            bonding_curve_supply: self.bonding_curve_supply,
            burning_reserve: self.burning_reserve,
            created_at: self.created_at,
            updated_at: self.updated_at,
            is_active: self.is_active,
            current_price: self.current_price,
            market_cap: self.market_cap,
            total_volume: self.total_volume,
            holder_count: self.holder_count,
            transactions_count: self.transactions_count,
            graduation_eligible: self.graduation_eligible,
            graduated: self.graduated,
            graduation_date: self.graduation_date,
            raydium_pool_id: optional_address(self.raydium_pool_id),
            graduation_fee: self.graduation_fee,
            initial_purchase_amount: self.initial_purchase_amount,
            initial_tokens_purchased: self.initial_tokens_purchased,
        }
    }
}

impl TokenDataView {
    /// The record of an account that was allocated and never written.
    pub open spec fn unset() -> TokenDataView {
        TokenDataView {
            mint: zero_address(),
            creator: zero_address(),
            admin: zero_address(),
            name: Seq::empty(),
            symbol: Seq::empty(),
            uri: Seq::empty(),
            total_supply: 0,
            bonding_curve_supply: 0,
            burning_reserve: 0,
            created_at: 0,
            updated_at: 0,
            is_active: false,
            current_price: None,
            market_cap: None,
            total_volume: None,
            holder_count: None,
            transactions_count: None,
            graduation_eligible: false,
            graduated: false,
            graduation_date: None,
            raydium_pool_id: None,
            graduation_fee: None,
            initial_purchase_amount: None,
            initial_tokens_purchased: None,
        }
    }

    /// No text has more characters than its limit allows.
    pub open spec fn texts_fit(self) -> bool {
        &&& self.name.len() <= MAX_NAME_LEN
        &&& self.symbol.len() <= MAX_SYMBOL_LEN
        &&& self.uri.len() <= MAX_URI_LEN
    }

    /// The supply is the fixed one, split in the fixed way.
    pub open spec fn supply_split(self) -> bool {
        &&& self.total_supply == TOTAL_SUPPLY
        &&& self.bonding_curve_supply == BONDING_CURVE_ALLOCATION
        &&& self.burning_reserve == BURNING_ALLOCATION
        &&& self.total_supply == self.bonding_curve_supply + self.burning_reserve
    }

    /// The five trading figures are reported together or not at all, and a
    /// token is eligible only after a report.
    pub open spec fn trading_consistent(self) -> bool {
        &&& self.current_price is Some <==> self.market_cap is Some
        &&& self.total_volume is Some <==> self.market_cap is Some
        &&& self.holder_count is Some <==> self.market_cap is Some
        &&& self.transactions_count is Some <==> self.market_cap is Some
        &&& self.graduation_eligible ==> self.market_cap is Some
    }

    /// The graduation details are recorded exactly when the token has
    /// graduated, and only an eligible token has graduated.
    pub open spec fn graduation_consistent(self) -> bool {
        &&& self.graduated ==> self.graduation_eligible
        &&& self.graduation_date is Some <==> self.graduated
        &&& self.raydium_pool_id is Some <==> self.graduated
        &&& self.graduation_fee is Some <==> self.graduated
    }

    /// An initial purchase is recorded with both its sides: a positive
    /// payment and the tokens that it bought at the flat price.
    pub open spec fn purchase_consistent(self) -> bool {
        match self.initial_purchase_amount {
            Some(paid) => {
                &&& paid > 0
                &&& self.initial_tokens_purchased matches Some(tokens)
                &&& tokens == initial_purchase_tokens(paid)
            },
            None => self.initial_tokens_purchased is None,
        }
    }

    /// What holds of the record of every created token, whatever happened to
    /// it since.
    pub open spec fn well_formed(self) -> bool {
        &&& self.is_active
        &&& self.texts_fit()
        &&& self.supply_split()
        &&& self.trading_consistent()
        &&& self.graduation_consistent()
        &&& self.purchase_consistent()
    }
}

impl TokenData {
    /// What holds of the record of every created token, whatever happened to
    /// it since.
    pub open spec fn well_formed(&self) -> bool {
        self@.well_formed()
    }
}

/// Texts within their limits can be stored: in UTF-8 each takes no more
/// than the bytes reserved for it.
pub proof fn lemma_texts_fit_their_space(record: TokenDataView)
    requires
        record.texts_fit(),
    ensures
        utf8_len(record.name) <= MAX_NAME_BYTES,
        utf8_len(record.symbol) <= MAX_SYMBOL_BYTES,
        utf8_len(record.uri) <= MAX_URI_BYTES,
{
    lemma_utf8_len_bounds(record.name);
    lemma_utf8_len_bounds(record.symbol);
    lemma_utf8_len_bounds(record.uri);
}

impl Default for TokenData {
    /// The record of an account that was allocated and never written.
    fn default() -> (record: TokenData)
        ensures
            record@ == TokenDataView::unset(),
    {
        TokenData {
            mint: Address::zeroed(),
            creator: Address::zeroed(),
            admin: Address::zeroed(),
            name: String::new(),
            symbol: String::new(),
            uri: String::new(),
            total_supply: 0,
            bonding_curve_supply: 0,
            burning_reserve: 0,
            created_at: 0,
            updated_at: 0,
            is_active: false,
            current_price: None,
            market_cap: None,
            total_volume: None,
            holder_count: None,
            transactions_count: None,
            graduation_eligible: false,
            graduated: false,
            graduation_date: None,
            raydium_pool_id: None,
            graduation_fee: None,
            initial_purchase_amount: None,
            initial_tokens_purchased: None,
        }
    }
}

} // verus!
