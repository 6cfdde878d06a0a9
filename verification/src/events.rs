//! The notifications that the factory gives out.

use crate::address::Address;
use vstd::prelude::*;

verus! {

/// Given out when a token has been created.
#[derive(Clone, Debug, PartialEq, Eq)]
pub struct TokenCreated {
    pub mint: Address,
    pub creator: Address,
    pub name: String,
    pub symbol: String,
    pub total_supply: u64,
    /// Lamports paid for the initial purchase, if one was asked for.
    pub initial_purchase: Option<u64>,
}

/// What a creation notice holds.
pub struct TokenCreatedView {
    pub mint: Seq<u8>,
    pub creator: Seq<u8>,
    pub name: Seq<char>,
    pub symbol: Seq<char>,
    pub total_supply: u64,
    pub initial_purchase: Option<u64>,
}

impl View for TokenCreated {
    type V = TokenCreatedView;

    open spec fn view(&self) -> TokenCreatedView {
        TokenCreatedView {
            mint: self.mint@,
            creator: self.creator@,
            name: self.name@,
            symbol: self.symbol@,
            total_supply: self.total_supply,
            initial_purchase: self.initial_purchase,
        }
    }
}

/// Given out when a token has graduated.
#[derive(Clone, Copy, Debug, PartialEq, Eq)]
pub struct TokenGraduated {
    pub mint: Address,
    pub raydium_pool_id: Address,
    pub graduation_fee: u64,
    /// The market capitalisation last reported, or zero if none ever was.
    pub market_cap: u64,
}

/// What a graduation notice holds.
pub struct TokenGraduatedView {
    pub mint: Seq<u8>,
    pub raydium_pool_id: Seq<u8>,
    pub graduation_fee: u64,
    pub market_cap: u64,
}

impl View for TokenGraduated {
    type V = TokenGraduatedView;

    open spec fn view(&self) -> TokenGraduatedView {
        TokenGraduatedView {
            mint: self.mint@,
            raydium_pool_id: self.raydium_pool_id@,
            graduation_fee: self.graduation_fee,
            market_cap: self.market_cap,
        }
    }
}

} // verus!
