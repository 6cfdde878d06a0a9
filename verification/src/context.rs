//! What each instruction is handed: the addresses of the accounts it names,
//! and the token's record.

use crate::address::Address;
use crate::state::{TokenData, TokenDataView};
use vstd::prelude::*;

verus! {

/// The accounts of a token's creation.
#[derive(Clone, Debug, PartialEq, Eq)]
pub struct CreateToken {
    /// The mint of the new token, with `admin` as its authority.
    pub mint: Address,
    /// The token account of `admin` for `mint`; it receives the supply.
    pub admin_token_account: Address,
    /// The token account of the burning wallet for `mint`.
    pub burning_token_account: Address,
    /// The token account of `creator` for `mint`.
    pub creator_token_account: Address,
    /// The record of the new token, allocated and not yet written.
    pub token_data: TokenData,
    /// Who creates the token and pays for it.
    pub creator: Address,
    pub admin: Address,
    /// The token program that mints and transfers.
    pub token_program: Address,
}

/// What the accounts of a creation hold.
pub struct CreateTokenView {
    pub mint: Seq<u8>,
    pub admin_token_account: Seq<u8>,
    pub burning_token_account: Seq<u8>,
    pub creator_token_account: Seq<u8>,
    pub token_data: TokenDataView,
    pub creator: Seq<u8>,
    pub admin: Seq<u8>,
    pub token_program: Seq<u8>,
}

impl View for CreateToken {
    type V = CreateTokenView;

    open spec fn view(&self) -> CreateTokenView {
        CreateTokenView {
            mint: self.mint@,
            admin_token_account: self.admin_token_account@,
            burning_token_account: self.burning_token_account@,
            creator_token_account: self.creator_token_account@,
            token_data: self.token_data@,
            creator: self.creator@,
            admin: self.admin@,
            token_program: self.token_program@,
        }
    }
}

/// The accounts of a trading update.
#[derive(Clone, Debug, PartialEq, Eq)]
pub struct UpdateTradingData {
    pub token_data: TokenData,
    /// The reporter that signed the update.
    pub trading_program: Address,
}

/// What the accounts of a trading update hold.
pub struct UpdateTradingDataView {
    pub token_data: TokenDataView,
    pub trading_program: Seq<u8>,
}

impl View for UpdateTradingData {
    type V = UpdateTradingDataView;

    open spec fn view(&self) -> UpdateTradingDataView {
        UpdateTradingDataView {
            token_data: self.token_data@,
            trading_program: self.trading_program@,
        }
    }
}

/// The accounts of a graduation.
#[derive(Clone, Debug, PartialEq, Eq)]
pub struct GraduateToken {
    pub token_data: TokenData,
    /// Who signed the graduation.
    pub admin: Address,
}

/// What the accounts of a graduation hold.
pub struct GraduateTokenView {
    pub token_data: TokenDataView,
    pub admin: Seq<u8>,
}

impl View for GraduateToken {
    type V = GraduateTokenView;

    open spec fn view(&self) -> GraduateTokenView {
        GraduateTokenView { token_data: self.token_data@, admin: self.admin@ }
    }
}

} // verus!
