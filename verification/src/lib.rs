//! Verified core of a bonding-curve token factory.
//!
//! The factory keeps one record per token. A record is created together with
//! the token's mint, is refreshed with trading figures by a reporter, and is
//! marked as graduated once its market capitalisation has reached a fixed
//! threshold. This crate holds the rules of those three instructions as
//! functions on plain values; whoever hosts them reads the accounts and the
//! clock, performs the calls that `create_token` asks for, and stores the
//! record.
//!
//! Everything here is proved against its contract, with two exceptions that
//! are believed as stated: the system program's transfer instruction, which
//! `invoke` has built by `anchor_lang`, and the derivation of a record's
//! address, which `record_address` leaves to it as well.

pub mod address;
pub mod context;
pub mod error;
pub mod events;
pub mod instructions;
pub mod invoke;
pub mod lifecycle;
pub mod record_address;
pub mod state;
pub mod supply;
pub mod text;

pub use crate::address::Address;
pub use crate::context::{CreateToken, GraduateToken, UpdateTradingData};
pub use crate::error::TokenFactoryError;
pub use crate::events::{TokenCreated, TokenGraduated};
pub use crate::instructions::{create_token, graduate_token, update_trading_data, Creation};
pub use crate::state::TokenData;
