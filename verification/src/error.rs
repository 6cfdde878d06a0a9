//! The ways in which an instruction is rejected.

use vstd::prelude::*;

verus! {

/// Why the factory refused an instruction.
#[derive(Clone, Copy, Debug, PartialEq, Eq, Structural)]
pub enum TokenFactoryError {
    /// The token name has more than 32 characters.
    NameTooLong,
    /// The token symbol has more than 10 characters.
    SymbolTooLong,
    /// The metadata URI has more than 200 characters.
    UriTooLong,
    /// An initial purchase of zero lamports was asked for.
    InvalidPurchaseAmount,
    /// Graduation was asked for a token that is not yet eligible.
    NotEligibleForGraduation,
    /// Graduation was asked for a token that has already graduated.
    AlreadyGraduated,
}

} // verus!
