//! The fixed supply split and the flat price of the optional initial purchase.

use vstd::prelude::*;

verus! {

/// The decimals of every token that the factory mints.
pub const DECIMALS: u8 = 9;

/// The base units that make up one token, at nine decimals.
pub const ONE_TOKEN: u64 = 1_000_000_000;

/// Every token is minted once, with this supply: one billion tokens.
pub const TOTAL_SUPPLY: u64 = 1_000_000_000_000_000_000;

/// The fifth of the supply that is moved to the burning wallet at creation.
pub const BURNING_ALLOCATION: u64 = 200_000_000_000_000_000;

/// The four fifths of the supply that stay with the bonding curve.
pub const BONDING_CURVE_ALLOCATION: u64 = 800_000_000_000_000_000;

/// Base units of the token handed out per lamport of an initial purchase:
/// one million tokens.
pub const TOKENS_PER_LAMPORT: u64 = 1_000_000_000_000_000;

/// The largest initial purchase, in lamports, whose tokens fit in a `u64`.
pub const MAX_INITIAL_PURCHASE: u64 = 18_446;

/// The tokens that an initial purchase of `sol_amount` lamports buys.
pub open spec fn initial_purchase_tokens(sol_amount: u64) -> int {
    sol_amount * TOKENS_PER_LAMPORT
}

/// Whether the tokens of an initial purchase of `sol_amount` lamports can be
/// counted in a `u64`.
pub fn purchase_in_range(sol_amount: u64) -> (fits: bool)
    ensures
        fits == (initial_purchase_tokens(sol_amount) <= u64::MAX),
{
    sol_amount <= MAX_INITIAL_PURCHASE
}

/// Computes the tokens bought by an initial purchase at the flat launch price.
pub fn calculate_initial_purchase_tokens(sol_amount: u64) -> (tokens: u64)
    requires
        initial_purchase_tokens(sol_amount) <= u64::MAX,
    ensures
        tokens == initial_purchase_tokens(sol_amount),
{
    sol_amount * TOKENS_PER_LAMPORT
}

/// The two allocations make up the whole supply: a fifth of it is set
/// aside for burning, the rest stays with the bonding curve.
pub proof fn lemma_supply_split()
    ensures
        BONDING_CURVE_ALLOCATION + BURNING_ALLOCATION == TOTAL_SUPPLY,
        BURNING_ALLOCATION * 5 == TOTAL_SUPPLY,
        BONDING_CURVE_ALLOCATION == 4 * BURNING_ALLOCATION,
{
}

/// The supply is a billion tokens, the flat price is a million tokens per
/// lamport, and the largest purchase is the last whose tokens fit in a `u64`.
pub proof fn lemma_whole_tokens()
    ensures
        TOTAL_SUPPLY == 1_000_000_000 * ONE_TOKEN,
        TOKENS_PER_LAMPORT == 1_000_000 * ONE_TOKEN,
        MAX_INITIAL_PURCHASE == u64::MAX / TOKENS_PER_LAMPORT,
{
}

} // verus!
