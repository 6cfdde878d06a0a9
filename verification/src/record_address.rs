//! Where a token's record is kept: at an address derived from the token's
//! mint, so that a mint has one record and no more.

use crate::address::Address;
use anchor_lang::solana_program::pubkey::Pubkey;
use vstd::prelude::*;

verus! {

/// The text `token_data`, the first seed of every record address.
pub const TOKEN_DATA_SEED: [u8; 10] = [116, 111, 107, 101, 110, 95, 100, 97, 116, 97];

/// The seeds of the record address of the token minted by `mint`.
pub open spec fn token_data_seeds(mint: Seq<u8>) -> Seq<Seq<u8>> {
    seq![TOKEN_DATA_SEED@, mint]
}

/// The address that `seeds` derive for the program `program_id`, with the
/// bump seed that completes them; `None` where no bump seed gives one.
pub uninterp spec fn program_address(seeds: Seq<Seq<u8>>, program_id: Seq<u8>) -> Option<
    (Seq<u8>, u8),
>;

/// The view of a derived address and its bump seed.
pub open spec fn address_and_bump(found: Option<(Address, u8)>) -> Option<(Seq<u8>, u8)> {
    match found {
        Some((address, bump)) => Some((address@, bump)),
        None => None,
    }
}

/// The record address of the token minted by `mint`, as the factory
/// deployed at `program_id` derives it.
pub open spec fn token_data_address(program_id: Seq<u8>, mint: Seq<u8>) -> Option<(Seq<u8>, u8)> {
    program_address(token_data_seeds(mint), program_id)
}

/// Derives an address for `program_id` from the two seeds `first` and
/// `second`, by `Pubkey::try_find_program_address` of
/// `anchor_lang::solana_program`.
///
/// Trusted: that the result depends on the seeds and the program alone. It
/// is [`program_address`] of them; nothing else is claimed of it.
#[verifier::external_body]
pub(crate) fn find_program_address(first: &[u8], second: &[u8], program_id: &Address) -> (found:
    Option<(Address, u8)>)
    ensures
        address_and_bump(found) == program_address(seq![first@, second@], program_id@),
{
    let program_id = Pubkey::from(program_id.bytes);
    match Pubkey::try_find_program_address(&[first, second], &program_id) {
        Some((address, bump)) => Some((Address { bytes: address.to_bytes() }, bump)),
        None => None,
    }
}

/// Whether `account` is the address that was derived.
pub fn is_derived_address(found: Option<(Address, u8)>, account: &Address) -> (same: bool)
    ensures
        same == (address_and_bump(found) matches Some((address, _)) && address == account@),
{
    match found {
        Some((address, _)) => address == *account,
        None => false,
    }
}

/// Derives the address of the record of the token minted by `mint`, and the
/// bump seed that belongs to it.
pub fn find_token_data_address(program_id: &Address, mint: &Address) -> (found: Option<
    (Address, u8),
>)
    ensures
        address_and_bump(found) == token_data_address(program_id@, mint@),
{
    find_program_address(TOKEN_DATA_SEED.as_slice(), mint.bytes.as_slice(), program_id)
}

/// Whether `account` is where the record of the token minted by `mint` is
/// kept.
pub fn is_token_data_address(program_id: &Address, mint: &Address, account: &Address) -> (same:
    bool)
    ensures
        same == (token_data_address(program_id@, mint@) matches Some((address, _)) && address
            == account@),
{
    is_derived_address(find_token_data_address(program_id, mint), account)
}

/// The seeds name the mint: two mints never share their seeds.
pub proof fn lemma_seeds_name_the_mint(mint: Seq<u8>, other: Seq<u8>)
    ensures
        token_data_seeds(mint) == token_data_seeds(other) <==> mint == other,
        token_data_seeds(mint).len() == 2,
        token_data_seeds(mint)[0].len() == 10,
{
    broadcast use vstd::array::group_array_axioms;

    if token_data_seeds(mint) == token_data_seeds(other) {
        assert(token_data_seeds(mint)[1] == token_data_seeds(other)[1]);
    }
}

} // verus!
