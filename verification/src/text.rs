//! Lengths of the descriptive texts. The limits count characters; stored as
//! UTF-8, a character takes up to four bytes.

use vstd::prelude::*;
use vstd::string::*;
use vstd::utf8::*;

verus! {

/// The most characters that a token name may have.
pub const MAX_NAME_LEN: usize = 32;

/// The most characters that a token symbol may have.
pub const MAX_SYMBOL_LEN: usize = 10;

/// The most characters that a metadata URI may have.
pub const MAX_URI_LEN: usize = 200;

/// The bytes to reserve for a token name, so that every name within the
/// limit can be stored.
pub const MAX_NAME_BYTES: usize = 128;

/// The bytes to reserve for a token symbol.
pub const MAX_SYMBOL_BYTES: usize = 40;

/// The bytes to reserve for a metadata URI.
pub const MAX_URI_BYTES: usize = 800;

/// Returns the number of characters of `text`.
pub fn char_len(text: &String) -> (len: usize)
    ensures
        len == text@.len(),
{
    text.as_str().unicode_len()
}

/// The number of bytes that `text` takes in UTF-8.
pub open spec fn utf8_len(text: Seq<char>) -> nat {
    encode_utf8(text).len()
}

/// A text takes at least one byte and at most four bytes per character.
pub proof fn lemma_utf8_len_bounds(text: Seq<char>)
    ensures
        text.len() <= utf8_len(text) <= 4 * text.len(),
    decreases text.len(),
{
    if text.len() > 0 {
        lemma_utf8_len_bounds(text.drop_first());
    }
}

/// The space reserved for each text is four bytes for each character of its
/// limit.
pub proof fn lemma_reserved_bytes()
    ensures
        MAX_NAME_BYTES == 4 * MAX_NAME_LEN,
        MAX_SYMBOL_BYTES == 4 * MAX_SYMBOL_LEN,
        MAX_URI_BYTES == 4 * MAX_URI_LEN,
{
}

} // verus!
