use token_factory::supply::{
    calculate_initial_purchase_tokens, purchase_in_range, BONDING_CURVE_ALLOCATION,
    BURNING_ALLOCATION, MAX_INITIAL_PURCHASE, TOKENS_PER_LAMPORT, TOTAL_SUPPLY,
};
use token_factory::text::{
    char_len, MAX_NAME_BYTES, MAX_NAME_LEN, MAX_SYMBOL_BYTES, MAX_SYMBOL_LEN, MAX_URI_BYTES,
    MAX_URI_LEN,
};

#[test]
fn allocations_make_up_the_supply() {
    assert_eq!(TOTAL_SUPPLY, 1_000_000_000_000_000_000);
    assert_eq!(BURNING_ALLOCATION, 200_000_000_000_000_000);
    assert_eq!(BONDING_CURVE_ALLOCATION, 800_000_000_000_000_000);
    assert_eq!(BONDING_CURVE_ALLOCATION + BURNING_ALLOCATION, TOTAL_SUPPLY);
    assert_eq!(BURNING_ALLOCATION * 5, TOTAL_SUPPLY);
}

#[test]
fn purchase_is_priced_flat() {
    assert_eq!(TOKENS_PER_LAMPORT, 1_000_000_000_000_000);
    assert_eq!(calculate_initial_purchase_tokens(0), 0);
    assert_eq!(calculate_initial_purchase_tokens(1), 1_000_000_000_000_000);
    assert_eq!(calculate_initial_purchase_tokens(250), 250_000_000_000_000_000);
    assert_eq!(calculate_initial_purchase_tokens(18_446), 18_446_000_000_000_000_000);
}

#[test]
fn purchase_range_ends_where_the_tokens_overflow() {
    assert_eq!(MAX_INITIAL_PURCHASE, u64::MAX / TOKENS_PER_LAMPORT);
    assert!(purchase_in_range(0));
    assert!(purchase_in_range(1));
    assert!(purchase_in_range(18_446));
    assert!(!purchase_in_range(18_447));
    assert!(!purchase_in_range(1_000_000_000));
    assert!(!purchase_in_range(u64::MAX));
    assert!(18_446u64.checked_mul(TOKENS_PER_LAMPORT).is_some());
    assert!(18_447u64.checked_mul(TOKENS_PER_LAMPORT).is_none());
}

#[test]
fn text_limits() {
    assert_eq!(MAX_NAME_LEN, 32);
    assert_eq!(MAX_SYMBOL_LEN, 10);
    assert_eq!(MAX_URI_LEN, 200);
}

#[test]
fn reserved_space_is_four_bytes_a_character() {
    assert_eq!(MAX_NAME_BYTES, 4 * MAX_NAME_LEN);
    assert_eq!(MAX_SYMBOL_BYTES, 4 * MAX_SYMBOL_LEN);
    assert_eq!(MAX_URI_BYTES, 4 * MAX_URI_LEN);
    assert_eq!("\u{10ffff}".repeat(MAX_NAME_LEN).len(), MAX_NAME_BYTES);
}

#[test]
fn texts_are_counted_in_characters() {
    assert_eq!(char_len(&String::new()), 0);
    assert_eq!(char_len(&"token".to_string()), 5);
    assert_eq!(char_len(&"\u{e9}".to_string()), 1);
    assert_eq!(char_len(&"\u{20ac}".to_string()), 1);
    assert_eq!(char_len(&"\u{1f680}".to_string()), 1);
    assert_eq!(char_len(&"a\u{e9}\u{20ac}\u{1f680}".to_string()), 4);
    assert_eq!(char_len(&"\u{e9}".repeat(20)), 20);
}
