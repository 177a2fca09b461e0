use bank_ledger::text::render_signed;
use bank_ledger::text::render_unsigned;

#[test]
fn unsigned_text_has_no_leading_zeros() {
    assert_eq!(render_unsigned(0, 0), "0");
    assert_eq!(render_unsigned(7, 0), "7");
    assert_eq!(render_unsigned(10, 0), "10");
    assert_eq!(render_unsigned(1009, 0), "1009");
    assert_eq!(render_unsigned(1234567890, 0), "1234567890");
}

#[test]
fn unsigned_text_is_padded_on_the_left() {
    assert_eq!(render_unsigned(100, 9), "      100");
    assert_eq!(render_unsigned(100, 3), "100");
    assert_eq!(render_unsigned(100, 2), "100");
    assert_eq!(render_unsigned(100, 4), " 100");
}

#[test]
fn signed_text_counts_the_minus_sign() {
    assert_eq!(render_signed(-1, 0), "-1");
    assert_eq!(render_signed(-1, 2), "-1");
    assert_eq!(render_signed(-1, 3), " -1");
    assert_eq!(render_signed(1, 3), "  1");
    assert_eq!(render_signed(-5000, 7), "  -5000");
}
