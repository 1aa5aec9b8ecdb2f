use minihttp::ascii::{bytes_eq, bytes_starts_with, dec_bytes, lower_bytes, parse_dec_or_zero};

#[test]
fn lower_bytes_folds_ascii_only() {
    assert_eq!(lower_bytes(b"AbC-Xyz"), b"abc-xyz".to_vec());
    assert_eq!(lower_bytes(b"already lower 123"), b"already lower 123".to_vec());
    assert_eq!(lower_bytes(b""), b"".to_vec());
}

#[test]
fn bytes_eq_compares_exactly() {
    assert!(bytes_eq(b"abc", b"abc"));
    assert!(!bytes_eq(b"abc", b"abd"));
    assert!(!bytes_eq(b"abc", b"ab"));
    assert!(bytes_eq(b"", b""));
}

#[test]
fn bytes_starts_with_checks_prefixes() {
    assert!(bytes_starts_with(b"/files/a.txt", b"/files/"));
    assert!(bytes_starts_with(b"/files/", b"/files/"));
    assert!(!bytes_starts_with(b"/file", b"/files/"));
    assert!(bytes_starts_with(b"anything", b""));
}

#[test]
fn dec_bytes_renders_decimal() {
    assert_eq!(dec_bytes(0), b"0".to_vec());
    assert_eq!(dec_bytes(7), b"7".to_vec());
    assert_eq!(dec_bytes(10), b"10".to_vec());
    assert_eq!(dec_bytes(409), b"409".to_vec());
    assert_eq!(dec_bytes(123456789), b"123456789".to_vec());
}

#[test]
fn parse_dec_or_zero_reads_digit_strings() {
    assert_eq!(parse_dec_or_zero(b"0"), 0);
    assert_eq!(parse_dec_or_zero(b"42"), 42);
    assert_eq!(parse_dec_or_zero(b"0012"), 12);
    assert_eq!(parse_dec_or_zero(b"18446744073709551615"), usize::MAX);
}

#[test]
fn parse_dec_or_zero_rejects_everything_else() {
    assert_eq!(parse_dec_or_zero(b""), 0);
    assert_eq!(parse_dec_or_zero(b"-1"), 0);
    assert_eq!(parse_dec_or_zero(b"+1"), 0);
    assert_eq!(parse_dec_or_zero(b"1 2"), 0);
    assert_eq!(parse_dec_or_zero(b"12a"), 0);
    assert_eq!(parse_dec_or_zero(b"18446744073709551616"), 0);
    assert_eq!(parse_dec_or_zero(b"99999999999999999999999999"), 0);
}
