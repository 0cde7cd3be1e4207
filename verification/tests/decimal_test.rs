use gate_arb::decimal::{
    append_signed, append_signed_places, decimal_text, parse_u16, parse_u64, parse_usize,
    price_text, try_parse_price,
};
use gate_arb::text::{chars_of, same_text};

#[test]
fn numbers_are_written_and_read_back() {
    for n in [0u64, 1, 9, 10, 99, 100, 1_234_567_890, u64::MAX] {
        let text = decimal_text(n);
        assert_eq!(text, n.to_string());
        assert_eq!(parse_u64(&text), Some(n));
    }
}

#[test]
fn prices_are_written_and_read_back() {
    assert_eq!(price_text(5_000_012_345_678), "50000.12345678");
    assert_eq!(price_text(1), "0.00000001");
    for raw in [0u64, 1, 99_999_999, 100_000_000, 5_000_000_000_000, u64::MAX] {
        assert_eq!(try_parse_price(&price_text(raw)).unwrap().raw(), raw);
    }
}

#[test]
fn texts_that_are_no_numbers_are_refused() {
    for s in ["", "+", "-1", " 1", "1 ", "1.0", "٣", "18446744073709551616", "0x1"] {
        assert_eq!(parse_u64(s), None, "{}", s);
    }
    assert_eq!(parse_u64("+00007"), Some(7));
    assert_eq!(parse_u16("65535"), Some(65535));
    assert_eq!(parse_u16("65536"), None);
    assert_eq!(parse_usize("12"), Some(12));
}

#[test]
fn signed_numbers_are_written() {
    let mut out = String::from("x=");
    append_signed(&mut out, i64::MIN);
    assert_eq!(out, "x=-9223372036854775808");
    let mut out = String::new();
    append_signed(&mut out, 5);
    append_signed_places(&mut out, -50_000_001);
    append_signed_places(&mut out, 200_000_000);
    assert_eq!(out, "5-0.500000012.00000000");
}

#[test]
fn texts_are_compared_by_their_characters() {
    assert!(same_text("é", "é"));
    assert!(!same_text("e\u{301}", "é"));
    assert!(!same_text("ab", "abc"));
    assert_eq!(chars_of("aé"), vec!['a', 'é']);
}
