use opensi_core::text::{digits_only, parse_usize, usize_to_decimal};

#[test]
fn parsing_like_std() {
    for s in ["0", "7", "42", "+5", "", "+", "-1", "1 2", "00012", "18446744073709551615", "18446744073709551616", "12a"] {
        assert_eq!(parse_usize(s), s.parse::<usize>().ok(), "input {s:?}");
    }
}

#[test]
fn decimal_round_trip() {
    for n in [0usize, 9, 10, 305, usize::MAX] {
        assert_eq!(parse_usize(&usize_to_decimal(n)), Some(n));
        assert_eq!(usize_to_decimal(n), n.to_string());
    }
}

#[test]
fn keeping_digits() {
    assert_eq!(digits_only("a1b2c3"), "123");
    assert_eq!(digits_only("цена: 500₽"), "500");
    assert_eq!(digits_only(""), "");
}
