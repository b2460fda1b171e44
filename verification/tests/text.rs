use ruma_api::text::{chars_of, decimal_string, parse_decimal, push_decimal, str_eq};

#[test]
fn decimal_digits_of_numbers() {
    assert_eq!(decimal_string(0), "0");
    assert_eq!(decimal_string(7), "7");
    assert_eq!(decimal_string(10), "10");
    assert_eq!(decimal_string(9007199254740991), "9007199254740991");
    assert_eq!(decimal_string(u64::MAX), "18446744073709551615");
}

#[test]
fn push_decimal_appends() {
    let mut s = String::from("limit=");
    push_decimal(&mut s, 250);
    assert_eq!(s, "limit=250");
}

#[test]
fn parse_decimal_reads_digits_only() {
    assert_eq!(parse_decimal("0"), Some(0));
    assert_eq!(parse_decimal("007"), Some(7));
    assert_eq!(parse_decimal("18446744073709551615"), Some(u64::MAX));
    assert_eq!(parse_decimal("18446744073709551616"), None);
    assert_eq!(parse_decimal("99999999999999999999999"), None);
    assert_eq!(parse_decimal(""), None);
    assert_eq!(parse_decimal("12a"), None);
    assert_eq!(parse_decimal("-1"), None);
    assert_eq!(parse_decimal("+1"), None);
    assert_eq!(parse_decimal(" 1"), None);
}

#[test]
fn decimal_round_trip_on_samples() {
    for n in [0u64, 1, 9, 10, 99, 100, 12345, 1 << 53, u64::MAX - 1, u64::MAX] {
        assert_eq!(parse_decimal(&decimal_string(n)), Some(n));
    }
}

#[test]
fn str_eq_compares_characters() {
    assert!(str_eq("", ""));
    assert!(str_eq("v1.0", "v1.0"));
    assert!(!str_eq("v1.0", "v1.1"));
    assert!(!str_eq("v1.0", "v1.0 "));
    assert!(str_eq("Été", "Été"));
    assert!(!str_eq("Été", "Ete"));
}

#[test]
fn chars_of_gives_the_characters() {
    assert_eq!(chars_of("a/é"), vec!['a', '/', 'é']);
    assert_eq!(chars_of(""), Vec::<char>::new());
}
