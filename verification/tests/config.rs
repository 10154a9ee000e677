use mumble_ping::config::parse_port;

#[test]
fn accepts_plain_decimal_ports() {
    assert_eq!(parse_port("64738"), Some(64738));
    assert_eq!(parse_port("0"), Some(0));
    assert_eq!(parse_port("1"), Some(1));
    assert_eq!(parse_port("65535"), Some(65535));
    assert_eq!(parse_port("080"), Some(80));
    assert_eq!(parse_port("000065535"), Some(65535));
}

#[test]
fn accepts_a_single_leading_plus_sign() {
    assert_eq!(parse_port("+80"), Some(80));
    assert_eq!(parse_port("+0"), Some(0));
    assert_eq!(parse_port("+65535"), Some(65535));
    assert_eq!(parse_port("+65536"), None);
    assert_eq!(parse_port("+"), None);
    assert_eq!(parse_port("++80"), None);
    assert_eq!(parse_port("80+"), None);
}

#[test]
fn rejects_out_of_range_values() {
    assert_eq!(parse_port("65536"), None);
    assert_eq!(parse_port("99999"), None);
    assert_eq!(parse_port("99999999999999999999999999"), None);
}

#[test]
fn rejects_non_digit_strings() {
    assert_eq!(parse_port(""), None);
    assert_eq!(parse_port("abc"), None);
    assert_eq!(parse_port("64 738"), None);
    assert_eq!(parse_port("-1"), None);
    assert_eq!(parse_port("80x"), None);
    assert_eq!(parse_port("\u{0660}"), None); // a non-ASCII digit
}
