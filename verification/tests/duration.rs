use axum_gatekeeper::tokens::duration::parse_expire_secs;

#[test]
fn digits_are_read_as_a_number() {
    assert_eq!(parse_expire_secs("3600"), Some(3600));
    assert_eq!(parse_expire_secs("6000"), Some(6000));
    assert_eq!(parse_expire_secs("0"), Some(0));
    assert_eq!(parse_expire_secs("7"), Some(7));
    assert_eq!(parse_expire_secs("000123"), Some(123));
}

#[test]
fn plus_sign_may_lead() {
    assert_eq!(parse_expire_secs("+3600"), Some(3600));
    assert_eq!(parse_expire_secs("+0"), Some(0));
    assert_eq!(parse_expire_secs("+"), None);
    assert_eq!(parse_expire_secs("++1"), None);
    assert_eq!(parse_expire_secs("1+"), None);
}

#[test]
fn anything_else_is_refused() {
    for bad in [
        "", " ", "-1", "-0", "12a", "a12", "1 2", " 12", "12 ", "1_000", "1.0", "1e3", "0x10",
        "\u{661}\u{662}", "12\u{e9}", "\u{ff11}",
    ] {
        assert_eq!(parse_expire_secs(bad), None);
    }
}

#[test]
fn number_must_fit() {
    let max = usize::MAX.to_string();
    let beyond = format!("{}0", max);
    let next = (usize::MAX as u128 + 1).to_string();

    assert_eq!(parse_expire_secs(&max), Some(usize::MAX));
    assert_eq!(parse_expire_secs(&format!("+000{}", max)), Some(usize::MAX));
    assert_eq!(parse_expire_secs(&next), None);
    assert_eq!(parse_expire_secs(&beyond), None);
    assert_eq!(parse_expire_secs("99999999999999999999999999"), None);
}

#[test]
fn reading_agrees_with_the_standard_parser() {
    for text in [
        "0", "1", "+1", "-1", "", "+", "18446744073709551615", "18446744073709551616", "0009",
        "12x", " 1",
    ] {
        assert_eq!(parse_expire_secs(text), text.parse::<usize>().ok());
    }
}
