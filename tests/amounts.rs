use sheets::{normalize_price, parse_amount, Amount};

#[test]
fn normalize_price_strips_symbol_and_separators() {
    assert_eq!(normalize_price("$1,234.50"), "1234.50");
}

#[test]
fn normalize_price_is_idempotent() {
    let once = normalize_price("$12,345,678.09");
    assert_eq!(once, "12345678.09");
    assert_eq!(normalize_price(&once), once);
    assert_eq!(normalize_price("1234.50"), "1234.50");
}

#[test]
fn normalize_price_of_empty_is_empty() {
    assert_eq!(normalize_price(""), "");
    assert_eq!(normalize_price("$,$"), "");
}

#[test]
fn parse_amount_reads_decimals() {
    assert_eq!(parse_amount("1234.50"), Some(Amount { mantissa: 123450, scale: 2 }));
    assert_eq!(parse_amount("-5"), Some(Amount { mantissa: -5, scale: 0 }));
    assert_eq!(parse_amount("+7.0"), Some(Amount { mantissa: 70, scale: 1 }));
    assert_eq!(parse_amount(".5"), Some(Amount { mantissa: 5, scale: 1 }));
    assert_eq!(parse_amount("5."), Some(Amount { mantissa: 5, scale: 0 }));
}

#[test]
fn parse_amount_rejects_non_numbers() {
    assert_eq!(parse_amount(""), None);
    assert_eq!(parse_amount("-"), None);
    assert_eq!(parse_amount("."), None);
    assert_eq!(parse_amount("abc"), None);
    assert_eq!(parse_amount("1.2.3"), None);
    assert_eq!(parse_amount("12 34"), None);
    assert_eq!(parse_amount("$5"), None);
}

#[test]
fn parse_amount_digit_limit() {
    assert_eq!(
        parse_amount("999999999999999999"),
        Some(Amount { mantissa: 999_999_999_999_999_999, scale: 0 })
    );
    assert_eq!(parse_amount("1000000000000000000"), None);
    assert_eq!(
        parse_amount("-12345678.9012345678"),
        Some(Amount { mantissa: -123_456_789_012_345_678, scale: 10 })
    );
}

#[test]
fn zero_amount() {
    assert_eq!(Amount::zero(), Amount { mantissa: 0, scale: 0 });
}
