use discounts::{parse_decimal, resolve, times_100, Decimal, EvalError};

#[test]
fn resolve_takes_trailing_numeric_segment() {
    assert_eq!(resolve("gid://shopify/ProductVariant/123"), Ok(123));
    assert_eq!(resolve("gid://shopify/ProductVariant/0"), Ok(0));
    assert_eq!(resolve("a/b/42"), Ok(42));
}

#[test]
fn resolve_accepts_bare_number() {
    assert_eq!(resolve("123"), Ok(123));
}

#[test]
fn resolve_rejects_missing_segment() {
    assert_eq!(resolve("gid://shopify/ProductVariant/"), Err(EvalError::MalformedIdentifier));
    assert_eq!(resolve(""), Err(EvalError::MalformedIdentifier));
}

#[test]
fn resolve_rejects_non_numeric_segment() {
    assert_eq!(resolve("gid://shopify/ProductVariant/abc"), Err(EvalError::MalformedIdentifier));
    assert_eq!(resolve("gid://shopify/ProductVariant/12a"), Err(EvalError::MalformedIdentifier));
    assert_eq!(resolve("gid://shopify/ProductVariant/-5"), Err(EvalError::MalformedIdentifier));
}

#[test]
fn resolve_rejects_oversized_segment() {
    assert_eq!(resolve("a/99999999999999999999999"), Err(EvalError::MalformedIdentifier));
    assert_eq!(resolve("a/18446744073709551615"), Ok(u64::MAX));
}

#[test]
fn parse_decimal_reads_whole_numbers() {
    assert_eq!(parse_decimal("300"), Ok(Decimal { neg: false, mant: 300, scale: 0 }));
    assert_eq!(parse_decimal("0"), Ok(Decimal { neg: false, mant: 0, scale: 0 }));
}

#[test]
fn parse_decimal_reads_fractions_canonically() {
    assert_eq!(parse_decimal("10.5"), Ok(Decimal { neg: false, mant: 105, scale: 1 }));
    assert_eq!(parse_decimal("10.50"), Ok(Decimal { neg: false, mant: 105, scale: 1 }));
    assert_eq!(parse_decimal("10.0"), Ok(Decimal { neg: false, mant: 10, scale: 0 }));
    assert_eq!(parse_decimal("-3.25"), Ok(Decimal { neg: true, mant: 325, scale: 2 }));
    assert_eq!(parse_decimal("0.00"), Ok(Decimal { neg: false, mant: 0, scale: 0 }));
}

#[test]
fn parse_decimal_rejects_non_numbers() {
    assert_eq!(parse_decimal("abc"), Err(EvalError::InvalidConfiguration));
    assert_eq!(parse_decimal(""), Err(EvalError::InvalidConfiguration));
    assert_eq!(parse_decimal("5."), Err(EvalError::InvalidConfiguration));
    assert_eq!(parse_decimal(".5"), Err(EvalError::InvalidConfiguration));
    assert_eq!(parse_decimal("1.2.3"), Err(EvalError::InvalidConfiguration));
    assert_eq!(parse_decimal("1e3"), Err(EvalError::InvalidConfiguration));
}

#[test]
fn times_100_shifts_the_fraction() {
    assert_eq!(
        times_100(&Decimal { neg: false, mant: 300, scale: 0 }),
        Some(Decimal { neg: false, mant: 30000, scale: 0 })
    );
    assert_eq!(
        times_100(&Decimal { neg: false, mant: 5, scale: 1 }),
        Some(Decimal { neg: false, mant: 50, scale: 0 })
    );
    assert_eq!(
        times_100(&Decimal { neg: false, mant: 12345, scale: 4 }),
        Some(Decimal { neg: false, mant: 12345, scale: 2 })
    );
    assert_eq!(times_100(&Decimal { neg: false, mant: u64::MAX, scale: 0 }), None);
}
