use checkout_client::Amount;
use checkout_client::ConversionError;
use checkout_client::Currency;
use checkout_client::Decimal;

fn dec(negative: bool, mantissa: u64, scale: u32) -> Decimal {
    Decimal { negative, mantissa, scale }
}

#[test]
fn encode_zero_decimal_currency() {
    // 100 Japanese Yen encode as the integer 100 directly.
    assert_eq!(Amount::from(Currency::JPY, dec(false, 100, 0)), Ok(Amount(100)));
}

#[test]
fn encode_three_decimal_currency() {
    // 1.000 Bahraini-class dinars encode as 1000 minor units.
    assert_eq!(Amount::from(Currency::KWD, dec(false, 1000, 3)), Ok(Amount(1000)));
}

#[test]
fn encode_two_decimal_currency() {
    // 1.00 US dollars encode as 100 cents.
    assert_eq!(Amount::from(Currency::USD, dec(false, 100, 2)), Ok(Amount(100)));
}

#[test]
fn encode_scales_up_when_value_is_coarser() {
    // 20 US dollars written without cents still encode as 2000 cents.
    assert_eq!(Amount::from(Currency::USD, dec(false, 20, 0)), Ok(Amount(2000)));
    // 1.5 dinars encode as 1500 thousandths.
    assert_eq!(Amount::from(Currency::KWD, dec(false, 15, 1)), Ok(Amount(1500)));
}

#[test]
fn encode_rejects_negative_values() {
    // -0.01 USD is out of range for a non-negative amount.
    assert_eq!(
        Amount::from(Currency::USD, dec(true, 1, 2)),
        Err(ConversionError::Overflow)
    );
}

#[test]
fn encode_rejects_values_that_do_not_fit() {
    // Scaling the largest mantissa by 100 exceeds the integer width.
    assert_eq!(
        Amount::from(Currency::USD, dec(false, u64::MAX, 0)),
        Err(ConversionError::Overflow)
    );
}

#[test]
fn encode_rejects_fractional_minor_units() {
    // 10.05 yen is not a whole number of yen.
    assert_eq!(
        Amount::from(Currency::JPY, dec(false, 1005, 2)),
        Err(ConversionError::Precision)
    );
    // 1.005 dollars is not a whole number of cents.
    assert_eq!(
        Amount::from(Currency::USD, dec(false, 1005, 3)),
        Err(ConversionError::Precision)
    );
}

#[test]
fn encode_accepts_negative_zero() {
    // A zero value carries no sign: it encodes as zero.
    assert_eq!(Amount::from(Currency::USD, dec(true, 0, 2)), Ok(Amount(0)));
}

#[test]
fn encode_handles_extreme_scales() {
    // A zero mantissa is exact at any scale.
    assert_eq!(Amount::from(Currency::USD, dec(false, 0, 100)), Ok(Amount(0)));
    // A non-zero mantissa behind twenty-five fractional digits is not.
    assert_eq!(
        Amount::from(Currency::USD, dec(false, 5, 25)),
        Err(ConversionError::Precision)
    );
}

#[test]
fn decode_uses_the_currency_exponent() {
    assert_eq!(Amount(100).into(Currency::JPY), dec(false, 100, 0));
    assert_eq!(Amount(1000).into(Currency::KWD), dec(false, 1000, 3));
    assert_eq!(Amount(100).into(Currency::USD), dec(false, 100, 2));
}

#[test]
fn round_trip_examples() {
    // decode(encode(v)) == v for values in the currency's own scale.
    let cases = [
        (Currency::JPY, dec(false, 250, 0)),
        (Currency::KWD, dec(false, 1234, 3)),
        (Currency::USD, dec(false, 999, 2)),
        (Currency::EUR, dec(false, 0, 2)),
    ];
    for (currency, value) in cases {
        let encoded = Amount::from(currency, value).unwrap();
        assert_eq!(encoded.into(currency), value);
    }
}

#[test]
fn decode_then_encode_recovers_the_amount() {
    let cases = [
        (Currency::JPY, Amount(7)),
        (Currency::KWD, Amount(u64::MAX)),
        (Currency::USD, Amount(2000)),
    ];
    for (currency, amount) in cases {
        let decoded = amount.into(currency);
        assert_eq!(Amount::from(currency, decoded), Ok(amount));
    }
}
