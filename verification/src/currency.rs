//! Currencies, minor-unit amounts, and the conversion between a decimal
//! face value and the scaled integer that the wire protocol carries.
//!
//! Every currency falls in one of three exponent classes: the scaled
//! integer equals the face value times 10^0, 10^2 or 10^3.

use vstd::prelude::*;
use vstd::arithmetic::div_mod::lemma_fundamental_div_mod;
use vstd::arithmetic::div_mod::lemma_fundamental_div_mod_converse_div;
use vstd::arithmetic::div_mod::lemma_fundamental_div_mod_converse_mod;
use vstd::arithmetic::div_mod::lemma_small_mod;
use vstd::arithmetic::mul::lemma_mul_is_associative;
use vstd::arithmetic::mul::lemma_mul_is_distributive_add_other_way;
use vstd::arithmetic::mul::lemma_mul_inequality;
use vstd::arithmetic::mul::lemma_mul_strict_inequality;

verus! {

/// The monetary value that is scaled to an integer based on its currency.
#[derive(Copy, Clone, Debug, PartialEq, Eq, Structural)]
pub struct Amount(pub u64);

/// A non-negative or negative decimal number with an explicit scale:
/// the value denoted is `mantissa / 10^scale`, negated when `negative`
/// is set.
#[derive(Copy, Clone, Debug, PartialEq, Eq, Structural)]
pub struct Decimal {
    /// Whether the denoted value is the negation of `mantissa / 10^scale`.
    pub negative: bool,
    /// The digits of the value, as an integer.
    pub mantissa: u64,
    /// How many of the mantissa's low digits lie behind the decimal point.
    pub scale: u32,
}

/// Why a decimal value could not be converted into a minor-unit amount.
#[derive(Copy, Clone, Debug, PartialEq, Eq, Structural)]
pub enum ConversionError {
    /// The scaled value is negative or exceeds the representable range.
    Overflow,
    /// The scaled value is not an integer: the decimal value carries more
    /// precision than the currency's minor unit can hold.
    Precision,
}

/// These are the major currencies supported
#[allow(missing_docs)]
#[derive(Copy, Clone, Debug, PartialEq, Eq, Structural)]
pub enum Currency {
    AED,
    AFN,
    ALL,
    AMD,
    ANG,
    AOA,
    ARS,
    AUD,
    AWG,
    AZN,
    BAM,
    BBD,
    BDT,
    BGN,
    BHD,
    BIF,
    BMD,
    BND,
    BOB,
    BRL,
    BSD,
    BTN,
    BWP,
    BYN,
    BZD,
    CAD,
    CDF,
    CHF,
    CLF,
    CLP,
    CNY,
    COP,
    CRC,
    CVE,
    CZK,
    DJF,
    DKK,
    DOP,
    DZD,
    EEK,
    EGP,
    ERN,
    ETB,
    EUR,
    FJD,
    FKP,
    GBP,
    GEL,
    GHS,
    GIP,
    GMD,
    GNF,
    GTQ,
    GYD,
    HKD,
    HNL,
    HRK,
    HTG,
    HUF,
    IDR,
    ILS,
    INR,
    IQD,
    IRR,
    ISK,
    JMD,
    JOD,
    JPY,
    KES,
    KGS,
    KHR,
    KMF,
    KPW,
    KRW,
    KWD,
    KYD,
    KZT,
    LAK,
    LBP,
    LKR,
    LRD,
    LSL,
    LTL,
    LVL,
    LYD,
    MAD,
    MDL,
    MGA,
    MKD,
    MMK,
    MNT,
    MOP,
    MRO,
    MUR,
    MVR,
    MWK,
    MXN,
    MYR,
    MZN,
    NAD,
    NGN,
    NIO,
    NOK,
    NPR,
    NZD,
    OMR,
    PAB,
    PEN,
    PGK,
    PHP,
    PKR,
    PLN,
    PYG,
    QAR,
    RON,
    RSD,
    RUB,
    RWF,
    SAR,
    SBD,
    SCR,
    SDG,
    SEK,
    SGD,
    SHP,
    SLL,
    SOS,
    SRD,
    STD,
    SVC,
    SYP,
    SZL,
    THB,
    TJS,
    TMT,
    TND,
    TOP,
    TRY,
    TTD,
    TWD,
    TZS,
    UAH,
    UGX,
    USD,
    UYU,
    UZS,
    VES,
    VND,
    VUV,
    WST,
    XAF,
    XCD,
    XOF,
    XPF,
    YER,
    ZAR,
    ZMW,
    ZWL,
}

/// 10 raised to the power `n`.
pub open spec fn pow10(n: nat) -> nat
    decreases n,
{
    if n == 0 {
        1
    } else {
        10 * pow10((n - 1) as nat)
    }
}

impl Currency {
    /// Whether the scaled integer equals the face value directly
    /// (a zero-decimal currency).
    pub open spec fn is_zero_decimal(self) -> bool {
        match self {
            Currency::BIF
            | Currency::CLF
            | Currency::DJF
            | Currency::GNF
            | Currency::ISK
            | Currency::JPY
            | Currency::KMF
            | Currency::KRW
            | Currency::PYG
            | Currency::RWF
            | Currency::UGX
            | Currency::VND
            | Currency::VUV
            | Currency::XAF
            | Currency::XOF
            | Currency::XPF => true,
            _ => false,
        }
    }

    /// Whether the scaled integer equals the face value times 1000
    /// (a three-decimal currency).
    pub open spec fn is_three_decimal(self) -> bool {
        match self {
            Currency::BHD
            | Currency::IQD
            | Currency::JOD
            | Currency::KWD
            | Currency::LYD
            | Currency::OMR
            | Currency::TND => true,
            _ => false,
        }
    }

    /// The power of ten that scales this currency's face value to its
    /// minor-unit integer: 0, 3, or 2.
    pub open spec fn exponent_spec(self) -> u32 {
        if self.is_zero_decimal() {
            0
        } else if self.is_three_decimal() {
            3
        } else {
            2
        }
    }

    /// Returns the currency's minor-unit exponent.
    pub fn exponent(self) -> (e: u32)
        ensures
            e == self.exponent_spec(),
    {
        match self {
            Currency::BIF
            | Currency::CLF
            | Currency::DJF
            | Currency::GNF
            | Currency::ISK
            | Currency::JPY
            | Currency::KMF
            | Currency::KRW
            | Currency::PYG
            | Currency::RWF
            | Currency::UGX
            | Currency::VND
            | Currency::VUV
            | Currency::XAF
            | Currency::XOF
            | Currency::XPF => 0,
            Currency::BHD
            | Currency::IQD
            | Currency::JOD
            | Currency::KWD
            | Currency::LYD
            | Currency::OMR
            | Currency::TND => 3,
            _ => 2,
        }
    }
}

/// The numerator of the scaled value: mantissa times the currency's
/// scaling power of ten. The denoted scaled value is this divided by
/// `pow10(d.scale)`.
pub open spec fn scaled_numerator(c: Currency, d: Decimal) -> nat {
    (d.mantissa as nat) * pow10(c.exponent_spec() as nat)
}

/// What encoding a decimal value into a currency's minor unit returns:
/// the exactly scaled integer, or the error that rules it out.
pub open spec fn encode_spec(c: Currency, d: Decimal) -> Result<Amount, ConversionError> {
    let num = scaled_numerator(c, d);
    let den = pow10(d.scale as nat);
    if d.negative && d.mantissa > 0 {
        Err(ConversionError::Overflow)
    } else if num % den != 0 {
        Err(ConversionError::Precision)
    } else if num / den > u64::MAX {
        Err(ConversionError::Overflow)
    } else {
        Ok(Amount((num / den) as u64))
    }
}

/// What decoding a minor-unit amount returns: the exact decimal whose
/// scale is the currency's exponent.
pub open spec fn decode_spec(c: Currency, a: Amount) -> Decimal {
    Decimal { negative: false, mantissa: a.0, scale: c.exponent_spec() }
}

proof fn lemma_pow10_pos(n: nat)
    ensures
        pow10(n) >= 1,
    decreases n,
{
    if n > 0 {
        lemma_pow10_pos((n - 1) as nat);
    }
}

proof fn lemma_pow10_adds(a: nat, b: nat)
    ensures
        pow10(a + b) == pow10(a) * pow10(b),
    decreases a,
{
    if a == 0 {
        assert(pow10(a + b) == pow10(b));
        assert(pow10(a) == 1);
        assert(pow10(a + b) == pow10(a) * pow10(b));
    } else {
        lemma_pow10_adds((a - 1) as nat, b);
        assert(pow10(a + b) == 10 * pow10((a + b - 1) as nat));
        assert(pow10((a + b - 1) as nat) == pow10((a - 1) as nat) * pow10(b));
        lemma_mul_is_associative(10, pow10((a - 1) as nat) as int, pow10(b) as int);
        assert(10 * (pow10((a - 1) as nat) * pow10(b)) == (10 * pow10((a - 1) as nat)) * pow10(b));
        assert(pow10(a) == 10 * pow10((a - 1) as nat));
    }
}

proof fn lemma_pow10_increases(a: nat, b: nat)
    requires
        a <= b,
    ensures
        pow10(a) <= pow10(b),
{
    lemma_pow10_adds(a, (b - a) as nat);
    lemma_pow10_pos((b - a) as nat);
    lemma_pow10_pos(a);
    lemma_mul_inequality(1, pow10((b - a) as nat) as int, pow10(a) as int);
}

proof fn lemma_pow10_vals()
    ensures
        pow10(19) == 10000000000000000000,
        pow10(20) == 100000000000000000000,
{
    reveal_with_fuel(pow10, 21);
}

/// Multiplying by a multiple of the divisor divides exactly.
proof fn lemma_mul_of_divisor(m: nat, f: nat, den: nat)
    requires
        den >= 1,
    ensures
        (m * (f * den)) % den == 0,
        (m * (f * den)) / den == m * f,
{
    lemma_mul_is_associative(m as int, f as int, den as int);
    assert(m * (f * den) == (m * f) * den + 0);
    lemma_fundamental_div_mod_converse_mod((m * (f * den)) as int, den as int, (m * f) as int, 0);
    lemma_fundamental_div_mod_converse_div((m * (f * den)) as int, den as int, (m * f) as int, 0);
}

/// Dividing `m * e10` by `k10 * e10` is dividing `m` by `k10`; the
/// remainder scales by `e10`.
proof fn lemma_scaled_div_mod(m: nat, k10: nat, e10: nat)
    requires
        k10 >= 1,
        e10 >= 1,
    ensures
        (m * e10) % (k10 * e10) == (m % k10) * e10,
        (m * e10) / (k10 * e10) == m / k10,
{
    let q = m / k10;
    let r = m % k10;
    lemma_fundamental_div_mod(m as int, k10 as int);
    assert(m == q * k10 + r);
    assert((q * k10 + r) * e10 == (q * k10) * e10 + r * e10) by {
        lemma_mul_is_distributive_add_other_way(e10 as int, (q * k10) as int, r as int);
    }
    assert((q * k10) * e10 == q * (k10 * e10)) by {
        lemma_mul_is_associative(q as int, k10 as int, e10 as int);
    }
    assert(m * e10 == q * (k10 * e10) + r * e10);
    assert(r * e10 < k10 * e10) by {
        lemma_mul_strict_inequality(r as int, k10 as int, e10 as int);
    }
    lemma_fundamental_div_mod_converse_mod(
        (m * e10) as int,
        (k10 * e10) as int,
        q as int,
        (r * e10) as int,
    );
    lemma_fundamental_div_mod_converse_div(
        (m * e10) as int,
        (k10 * e10) as int,
        q as int,
        (r * e10) as int,
    );
}

/// Returns 10 raised to the power `k`, for exponents that fit in a `u64`.
fn pow10_u64(k: u32) -> (r: u64)
    requires
        k <= 19,
    ensures
        r == pow10(k as nat),
{
    let mut r: u64 = 1;
    let mut i: u32 = 0;
    while i < k
        invariant
            i <= k,
            k <= 19,
            r == pow10(i as nat),
        decreases k - i,
    {
        proof {
            lemma_pow10_increases((i + 1) as nat, 19);
            lemma_pow10_vals();
            assert(pow10((i + 1) as nat) == 10 * pow10(i as nat));
        }
        r = r * 10;
        i = i + 1;
    }
    r
}

impl Amount {
    /// Creates the amount from the decimal value and currency. The currency
    /// is required since the value is encoded as a scaled integer, which is
    /// different depending on the currency.
    ///
    /// Fails with `Overflow` when the value is negative or its scaled
    /// integer does not fit, and with `Precision` when the value carries
    /// more fractional digits than the currency's minor unit holds.
    pub fn from(currency: Currency, amount: Decimal) -> (r: Result<Amount, ConversionError>)
        ensures
            r == encode_spec(currency, amount),
    {
        let e: u32 = currency.exponent();
        if amount.negative && amount.mantissa > 0 {
            return Err(ConversionError::Overflow);
        }
        let m: u64 = amount.mantissa;
        let s: u32 = amount.scale;
        proof {
            lemma_pow10_pos(s as nat);
            lemma_pow10_pos(e as nat);
        }
        if s <= e {
            let f: u64 = pow10_u64(e - s);
            proof {
                lemma_pow10_adds((e - s) as nat, s as nat);
                lemma_mul_of_divisor(m as nat, pow10((e - s) as nat), pow10(s as nat));
            }
            match m.checked_mul(f) {
                Some(v) => Ok(Amount(v)),
                None => Err(ConversionError::Overflow),
            }
        } else {
            let k: u32 = s - e;
            proof {
                lemma_pow10_adds(k as nat, e as nat);
                lemma_pow10_pos(k as nat);
                lemma_scaled_div_mod(m as nat, pow10(k as nat), pow10(e as nat));
            }
            if k >= 20 {
                proof {
                    lemma_pow10_vals();
                    lemma_pow10_increases(20, k as nat);
                    lemma_small_mod(m as nat, pow10(k as nat));
                    if m > 0 {
                        lemma_mul_strict_inequality(0, m as int, pow10(e as nat) as int);
                    }
                }
                if m == 0 {
                    Ok(Amount(0))
                } else {
                    Err(ConversionError::Precision)
                }
            } else {
                let dv: u64 = pow10_u64(k);
                proof {
                    if m % dv == 0 {
                        assert((m as nat % pow10(k as nat)) * pow10(e as nat) == 0);
                        assert(m as nat / pow10(k as nat) <= m as nat) by {
                            vstd::arithmetic::div_mod::lemma_div_is_ordered_by_denominator(
                                m as int,
                                1,
                                pow10(k as nat) as int,
                            );
                        }
                    } else {
                        assert((m as nat % pow10(k as nat)) * pow10(e as nat) > 0) by {
                            lemma_mul_strict_inequality(
                                0,
                                (m as nat % pow10(k as nat)) as int,
                                pow10(e as nat) as int,
                            );
                        }
                    }
                }
                if m % dv == 0 {
                    Ok(Amount(m / dv))
                } else {
                    Err(ConversionError::Precision)
                }
            }
        }
    }

    /// Creates the decimal value from the raw amount and currency. The
    /// currency is required since the value is encoded as a scaled integer,
    /// which is different depending on the currency.
    ///
    /// Never fails: the result's scale is the currency's exponent, so the
    /// division is exact.
    pub fn into(self, currency: Currency) -> (r: Decimal)
        ensures
            r == decode_spec(currency, self),
    {
        Decimal { negative: false, mantissa: self.0, scale: currency.exponent() }
    }
}

/// Encoding then decoding returns the value that went in: for every
/// currency and every non-negative decimal value whose scale is the
/// currency's minor-unit exponent, encoding succeeds and decoding the
/// resulting amount gives back the original value.
pub proof fn lemma_amount_round_trip(c: Currency, v: Decimal)
    requires
        !v.negative,
        v.scale == c.exponent_spec(),
    ensures
        encode_spec(c, v) matches Ok(a) && decode_spec(c, a) == v,
{
    lemma_pow10_pos(v.scale as nat);
    lemma_mul_of_divisor(v.mantissa as nat, 1, pow10(v.scale as nat));
    assert(1 * pow10(v.scale as nat) == pow10(v.scale as nat));
    assert(scaled_numerator(c, v) == v.mantissa * pow10(v.scale as nat));
    assert(scaled_numerator(c, v) / pow10(v.scale as nat) == v.mantissa * 1);
}

/// Decoding then encoding returns the amount that went in: decoding is
/// exact, so re-encoding the decimal it yields recovers the amount for
/// every currency.
pub proof fn lemma_amount_decode_round_trip(c: Currency, a: Amount)
    ensures
        encode_spec(c, decode_spec(c, a)) == Ok::<Amount, ConversionError>(a),
{
    let v = decode_spec(c, a);
    lemma_amount_round_trip(c, v);
}

} // verus!
