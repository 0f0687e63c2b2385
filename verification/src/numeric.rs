//! The numeric canonicalizer: floating and fixed-point decimal values are
//! rendered through one arbitrary-precision pipeline — parse the decimal
//! text, round it to a fixed budget of fractional digits (half-to-even, the
//! decimal library's default rule), normalize away trailing zeros, and print
//! the plain form — so that values that agree mathematically normalize to
//! identical strings.

use vstd::prelude::*;
use vstd::string::StringExecFns;
use crate::text::{i128_to_string, is_digit, push_char, spec_int_string};
use crate::text::{lemma_nat_digits_len, lemma_nat_digits_shape, spec_nat_digits};

verus! {

/// The number of fractional digits every numeric value is rounded to.
pub const ROUND_DIGITS: i64 = 12;

/// Whether every character of `s` is a decimal digit.
pub open spec fn all_digits(s: Seq<char>) -> bool {
    forall|i: int| 0 <= i < s.len() ==> is_digit(#[trigger] s[i])
}

/// An optionally signed, non-empty run of decimal digits.
pub open spec fn is_int_literal(s: Seq<char>) -> bool {
    let t = if s.len() > 0 && s[0] == '-' {
        s.skip(1)
    } else {
        s
    };
    t.len() > 0 && all_digits(t)
}

/// An optionally signed digit run with an optional fractional part: the
/// shape of a decimal number without an exponent, with digits on both sides
/// of any decimal point.
pub open spec fn is_plain_decimal(s: Seq<char>) -> bool {
    let t = if s.len() > 0 && s[0] == '-' {
        s.skip(1)
    } else {
        s
    };
    t.len() > 0 && (all_digits(t) || (exists|k: int|
        1 <= k < t.len() - 1 && #[trigger] t[k] == '.' && all_digits(t.take(k)) && all_digits(
            t.skip(k + 1),
        )))
}

/// A plain decimal, optionally followed by `e` and a short optionally
/// signed integer exponent.
pub open spec fn is_decimal_literal(s: Seq<char>) -> bool {
    is_plain_decimal(s) || (exists|k: int|
        0 < k < s.len() && #[trigger] s[k] == 'e' && is_plain_decimal(s.take(k))
            && is_int_literal(s.skip(k + 1)) && s.skip(k + 1).len() <= 5)
}

/// The canonical rendering of the decimal literal `s` rounded to
/// `round_digits` fractional digits: what the arbitrary-precision pipeline
/// returns for it.
pub uninterp spec fn canon_decimal(s: Seq<char>, round_digits: int) -> Seq<char>;

/// The scaled-decimal text of the raw integer `value` at `scale`.
pub uninterp spec fn fmt_decimal(value: int, scale: int) -> Seq<char>;

/// Relies on bigdecimal's `BigDecimal`: `from_str` parses an optionally
/// signed decimal literal with optional fraction and optional `e` exponent;
/// `round` rounds to the given number of fractional digits under the
/// library's default half-to-even rule; `normalized` drops trailing zeros;
/// `to_plain_string` prints the result without an exponent.  The composite
/// result depends on the input text and the digit budget alone.
#[verifier::external_body]
fn bigdecimal_canonical(value: &str, round_digits: i64) -> (r: String)
    requires
        is_decimal_literal(value@),
        0 <= round_digits <= 10000,
    ensures
        r@ == canon_decimal(value@, round_digits as int),
{
    match <bigdecimal::BigDecimal as std::str::FromStr>::from_str(value) {
        Ok(d) => d.round(round_digits).normalized().to_plain_string(),
        Err(_) => String::new(),
    }
}

/// Relies on arrow's `Decimal128Type::format_decimal`: it renders the raw
/// integer at the given scale as scaled-decimal text — a sign, digits, and a
/// decimal point or zero padding as the scale demands — and its output
/// depends on the value and scale alone, the precision argument being
/// unused.
#[verifier::external_body]
fn format_decimal_128(value: i128, precision: u8, scale: i8) -> (r: String)
    ensures
        r@ == fmt_decimal(value as int, scale as int),
        is_plain_decimal(r@),
{
    <arrow::datatypes::Decimal128Type as arrow::datatypes::DecimalType>::format_decimal(
        value,
        precision,
        scale,
    )
}

/// The digit budget a `round_digits` argument stands for: twelve when
/// absent.
pub open spec fn spec_round_digits(round_digits: Option<i64>) -> int {
    match round_digits {
        Some(d) => d as int,
        None => 12,
    }
}

/// Rounds the decimal literal `value` to the requested number of fractional
/// digits (twelve when `round_digits` is `None`) and renders the normalized
/// plain form.
pub fn big_decimal_to_str(value: &str, round_digits: Option<i64>) -> (r: String)
    requires
        is_decimal_literal(value@),
        match round_digits {
            Some(d) => 0 <= d <= 10000,
            None => true,
        },
    ensures
        r@ == canon_decimal(value@, spec_round_digits(round_digits)),
{
    let digits: i64 = match round_digits {
        Some(d) => d,
        None => ROUND_DIGITS,
    };
    bigdecimal_canonical(value, digits)
}

/// A floating-point cell value, as the normalizer reads it: the special
/// values by name, and every finite value by its shortest plain decimal
/// rendering.
#[derive(Debug, PartialEq, Eq, Clone)]
pub enum FloatValue {
    NaN,
    Infinity,
    NegInfinity,
    Finite(String),
}

impl FloatValue {
    /// A finite value must carry a plain decimal literal.
    pub open spec fn wf(self) -> bool {
        match self {
            FloatValue::Finite(s) => is_plain_decimal(s@),
            _ => true,
        }
    }
}

/// The canonical string of a floating-point value: `NaN` with the sign
/// erased, signed `Infinity` by name, and every finite value through the
/// twelve-digit rounding pipeline.
pub open spec fn spec_float_string(v: FloatValue) -> Seq<char> {
    match v {
        FloatValue::NaN => "NaN"@,
        FloatValue::Infinity => "Infinity"@,
        FloatValue::NegInfinity => "-Infinity"@,
        FloatValue::Finite(s) => canon_decimal(s@, 12),
    }
}

/// Canonicalizes a floating-point value of any width.
pub fn float_to_str(value: &FloatValue) -> (r: String)
    requires
        value.wf(),
    ensures
        r@ == spec_float_string(*value),
{
    match value {
        FloatValue::NaN => String::from_str("NaN"),
        FloatValue::Infinity => String::from_str("Infinity"),
        FloatValue::NegInfinity => String::from_str("-Infinity"),
        FloatValue::Finite(s) => big_decimal_to_str(s.as_str(), None),
    }
}

/// Canonicalizes a 128-bit fixed-point decimal cell: the raw integer is
/// rendered at its declared scale and sent through the same rounding
/// pipeline as the floating-point values, so equal mathematical values
/// normalize identically.
pub fn decimal_128_to_str(value: i128, scale: i8) -> (r: String)
    ensures
        r@ == canon_decimal(fmt_decimal(value as int, scale as int), 12),
{
    let formatted = format_decimal_128(value, 255, scale);
    big_decimal_to_str(formatted.as_str(), None)
}

/// The decimal literal that a 256-bit decimal cell is parsed from: its raw
/// integer digits with the negated scale as an exponent.
pub open spec fn spec_scaled_literal(digits: Seq<char>, scale: int) -> Seq<char> {
    digits + seq!['e'] + spec_int_string(-scale)
}

/// The decimal text of an integer is itself an integer literal of bounded
/// width for bounded values.
proof fn lemma_int_string_literal(v: int)
    requires
        -10000 < v < 10000,
    ensures
        is_int_literal(spec_int_string(v)),
        spec_int_string(v).len() <= 5,
{
    if v < 0 {
        lemma_nat_digits_shape((-v) as nat);
        lemma_nat_digits_len((-v) as nat);
        assert(spec_int_string(v).skip(1) =~= spec_nat_digits((-v) as nat));
    } else {
        lemma_nat_digits_shape(v as nat);
        lemma_nat_digits_len(v as nat);
        assert(spec_int_string(v)[0] != '-');
    }
}

/// Canonicalizes a 256-bit fixed-point decimal cell from its raw integer
/// digit text and declared scale, through the same rounding pipeline as
/// every other numeric value.
pub fn decimal_256_to_str(digits: &str, scale: i8) -> (r: String)
    requires
        is_int_literal(digits@),
    ensures
        r@ == canon_decimal(spec_scaled_literal(digits@, scale as int), 12),
{
    let mut literal = digits.to_owned();
    push_char(&mut literal, 'e');
    let exponent: i128 = -(scale as i128);
    let exponent_text = i128_to_string(exponent);
    literal.append(exponent_text.as_str());
    proof {
        assert(literal@ =~= spec_scaled_literal(digits@, scale as int));
        let k = digits@.len() as int;
        lemma_int_string_literal(exponent as int);
        assert(literal@.take(k) =~= digits@);
        assert(literal@.skip(k + 1) =~= spec_int_string(-(scale as int)));
        assert(literal@[k] == 'e');
        assert(is_decimal_literal(literal@));
    }
    big_decimal_to_str(literal.as_str(), None)
}

} // verus!
