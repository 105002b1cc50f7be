//! The calls into the Radix engine's math types (`scrypto::math`) and into
//! std's integer parsing and printing. Each function here is trusted: its body
//! moves the limbs of a `Dec`/`PDec` into the engine's type, makes one call, and
//! moves the limbs of the result back. Its contract restates what the engine's
//! source does on those values.
use crate::decimal::{
    abs, dec_add, dec_div, dec_mul, dec_of_pdec, dec_sub, e18, e36, opt_val, tdiv, pdec_add, pdec_cbrt, pdec_div,
    pdec_mul, pdec_of, pdec_powi, pdec_round18, pdec_sub, popt_val, Dec, PDec,
};
use scrypto::math::{
    CheckedAdd, CheckedDiv, CheckedMul, CheckedSub, Decimal, PreciseDecimal, RoundingMode, I192,
    I256,
};
use std::str::FromStr;
use vstd::prelude::*;

verus! {

/// The attos that `Decimal::from_str` reads from a text, or `None` where it
/// rejects the text.
pub uninterp spec fn decimal_parse(s: Seq<char>) -> Option<int>;


/// Whether every character of `d` is a decimal digit.
pub open spec fn all_digits(d: Seq<char>) -> bool {
    forall|i: int| 0 <= i < d.len() ==> '0' <= #[trigger] d[i] && d[i] <= '9'
}

/// The number that the decimal digits `d` write.
pub open spec fn digits_value(d: Seq<char>) -> int
    decreases d.len(),
{
    if d.len() == 0 {
        0
    } else {
        digits_value(d.drop_last()) * 10 + (d.last() as int - '0' as int)
    }
}

/// The decimal digits of `n`, without leading zeros (`"0"` for zero).
pub open spec fn decimal_digits(n: nat) -> Seq<char>
    decreases n,
{
    let digit = (('0' as int) + (n % 10) as int) as char;
    if n < 10 {
        seq![digit]
    } else {
        decimal_digits(n / 10).push(digit)
    }
}

/// An integer's decimal text, with `-` before a negative one.
pub open spec fn int_text(v: int) -> Seq<char> {
    if v < 0 {
        seq!['-'] + decimal_digits((-v) as nat)
    } else {
        decimal_digits(v as nat)
    }
}

/// `d` with zeros put in front until it has `w` characters.
pub open spec fn zero_padded(d: Seq<char>, w: nat) -> Seq<char>
    decreases w - d.len(),
{
    if d.len() >= w {
        d
    } else {
        zero_padded(seq!['0'] + d, w)
    }
}

/// `d` without its trailing zeros.
pub open spec fn without_trailing_zeros(d: Seq<char>) -> Seq<char>
    decreases d.len(),
{
    if d.len() > 0 && d.last() == '0' {
        without_trailing_zeros(d.drop_last())
    } else {
        d
    }
}

/// The text that `Decimal`'s `Display` writes for a value given in attos: the
/// whole units (divided toward zero); then, unless the rest is zero, a `.`
/// and the rest's 18 digits without trailing zeros, with a `-` in front when
/// the value lies strictly between -1 and 0.
pub open spec fn decimal_display(attos: int) -> Seq<char> {
    let q = tdiv(attos, e18());
    let rest = attos - q * e18();
    if rest == 0 {
        int_text(q)
    } else {
        let sign = if rest < 0 && q == 0 { seq!['-'] } else { Seq::<char>::empty() };
        sign + int_text(q) + seq!['.'] + without_trailing_zeros(zero_padded(decimal_digits(abs(rest) as nat), 18))
    }
}

/// What `str::parse::<u32>` returns on a text: an optional `+` followed by
/// one or more decimal digits whose number fits a `u32`; anything else is an
/// error.
pub open spec fn u32_parse(s: Seq<char>) -> Option<u32> {
    let d = if s.len() > 0 && s[0] == '+' { s.drop_first() } else { s };
    if d.len() > 0 && all_digits(d) && digits_value(d) <= u32::MAX {
        Some(digits_value(d) as u32)
    } else {
        None
    }
}

/// What `str::parse::<i64>` returns on a text: an optional `+` or `-`
/// followed by one or more decimal digits whose signed number fits an `i64`;
/// anything else is an error.
pub open spec fn i64_parse(s: Seq<char>) -> Option<i64> {
    let neg = s.len() > 0 && s[0] == '-';
    let d = if s.len() > 0 && (s[0] == '+' || s[0] == '-') { s.drop_first() } else { s };
    let v = if neg { -digits_value(d) } else { digits_value(d) };
    if d.len() > 0 && all_digits(d) && i64::MIN <= v <= i64::MAX {
        Some(v as i64)
    } else {
        None
    }
}

/// The text that `u32`'s `Display` writes: its decimal digits.
pub open spec fn u32_display(v: u32) -> Seq<char> {
    decimal_digits(v as nat)
}

/// The text that `i64`'s `Display` writes: `-` for a negative number, then
/// the decimal digits of its magnitude.
pub open spec fn i64_display(v: i64) -> Seq<char> {
    if v < 0 {
        seq!['-'] + decimal_digits((-v) as nat)
    } else {
        decimal_digits(v as nat)
    }
}

/// `Decimal::checked_add`: the sum unless it leaves the 192-bit range.
#[verifier::external_body]
pub(crate) fn dec_checked_add(a: Dec, b: Dec) -> (r: Option<Dec>)
    ensures
        opt_val(r) == dec_add(a.val(), b.val()),
{
    let x = Decimal::from_attos(I192::from_digits([a.d0, a.d1, a.d2]));
    match x.checked_add(Decimal::from_attos(I192::from_digits([b.d0, b.d1, b.d2]))) {
        Some(c) => {
            let d = c.attos().to_digits();
            Some(Dec { d0: d[0], d1: d[1], d2: d[2] })
        },
        None => None,
    }
}

/// `Decimal::checked_sub`: the difference unless it leaves the 192-bit range.
#[verifier::external_body]
pub(crate) fn dec_checked_sub(a: Dec, b: Dec) -> (r: Option<Dec>)
    ensures
        opt_val(r) == dec_sub(a.val(), b.val()),
{
    let x = Decimal::from_attos(I192::from_digits([a.d0, a.d1, a.d2]));
    match x.checked_sub(Decimal::from_attos(I192::from_digits([b.d0, b.d1, b.d2]))) {
        Some(c) => {
            let d = c.attos().to_digits();
            Some(Dec { d0: d[0], d1: d[1], d2: d[2] })
        },
        None => None,
    }
}

/// `Decimal::checked_mul`: the 256-bit product of the attos divided by 10^18,
/// truncated toward zero, unless the product or the result overflows.
#[verifier::external_body]
pub(crate) fn dec_checked_mul(a: Dec, b: Dec) -> (r: Option<Dec>)
    ensures
        opt_val(r) == dec_mul(a.val(), b.val()),
{
    let x = Decimal::from_attos(I192::from_digits([a.d0, a.d1, a.d2]));
    match x.checked_mul(Decimal::from_attos(I192::from_digits([b.d0, b.d1, b.d2]))) {
        Some(c) => {
            let d = c.attos().to_digits();
            Some(Dec { d0: d[0], d1: d[1], d2: d[2] })
        },
        None => None,
    }
}

/// `Decimal::checked_div`: `a * 10^18 / b` on attos, truncated toward zero;
/// `None` for a zero divisor or a result out of range.
#[verifier::external_body]
pub(crate) fn dec_checked_div(a: Dec, b: Dec) -> (r: Option<Dec>)
    ensures
        opt_val(r) == dec_div(a.val(), b.val()),
{
    let x = Decimal::from_attos(I192::from_digits([a.d0, a.d1, a.d2]));
    match x.checked_div(Decimal::from_attos(I192::from_digits([b.d0, b.d1, b.d2]))) {
        Some(c) => {
            let d = c.attos().to_digits();
            Some(Dec { d0: d[0], d1: d[1], d2: d[2] })
        },
        None => None,
    }
}

/// `PreciseDecimal::from(Decimal)`: the attos multiplied by 10^18.
#[verifier::external_body]
pub(crate) fn pdec_from_dec(a: Dec) -> (r: PDec)
    ensures
        r.val() == pdec_of(a.val()),
{
    let x = PreciseDecimal::from(Decimal::from_attos(I192::from_digits([a.d0, a.d1, a.d2])));
    let d = x.precise_subunits().to_digits();
    PDec { d0: d[0], d1: d[1], d2: d[2], d3: d[3] }
}

/// `PreciseDecimal::checked_add`.
#[verifier::external_body]
pub(crate) fn pdec_checked_add(a: PDec, b: PDec) -> (r: Option<PDec>)
    ensures
        popt_val(r) == pdec_add(a.val(), b.val()),
{
    let x = PreciseDecimal::from_precise_subunits(I256::from_digits([a.d0, a.d1, a.d2, a.d3]));
    let y = PreciseDecimal::from_precise_subunits(I256::from_digits([b.d0, b.d1, b.d2, b.d3]));
    match x.checked_add(y) {
        Some(c) => {
            let d = c.precise_subunits().to_digits();
            Some(PDec { d0: d[0], d1: d[1], d2: d[2], d3: d[3] })
        },
        None => None,
    }
}

/// `PreciseDecimal::checked_sub`.
#[verifier::external_body]
pub(crate) fn pdec_checked_sub(a: PDec, b: PDec) -> (r: Option<PDec>)
    ensures
        popt_val(r) == pdec_sub(a.val(), b.val()),
{
    let x = PreciseDecimal::from_precise_subunits(I256::from_digits([a.d0, a.d1, a.d2, a.d3]));
    let y = PreciseDecimal::from_precise_subunits(I256::from_digits([b.d0, b.d1, b.d2, b.d3]));
    match x.checked_sub(y) {
        Some(c) => {
            let d = c.precise_subunits().to_digits();
            Some(PDec { d0: d[0], d1: d[1], d2: d[2], d3: d[3] })
        },
        None => None,
    }
}

/// `PreciseDecimal::checked_mul`: the 384-bit product divided by 10^36,
/// truncated toward zero.
#[verifier::external_body]
pub(crate) fn pdec_checked_mul(a: PDec, b: PDec) -> (r: Option<PDec>)
    ensures
        popt_val(r) == pdec_mul(a.val(), b.val()),
{
    let x = PreciseDecimal::from_precise_subunits(I256::from_digits([a.d0, a.d1, a.d2, a.d3]));
    let y = PreciseDecimal::from_precise_subunits(I256::from_digits([b.d0, b.d1, b.d2, b.d3]));
    match x.checked_mul(y) {
        Some(c) => {
            let d = c.precise_subunits().to_digits();
            Some(PDec { d0: d[0], d1: d[1], d2: d[2], d3: d[3] })
        },
        None => None,
    }
}

/// `PreciseDecimal::checked_div`: `a * 10^36 / b`, truncated toward zero.
#[verifier::external_body]
pub(crate) fn pdec_checked_div(a: PDec, b: PDec) -> (r: Option<PDec>)
    ensures
        popt_val(r) == pdec_div(a.val(), b.val()),
{
    let x = PreciseDecimal::from_precise_subunits(I256::from_digits([a.d0, a.d1, a.d2, a.d3]));
    let y = PreciseDecimal::from_precise_subunits(I256::from_digits([b.d0, b.d1, b.d2, b.d3]));
    match x.checked_div(y) {
        Some(c) => {
            let d = c.precise_subunits().to_digits();
            Some(PDec { d0: d[0], d1: d[1], d2: d[2], d3: d[3] })
        },
        None => None,
    }
}

/// `PreciseDecimal::checked_mul` with an `i32` factor, which is first made the
/// precise decimal `n` (that is, `n * 10^36` subunits).
#[verifier::external_body]
pub(crate) fn pdec_checked_mul_int(a: PDec, n: i32) -> (r: Option<PDec>)
    ensures
        popt_val(r) == pdec_mul(a.val(), n * e36()),
{
    let x = PreciseDecimal::from_precise_subunits(I256::from_digits([a.d0, a.d1, a.d2, a.d3]));
    match x.checked_mul(n) {
        Some(c) => {
            let d = c.precise_subunits().to_digits();
            Some(PDec { d0: d[0], d1: d[1], d2: d[2], d3: d[3] })
        },
        None => None,
    }
}

/// `PreciseDecimal::checked_div` with an `i32` divisor, which is first made the
/// precise decimal `n`.
#[verifier::external_body]
pub(crate) fn pdec_checked_div_int(a: PDec, n: i32) -> (r: Option<PDec>)
    ensures
        popt_val(r) == pdec_div(a.val(), n * e36()),
{
    let x = PreciseDecimal::from_precise_subunits(I256::from_digits([a.d0, a.d1, a.d2, a.d3]));
    match x.checked_div(n) {
        Some(c) => {
            let d = c.precise_subunits().to_digits();
            Some(PDec { d0: d[0], d1: d[1], d2: d[2], d3: d[3] })
        },
        None => None,
    }
}

/// `PreciseDecimal::checked_powi` for the exponents 2 and 3 (exponentiation by
/// squaring: a square is one scaled product; a cube multiplies the base by it).
#[verifier::external_body]
pub(crate) fn pdec_checked_powi(a: PDec, exp: i64) -> (r: Option<PDec>)
    requires
        exp == 2 || exp == 3,
    ensures
        popt_val(r) == pdec_powi(a.val(), exp as int),
{
    let x = PreciseDecimal::from_precise_subunits(I256::from_digits([a.d0, a.d1, a.d2, a.d3]));
    match x.checked_powi(exp) {
        Some(c) => {
            let d = c.precise_subunits().to_digits();
            Some(PDec { d0: d[0], d1: d[1], d2: d[2], d3: d[3] })
        },
        None => None,
    }
}

/// `PreciseDecimal::checked_nth_root(3)`: the cube root truncated toward zero
/// (the subunits times 10^72, rooted by `BigInt::nth_root`). It never fails for
/// this degree.
#[verifier::external_body]
pub(crate) fn pdec_checked_cbrt(a: PDec) -> (r: Option<PDec>)
    ensures
        popt_val(r) == Some(pdec_cbrt(a.val())),
{
    let x = PreciseDecimal::from_precise_subunits(I256::from_digits([a.d0, a.d1, a.d2, a.d3]));
    match x.checked_nth_root(3) {
        Some(c) => {
            let d = c.precise_subunits().to_digits();
            Some(PDec { d0: d[0], d1: d[1], d2: d[2], d3: d[3] })
        },
        None => None,
    }
}

/// `PreciseDecimal::checked_round(18, ToNearestMidpointAwayFromZero)`.
#[verifier::external_body]
pub(crate) fn pdec_checked_round18(a: PDec) -> (r: Option<PDec>)
    ensures
        popt_val(r) == pdec_round18(a.val()),
{
    let x = PreciseDecimal::from_precise_subunits(I256::from_digits([a.d0, a.d1, a.d2, a.d3]));
    match x.checked_round(18, RoundingMode::ToNearestMidpointAwayFromZero) {
        Some(c) => {
            let d = c.precise_subunits().to_digits();
            Some(PDec { d0: d[0], d1: d[1], d2: d[2], d3: d[3] })
        },
        None => None,
    }
}

/// `Decimal::try_from(PreciseDecimal)`: the subunits divided by 10^18, truncated
/// toward zero; an error when the result leaves the 192-bit range.
#[verifier::external_body]
pub(crate) fn dec_from_pdec(a: PDec) -> (r: Option<Dec>)
    ensures
        opt_val(r) == dec_of_pdec(a.val()),
{
    let x = PreciseDecimal::from_precise_subunits(I256::from_digits([a.d0, a.d1, a.d2, a.d3]));
    match Decimal::try_from(x) {
        Ok(c) => {
            let d = c.attos().to_digits();
            Some(Dec { d0: d[0], d1: d[1], d2: d[2] })
        },
        Err(_) => None,
    }
}

/// `Decimal::from_str`, named by `decimal_parse`.
#[verifier::external_body]
pub(crate) fn dec_parse(s: &str) -> (r: Option<Dec>)
    ensures
        opt_val(r) == decimal_parse(s@),
{
    match Decimal::from_str(s) {
        Ok(c) => {
            let d = c.attos().to_digits();
            Some(Dec { d0: d[0], d1: d[1], d2: d[2] })
        },
        Err(_) => None,
    }
}

/// `Decimal`'s `Display` (see `decimal_display`).
#[verifier::external_body]
pub(crate) fn dec_display(a: Dec) -> (r: String)
    ensures
        r@ == decimal_display(a.val()),
{
    Decimal::from_attos(I192::from_digits([a.d0, a.d1, a.d2])).to_string()
}

/// `str::parse::<u32>`: an error becomes `None` (see `u32_parse`).
#[verifier::external_body]
pub(crate) fn parse_u32(s: &str) -> (r: Option<u32>)
    ensures
        r == u32_parse(s@),
{
    s.parse::<u32>().ok()
}

/// `str::parse::<i64>`: an error becomes `None` (see `i64_parse`).
#[verifier::external_body]
pub(crate) fn parse_i64(s: &str) -> (r: Option<i64>)
    ensures
        r == i64_parse(s@),
{
    s.parse::<i64>().ok()
}

/// `u32`'s `Display` (see `u32_display`).
#[verifier::external_body]
pub(crate) fn display_u32(v: u32) -> (r: String)
    ensures
        r@ == u32_display(v),
{
    v.to_string()
}

/// `i64`'s `Display` (see `i64_display`).
#[verifier::external_body]
pub(crate) fn display_i64(v: i64) -> (r: String)
    ensures
        r@ == i64_display(v),
{
    v.to_string()
}

} // verus!
