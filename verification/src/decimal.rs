//! Fixed-point numbers of the Radix engine, held as plain 64-bit limbs.
//!
//! `Dec` is a `Decimal`: a signed 192-bit count of 10^-18 units ("attos").
//! `PDec` is a `PreciseDecimal`: a signed 256-bit count of 10^-36 units.
//! Both keep the two's complement limbs of the engine's own integers, least
//! significant first, so that a value crosses to the engine and back unchanged.
//! The mathematical value of each is given by `val`.
use crate::radix::{dec_display, dec_parse, decimal_display, decimal_parse};
use vstd::prelude::*;

verus! {

/// 2^64.
pub open spec fn b64() -> int {
    18446744073709551616int
}

/// 2^63.
pub open spec fn b63() -> int {
    9223372036854775808int
}

/// 2^128.
pub open spec fn b128() -> int {
    340282366920938463463374607431768211456int
}

/// 2^192.
pub open spec fn b192() -> int {
    6277101735386680763835789423207666416102355444464034512896int
}

/// 10^18: the number of attos in one unit of a `Dec`.
pub open spec fn e18() -> int {
    1000000000000000000int
}

/// 10^36: the number of subunits in one unit of a `PDec`.
pub open spec fn e36() -> int {
    1000000000000000000000000000000000000int
}

/// The value of the top limb read as a signed 64-bit integer.
pub open spec fn signed_limb(d: u64) -> int {
    if d >= b63() {
        d - b64()
    } else {
        d as int
    }
}

/// Whether `x` is a value of a signed 192-bit integer.
pub open spec fn in_i192(x: int) -> bool {
    -b192() / 2 <= x < b192() / 2
}

/// Whether `x` is a value of a signed 256-bit integer.
pub open spec fn in_i256(x: int) -> bool {
    -(b192() * b64()) / 2 <= x < (b192() * b64()) / 2
}

/// Whether `x` is a value of a signed 384-bit integer.
pub open spec fn in_i384(x: int) -> bool {
    -(b192() * b192()) / 2 <= x < (b192() * b192()) / 2
}

/// Absolute value.
pub open spec fn abs(x: int) -> int {
    if x < 0 {
        -x
    } else {
        x
    }
}

/// Integer division rounding toward zero, as Rust's `/` on signed integers.
pub open spec fn tdiv(a: int, b: int) -> int {
    if (a >= 0) == (b >= 0) {
        abs(a) / abs(b)
    } else {
        -(abs(a) / abs(b))
    }
}

/// A `Decimal`: three limbs of a two's complement 192-bit integer counting attos.
#[derive(Clone, Copy, Debug, PartialEq, Eq, Structural)]
pub struct Dec {
    pub d0: u64,
    pub d1: u64,
    pub d2: u64,
}

/// A `PreciseDecimal`: four limbs of a two's complement 256-bit integer
/// counting 10^-36 units.
#[derive(Clone, Copy, Debug, PartialEq, Eq, Structural)]
pub struct PDec {
    pub d0: u64,
    pub d1: u64,
    pub d2: u64,
    pub d3: u64,
}

impl Dec {
    /// The number of attos this value holds.
    pub open spec fn val(self) -> int {
        signed_limb(self.d2) * b128() + self.d1 * b64() + self.d0
    }

    /// Zero.
    pub fn zero() -> (r: Dec)
        ensures
            r.val() == 0,
    {
        Dec { d0: 0, d1: 0, d2: 0 }
    }

    /// One unit (10^18 attos).
    pub fn one() -> (r: Dec)
        ensures
            r.val() == e18(),
    {
        Dec { d0: 1000000000000000000, d1: 0, d2: 0 }
    }

    /// The value holding `attos` attos.
    pub fn from_attos(attos: u64) -> (r: Dec)
        ensures
            r.val() == attos,
    {
        Dec { d0: attos, d1: 0, d2: 0 }
    }

    /// Whether the value is below zero.
    pub fn is_negative(&self) -> (r: bool)
        ensures
            r == (self.val() < 0),
    {
        self.d2 >= 0x8000_0000_0000_0000
    }

    /// Whether the value is above zero.
    pub fn is_positive(&self) -> (r: bool)
        ensures
            r == (self.val() > 0),
    {
        !self.is_negative() && (self.d2 != 0 || self.d1 != 0 || self.d0 != 0)
    }

    /// Whether the value is zero.
    pub fn is_zero(&self) -> (r: bool)
        ensures
            r == (self.val() == 0),
    {
        self.d2 == 0 && self.d1 == 0 && self.d0 == 0
    }

    /// `self < other`.
    pub fn lt(&self, other: &Dec) -> (r: bool)
        ensures
            r == (self.val() < other.val()),
    {
        let an = self.d2 >= 0x8000_0000_0000_0000;
        let bn = other.d2 >= 0x8000_0000_0000_0000;
        if an != bn {
            an
        } else if self.d2 != other.d2 {
            self.d2 < other.d2
        } else if self.d1 != other.d1 {
            self.d1 < other.d1
        } else {
            self.d0 < other.d0
        }
    }

    /// `self > other`.
    pub fn gt(&self, other: &Dec) -> (r: bool)
        ensures
            r == (self.val() > other.val()),
    {
        other.lt(self)
    }

    /// `self <= other`.
    pub fn le(&self, other: &Dec) -> (r: bool)
        ensures
            r == (self.val() <= other.val()),
    {
        !other.lt(self)
    }

    /// `self >= other`.
    pub fn ge(&self, other: &Dec) -> (r: bool)
        ensures
            r == (self.val() >= other.val()),
    {
        !self.lt(other)
    }

    /// `self == other` by value.
    pub fn eq_val(&self, other: &Dec) -> (r: bool)
        ensures
            r == (self.val() == other.val()),
    {
        proof {
            lemma_dec_val_injective(*self, *other);
        }
        self.d0 == other.d0 && self.d1 == other.d1 && self.d2 == other.d2
    }

    /// The decimal a text denotes, as the engine reads it (`"0.5"`, `"-12"`,
    /// at most 18 places); `None` for a text it rejects.
    pub fn parse(s: &str) -> (r: Option<Dec>)
        ensures
            opt_val(r) == decimal_parse(s@),
    {
        dec_parse(s)
    }

    /// The text the engine writes for this decimal.
    pub fn to_text(&self) -> (r: String)
        ensures
            r@ == decimal_display(self.val()),
    {
        dec_display(*self)
    }
}

impl PDec {
    /// The number of 10^-36 units this value holds.
    pub open spec fn val(self) -> int {
        signed_limb(self.d3) * b192() + self.d2 * b128() + self.d1 * b64() + self.d0
    }
}

/// `Option<Dec>` read as an optional value.
pub open spec fn opt_val(r: Option<Dec>) -> Option<int> {
    match r {
        Some(d) => Some(d.val()),
        None => None,
    }
}

/// `Option<PDec>` read as an optional value.
pub open spec fn popt_val(r: Option<PDec>) -> Option<int> {
    match r {
        Some(d) => Some(d.val()),
        None => None,
    }
}

/// `Decimal::checked_add` on attos: the sum, unless it leaves the 192-bit range.
pub open spec fn dec_add(a: int, b: int) -> Option<int> {
    if in_i192(a + b) {
        Some(a + b)
    } else {
        None
    }
}

/// `Decimal::checked_sub` on attos.
pub open spec fn dec_sub(a: int, b: int) -> Option<int> {
    if in_i192(a - b) {
        Some(a - b)
    } else {
        None
    }
}

/// `Decimal::checked_mul` on attos: the product scaled back by 10^18, truncated
/// toward zero; `None` when the 256-bit product or the 192-bit result overflows.
pub open spec fn dec_mul(a: int, b: int) -> Option<int> {
    if in_i256(a * b) && in_i192(tdiv(a * b, e18())) {
        Some(tdiv(a * b, e18()))
    } else {
        None
    }
}

/// `Decimal::checked_div` on attos: `a * 10^18 / b` truncated toward zero;
/// `None` for a zero divisor or a result out of range.
pub open spec fn dec_div(a: int, b: int) -> Option<int> {
    if b != 0 && in_i192(tdiv(a * e18(), b)) {
        Some(tdiv(a * e18(), b))
    } else {
        None
    }
}

/// `PreciseDecimal::from(Decimal)`: attos become 10^-36 units.
pub open spec fn pdec_of(a: int) -> int {
    a * e18()
}

/// `PreciseDecimal::checked_add`.
pub open spec fn pdec_add(a: int, b: int) -> Option<int> {
    if in_i256(a + b) {
        Some(a + b)
    } else {
        None
    }
}

/// `PreciseDecimal::checked_sub`.
pub open spec fn pdec_sub(a: int, b: int) -> Option<int> {
    if in_i256(a - b) {
        Some(a - b)
    } else {
        None
    }
}

/// `PreciseDecimal::checked_mul`: the 384-bit product scaled back by 10^36,
/// truncated toward zero.
pub open spec fn pdec_mul(a: int, b: int) -> Option<int> {
    if in_i384(a * b) && in_i256(tdiv(a * b, e36())) {
        Some(tdiv(a * b, e36()))
    } else {
        None
    }
}

/// `PreciseDecimal::checked_div`: `a * 10^36 / b` truncated toward zero.
pub open spec fn pdec_div(a: int, b: int) -> Option<int> {
    if b != 0 && in_i256(tdiv(a * e36(), b)) {
        Some(tdiv(a * e36(), b))
    } else {
        None
    }
}

/// `PreciseDecimal::checked_powi` for the exponents 2 and 3: squaring by one
/// scaled product, cubing by multiplying the square by the base.
pub open spec fn pdec_powi(a: int, exp: int) -> Option<int> {
    if exp == 2 {
        pdec_mul(a, a)
    } else {
        match pdec_mul(a, a) {
            Some(sq) => pdec_mul(a, sq),
            None => None,
        }
    }
}

/// `PreciseDecimal::checked_round(18, ToNearestMidpointAwayFromZero)`: the
/// nearest multiple of 10^18, halves rounded away from zero.
pub open spec fn pdec_round18(a: int) -> Option<int> {
    let r = a % e18();
    let down = a - r;
    let up = a - r + e18();
    let res = if r == 0 {
        a
    } else if r < e18() / 2 {
        down
    } else if r > e18() / 2 {
        up
    } else if a > 0 {
        up
    } else {
        down
    };
    if in_i256(res) {
        Some(res)
    } else {
        None
    }
}

/// `Decimal::try_from(PreciseDecimal)`: 10^-36 units truncated toward zero to attos.
pub open spec fn dec_of_pdec(a: int) -> Option<int> {
    if in_i192(tdiv(a, e18())) {
        Some(tdiv(a, e18()))
    } else {
        None
    }
}

/// Whether `r` is the floor of the cube root of `v`.
pub open spec fn is_cbrt_floor(r: int, v: int) -> bool {
    0 <= r && r * r * r <= v && v < (r + 1) * (r + 1) * (r + 1)
}

/// The floor of the cube root of `v`.
pub open spec fn cbrt_floor(v: int) -> int {
    choose|r: int| is_cbrt_floor(r, v)
}

/// `PreciseDecimal::checked_nth_root(3)`: the cube root of the value, truncated
/// toward zero to a multiple of 10^-36.
pub open spec fn pdec_cbrt(a: int) -> int {
    if a >= 0 {
        cbrt_floor(a * e36() * e36())
    } else {
        -cbrt_floor(-a * e36() * e36())
    }
}

/// Every `Dec` holds a value of a signed 192-bit integer.
pub proof fn lemma_dec_range(a: Dec)
    ensures
        in_i192(a.val()),
{
}

/// Every `PDec` holds a value of a signed 256-bit integer.
pub proof fn lemma_pdec_range(a: PDec)
    ensures
        in_i256(a.val()),
{
}

/// Two `Dec` with the same value have the same limbs.
pub proof fn lemma_dec_val_injective(a: Dec, b: Dec)
    ensures
        (a.val() == b.val()) == (a == b),
{
    if a.val() == b.val() {
        assert(a.d0 as int == b.d0 as int);
        assert(a.d1 as int == b.d1 as int);
        assert(signed_limb(a.d2) == signed_limb(b.d2));
    }
}

} // verus!
