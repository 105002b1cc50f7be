//! Laws of the cs2 calculator in the engine's own arithmetic: more XRD
//! never buys fewer tokens, asking for more XRD never sells fewer tokens, and
//! a sale never takes a negative number of tokens.
use crate::curve::{cs2_finish, cs2_multiplier, cs2_tokens_received, cs2_tokens_to_sell};
use crate::decimal::{
    cbrt_floor, dec_of_pdec, e18, e36, in_i192, in_i256, is_cbrt_floor, pdec_add, pdec_cbrt, pdec_div, pdec_mul,
    pdec_of, pdec_powi, pdec_round18, pdec_sub, tdiv,
};
use vstd::arithmetic::div_mod::{lemma_div_is_ordered, lemma_div_pos_is_pos, lemma_fundamental_div_mod, lemma_mod_bound};
use vstd::arithmetic::mul::lemma_mul_inequality;
use vstd::prelude::*;

verus! {

/// Division toward zero by a positive divisor keeps the order.
pub(crate) proof fn lemma_tdiv_monotone(a1: int, a2: int, b: int)
    requires
        a1 <= a2,
        b > 0,
    ensures
        tdiv(a1, b) <= tdiv(a2, b),
{
    if a1 >= 0 {
        lemma_div_is_ordered(a1, a2, b);
    } else if a2 >= 0 {
        lemma_div_pos_is_pos(-a1, b);
        lemma_div_pos_is_pos(a2, b);
    } else {
        lemma_div_is_ordered(-a2, -a1, b);
    }
}

/// Cubes keep the order of non-negative numbers.
proof fn lemma_cube_monotone(a: int, b: int)
    requires
        0 <= a <= b,
    ensures
        a * a * a <= b * b * b,
{
    lemma_mul_inequality(a, b, a);
    lemma_mul_inequality(a, b, b);
    lemma_mul_inequality(a * a, b * b, a);
    lemma_mul_inequality(a, b, b * b);
    assert(a * a <= b * b);
    assert(a * a * a <= b * b * a);
    assert(b * b * a == a * (b * b)) by (nonlinear_arith);
    assert(a * (b * b) <= b * (b * b));
    assert(b * (b * b) == b * b * b) by (nonlinear_arith);
}

/// Every non-negative number has a floor cube root, searched upward from `r`.
proof fn lemma_cbrt_from(v: int, r: int)
    requires
        0 <= r,
        r * r * r <= v,
    ensures
        exists|c: int| is_cbrt_floor(c, v),
    decreases v - r * r * r,
{
    if v < (r + 1) * (r + 1) * (r + 1) {
        assert(is_cbrt_floor(r, v));
    } else {
        assert((r + 1) * (r + 1) * (r + 1) > r * r * r) by (nonlinear_arith)
            requires
                0 <= r,
        ;
        lemma_cbrt_from(v, r + 1);
    }
}

/// The floor cube root of a non-negative number is one.
proof fn lemma_cbrt_floor(v: int)
    requires
        0 <= v,
    ensures
        is_cbrt_floor(cbrt_floor(v), v),
{
    lemma_cbrt_from(v, 0);
}

/// Floor cube roots keep the order of non-negative numbers.
proof fn lemma_cbrt_monotone(v1: int, v2: int)
    requires
        0 <= v1 <= v2,
    ensures
        cbrt_floor(v1) <= cbrt_floor(v2),
{
    lemma_cbrt_floor(v1);
    lemma_cbrt_floor(v2);
    let r1 = cbrt_floor(v1);
    let r2 = cbrt_floor(v2);
    if r1 > r2 {
        lemma_cube_monotone(r2 + 1, r1);
    }
}

/// The floor cube root of a number up to `c^3` is at most `c`.
proof fn lemma_cbrt_at_most(v: int, c: int)
    requires
        0 <= v,
        0 <= c,
        v <= c * c * c,
    ensures
        cbrt_floor(v) <= c,
{
    lemma_cbrt_floor(v);
    let r = cbrt_floor(v);
    if r > c {
        lemma_cube_monotone(c + 1, r);
        assert((c + 1) * (c + 1) * (c + 1) > c * c * c) by (nonlinear_arith)
            requires
                0 <= c,
        ;
    }
}

/// The engine's cube root keeps the order.
pub(crate) proof fn lemma_pdec_cbrt_monotone(a1: int, a2: int)
    requires
        a1 <= a2,
    ensures
        pdec_cbrt(a1) <= pdec_cbrt(a2),
{
    let k = e36();
    if a1 >= 0 {
        lemma_mul_inequality(a1, a2, k);
        lemma_mul_inequality(a1 * k, a2 * k, k);
        lemma_mul_inequality(0, a1, k);
        lemma_mul_inequality(0, a1 * k, k);
        lemma_cbrt_monotone(a1 * k * k, a2 * k * k);
    } else if a2 >= 0 {
        lemma_mul_inequality(0, -a1, k);
        lemma_mul_inequality(0, -a1 * k, k);
        lemma_mul_inequality(0, a2, k);
        lemma_mul_inequality(0, a2 * k, k);
        lemma_cbrt_floor(-a1 * k * k);
        lemma_cbrt_floor(a2 * k * k);
    } else {
        lemma_mul_inequality(-a2, -a1, k);
        lemma_mul_inequality(-a2 * k, -a1 * k, k);
        lemma_mul_inequality(0, -a2, k);
        lemma_mul_inequality(0, -a2 * k, k);
        lemma_cbrt_monotone(-a2 * k * k, -a1 * k * k);
    }
}

/// Rounding to 18 places, half away from zero, keeps the order.
pub(crate) proof fn lemma_round18_monotone(a: int, b: int)
    requires
        a <= b,
        pdec_round18(a) is Some,
        pdec_round18(b) is Some,
    ensures
        pdec_round18(a).unwrap() <= pdec_round18(b).unwrap(),
{
    let e = e18();
    lemma_fundamental_div_mod(a, e);
    lemma_fundamental_div_mod(b, e);
    lemma_mod_bound(a, e);
    lemma_mod_bound(b, e);
    lemma_div_is_ordered(a, b, e);
    let qa = a / e;
    let qb = b / e;
    if qa < qb {
        lemma_mul_inequality(qa + 1, qb, e);
        assert(e * (qa + 1) <= e * qb) by (nonlinear_arith)
            requires
                qa + 1 <= qb,
                e > 0,
        ;
    }
}

/// Narrowing a precise amount to a `Decimal` keeps the order.
pub(crate) proof fn lemma_finish_monotone(a: int, b: int)
    requires
        a <= b,
        cs2_finish(Some(a)) is Some,
        cs2_finish(Some(b)) is Some,
    ensures
        cs2_finish(Some(a)).unwrap() <= cs2_finish(Some(b)).unwrap(),
{
    lemma_round18_monotone(a, b);
    lemma_tdiv_monotone(pdec_round18(a).unwrap(), pdec_round18(b).unwrap(), e18());
}

/// On the cs2 curve with a positive multiplier, more XRD never buys fewer
/// tokens, and no XRD buys none.
pub proof fn law_cs2_tokens_received_monotone(x1: int, x2: int, s: int, mc: int, mts: int)
    requires
        cs2_multiplier(mc, mts) is Some,
        cs2_multiplier(mc, mts).unwrap() > 0,
        x1 <= x2,
        cs2_tokens_received(x1, s, mc, mts) is Some,
        cs2_tokens_received(x2, s, mc, mts) is Some,
    ensures
        x1 <= 0 ==> cs2_tokens_received(x1, s, mc, mts) == Some(0int),
        0 < x1 ==> cs2_tokens_received(x1, s, mc, mts).unwrap() <= cs2_tokens_received(x2, s, mc, mts).unwrap(),
{
    if 0 < x1 {
        let m = cs2_multiplier(mc, mts).unwrap();
        let e = e18();
        let p = e36();
        lemma_mul_inequality(x1, x2, e);
        lemma_mul_inequality(pdec_of(x1), pdec_of(x2), p);
        let q1 = pdec_div(pdec_of(x1), m).unwrap();
        let q2 = pdec_div(pdec_of(x2), m).unwrap();
        lemma_tdiv_monotone(pdec_of(x1) * p, pdec_of(x2) * p, m);
        assert(q1 <= q2);
        lemma_mul_inequality(q1, q2, 3 * p);
        lemma_tdiv_monotone(q1 * (3 * p), q2 * (3 * p), p);
        let f1 = pdec_mul(q1, 3 * p).unwrap();
        let f2 = pdec_mul(q2, 3 * p).unwrap();
        assert(f1 <= f2);
        let second = pdec_powi(pdec_of(s), 3).unwrap();
        let sum1 = pdec_add(f1, second).unwrap();
        let sum2 = pdec_add(f2, second).unwrap();
        lemma_pdec_cbrt_monotone(sum1, sum2);
        lemma_finish_monotone(pdec_cbrt(sum1) - pdec_of(s), pdec_cbrt(sum2) - pdec_of(s));
    }
}

/// The engine's cube of a non-negative `s` tokens, as a precise amount, is at
/// most the exact cube.
proof fn lemma_cube_of_supply(s: int)
    requires
        0 <= s,
        pdec_powi(pdec_of(s), 3) is Some,
    ensures
        0 <= pdec_powi(pdec_of(s), 3).unwrap(),
        pdec_powi(pdec_of(s), 3).unwrap() * e36() * e36() <= pdec_of(s) * pdec_of(s) * pdec_of(s),
{
    let e = e18();
    let p = e36();
    let a = pdec_of(s);
    assert(a * a == s * s * p) by (nonlinear_arith)
        requires
            a == s * e,
            p == e * e,
    ;
    assert(0 <= s * s) by (nonlinear_arith);
    lemma_mul_inequality(0, s * s, p);
    assert((s * s * p) / p == s * s) by (nonlinear_arith)
        requires
            p > 0,
    ;
    let sq = pdec_mul(a, a).unwrap();
    assert(sq == s * s);
    let v = a * sq;
    assert(v == s * s * s * e) by (nonlinear_arith)
        requires
            v == a * sq,
            a == s * e,
            sq == s * s,
    ;
    assert(0 <= s * s * s) by (nonlinear_arith)
        requires
            0 <= s,
    ;
    lemma_mul_inequality(0, s * s * s, e);
    lemma_fundamental_div_mod(v, p);
    lemma_mod_bound(v, p);
    lemma_div_pos_is_pos(v, p);
    let c = pdec_powi(a, 3).unwrap();
    assert(c == v / p);
    assert(c * p <= v) by (nonlinear_arith)
        requires
            v == p * (v / p) + v % p,
            0 <= v % p,
            c == v / p,
    ;
    lemma_mul_inequality(c * p, v, p);
    assert(v * p == a * a * a) by (nonlinear_arith)
        requires
            v == s * s * s * e,
            a == s * e,
            p == e * e,
    ;
}

/// On the cs2 curve with a positive multiplier and a non-negative supply,
/// receiving more XRD never takes fewer tokens, no XRD takes none, and no
/// amount takes a negative number of tokens.
pub proof fn law_cs2_tokens_to_sell_monotone(x1: int, x2: int, s: int, mc: int, mts: int)
    requires
        cs2_multiplier(mc, mts) is Some,
        cs2_multiplier(mc, mts).unwrap() > 0,
        0 <= s,
        x1 <= x2,
        cs2_tokens_to_sell(x1, s, mc, mts) is Some,
        cs2_tokens_to_sell(x2, s, mc, mts) is Some,
    ensures
        x1 <= 0 ==> cs2_tokens_to_sell(x1, s, mc, mts) == Some(0int),
        0 <= cs2_tokens_to_sell(x1, s, mc, mts).unwrap(),
        0 < x1 ==> cs2_tokens_to_sell(x1, s, mc, mts).unwrap() <= cs2_tokens_to_sell(x2, s, mc, mts).unwrap(),
{
    let m = cs2_multiplier(mc, mts).unwrap();
    let e = e18();
    let p = e36();
    let a = pdec_of(s);
    if 0 < x1 {
        lemma_mul_inequality(x1, x2, e);
        lemma_mul_inequality(pdec_of(x1), pdec_of(x2), 3 * p);
        lemma_tdiv_monotone(pdec_of(x1) * (3 * p), pdec_of(x2) * (3 * p), p);
        let t1 = pdec_mul(pdec_of(x1), 3 * p).unwrap();
        let t2 = pdec_mul(pdec_of(x2), 3 * p).unwrap();
        lemma_mul_inequality(t1, t2, p);
        lemma_tdiv_monotone(t1 * p, t2 * p, m);
        let f1 = pdec_div(t1, m).unwrap();
        let f2 = pdec_div(t2, m).unwrap();
        let second = pdec_powi(a, 3).unwrap();
        let th1 = pdec_sub(second, f1).unwrap();
        let th2 = pdec_sub(second, f2).unwrap();
        lemma_pdec_cbrt_monotone(th2, th1);
        let r1 = a - pdec_cbrt(th1);
        let r2 = a - pdec_cbrt(th2);
        lemma_finish_monotone(r1, r2);
        // non-negative: f1 >= 0, so the cube root is at most the supply
        lemma_mul_inequality(0, x1, e);
        lemma_mul_inequality(0, pdec_of(x1), 3 * p);
        lemma_tdiv_monotone(0, pdec_of(x1) * (3 * p), p);
        lemma_mul_inequality(0, t1, p);
        lemma_tdiv_monotone(0, t1 * p, m);
        assert(0 <= f1);
        lemma_cube_of_supply(s);
        assert(0 <= a) by (nonlinear_arith)
            requires
                0 <= s,
                a == s * e,
                e > 0,
        ;
        if th1 >= 0 {
            lemma_mul_inequality(th1, second, p);
            lemma_mul_inequality(th1 * p, second * p, p);
            lemma_mul_inequality(0, th1, p);
            lemma_mul_inequality(0, th1 * p, p);
            lemma_cbrt_at_most(th1 * p * p, a);
        } else {
            lemma_mul_inequality(0, -th1, p);
            lemma_mul_inequality(0, -th1 * p, p);
            lemma_cbrt_floor(-th1 * p * p);
        }
        assert(0 <= r1);
        assert(cs2_finish(Some(0int)) == Some(0int));
        lemma_finish_monotone(0, r1);
    }
}

} // verus!
