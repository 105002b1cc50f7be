//! Laws of the cs2 calculator's answers in the engine's own arithmetic, as
//! the market cap and the tradable supply vary: every answer uses the
//! multiplier `max_xrd_market_cap / max_token_supply_to_trade^3`, so the
//! price, the buy price and the sell price never fall as the market cap grows,
//! the same XRD never buys or takes more tokens, the buy and sell prices never
//! grow as the tradable supply grows, and the whole tradable supply costs the
//! curve's maximum XRD.
use crate::curve::{
    cs2_area, cs2_buy_price, cs2_finish, cs2_max_xrd, cs2_multiplier, cs2_price, cs2_sell_price, cs2_tokens_received,
    cs2_tokens_to_sell,
};
use crate::decimal::{e18, e36, pdec_add, pdec_cbrt, pdec_div, pdec_mul, pdec_of, pdec_powi, pdec_sub, tdiv};
use crate::curve_laws::{lemma_finish_monotone, lemma_pdec_cbrt_monotone, lemma_tdiv_monotone};
use vstd::arithmetic::div_mod::{
    lemma_div_is_ordered_by_denominator, lemma_div_pos_is_pos, lemma_fundamental_div_mod, lemma_mod_bound,
};
use vstd::arithmetic::mul::lemma_mul_inequality;
use vstd::prelude::*;

verus! {

/// The engine's cube keeps the order of non-negative numbers, and is not negative.
proof fn lemma_pdec_cube_le(a: int, b: int)
    requires
        0 <= a <= b,
        pdec_powi(a, 3) is Some,
        pdec_powi(b, 3) is Some,
    ensures
        0 <= pdec_powi(a, 3).unwrap() <= pdec_powi(b, 3).unwrap(),
{
    let p = e36();
    lemma_mul_inequality(a, b, a);
    lemma_mul_inequality(a, b, b);
    assert(0 <= a * a) by (nonlinear_arith);
    lemma_tdiv_monotone(0, a * a, p);
    lemma_tdiv_monotone(a * a, b * b, p);
    let sa = pdec_mul(a, a).unwrap();
    let sb = pdec_mul(b, b).unwrap();
    assert(0 <= sa <= sb);
    lemma_mul_inequality(a, b, sa);
    lemma_mul_inequality(sa, sb, b);
    assert(0 <= a * sa) by (nonlinear_arith)
        requires
            0 <= a,
            0 <= sa,
    ;
    assert(a * sa <= b * sb) by (nonlinear_arith)
        requires
            a * sa <= b * sa,
            sa * b <= sb * b,
    ;
    lemma_tdiv_monotone(0, a * sa, p);
    lemma_tdiv_monotone(a * sa, b * sb, p);
}

/// A larger multiplier never gives a smaller rounded area over the same
/// non-negative span of supplies.
proof fn lemma_area_le(m1: int, m2: int, a: int, b: int)
    requires
        m1 <= m2,
        0 <= b <= a,
        cs2_finish(cs2_area(m1, Some(a), Some(b))) is Some,
        cs2_finish(cs2_area(m2, Some(a), Some(b))) is Some,
    ensures
        cs2_finish(cs2_area(m1, Some(a), Some(b))).unwrap() <= cs2_finish(cs2_area(m2, Some(a), Some(b))).unwrap(),
{
    let p = e36();
    lemma_mul_inequality(m1, m2, p);
    lemma_tdiv_monotone(m1 * p, m2 * p, 3 * p);
    let f1 = pdec_div(m1, 3 * p).unwrap();
    let f2 = pdec_div(m2, 3 * p).unwrap();
    lemma_pdec_cube_le(b, a);
    let fourth = pdec_sub(pdec_powi(a, 3).unwrap(), pdec_powi(b, 3).unwrap()).unwrap();
    assert(0 <= fourth);
    lemma_mul_inequality(f1, f2, fourth);
    lemma_tdiv_monotone(f1 * fourth, f2 * fourth, p);
    let x1 = pdec_mul(f1, fourth).unwrap();
    let x2 = pdec_mul(f2, fourth).unwrap();
    assert(x1 <= x2);
    lemma_finish_monotone(x1, x2);
}

/// The multiplier grows with the market cap.
proof fn lemma_multiplier_by_cap(mc1: int, mc2: int, mts: int)
    requires
        mc1 <= mc2,
        0 < mts,
        cs2_multiplier(mc1, mts) is Some,
        cs2_multiplier(mc2, mts) is Some,
    ensures
        cs2_multiplier(mc1, mts).unwrap() <= cs2_multiplier(mc2, mts).unwrap(),
{
    let d = pdec_powi(pdec_of(mts), 3).unwrap();
    lemma_mul_inequality(mc1, mc2, e18());
    lemma_mul_inequality(pdec_of(mc1), pdec_of(mc2), e36());
    lemma_mul_inequality(0, mts, e18());
    assert(pdec_powi(0, 3) == Some(0int));
    lemma_pdec_cube_le(0, pdec_of(mts));
    lemma_tdiv_monotone(pdec_of(mc1) * e36(), pdec_of(mc2) * e36(), d);
}

/// For a non-negative market cap, the multiplier shrinks as the tradable
/// supply grows.
proof fn lemma_multiplier_by_supply(mc: int, mts1: int, mts2: int)
    requires
        0 <= mc,
        0 < mts1 <= mts2,
        cs2_multiplier(mc, mts1) is Some,
        cs2_multiplier(mc, mts2) is Some,
    ensures
        cs2_multiplier(mc, mts2).unwrap() <= cs2_multiplier(mc, mts1).unwrap(),
{
    let e = e18();
    lemma_mul_inequality(mts1, mts2, e);
    lemma_mul_inequality(0, mts1, e);
    lemma_pdec_cube_le(pdec_of(mts1), pdec_of(mts2));
    let d1 = pdec_powi(pdec_of(mts1), 3).unwrap();
    let d2 = pdec_powi(pdec_of(mts2), 3).unwrap();
    lemma_mul_inequality(0, mc, e);
    lemma_mul_inequality(0, pdec_of(mc), e36());
    let a = pdec_of(mc) * e36();
    lemma_div_is_ordered_by_denominator(a, d1, d2);
}

/// Buying never costs less when the market cap is larger, the tradable supply
/// and the tokens bought being the same.
pub proof fn law_cs2_buy_price_grows_with_market_cap(n: int, s: int, mc1: int, mc2: int, mts: int)
    requires
        0 <= s,
        0 < mts,
        mc1 <= mc2,
        cs2_buy_price(n, s, mc1, mts) is Some,
        cs2_buy_price(n, s, mc2, mts) is Some,
    ensures
        cs2_buy_price(n, s, mc1, mts).unwrap() <= cs2_buy_price(n, s, mc2, mts).unwrap(),
{
    if n > 0 {
        lemma_multiplier_by_cap(mc1, mc2, mts);
        lemma_mul_inequality(0, s, e18());
        lemma_mul_inequality(0, n, e18());
        lemma_area_le(
            cs2_multiplier(mc1, mts).unwrap(),
            cs2_multiplier(mc2, mts).unwrap(),
            pdec_of(s) + pdec_of(n),
            pdec_of(s),
        );
    }
}

/// Selling never returns less when the market cap is larger, the tradable
/// supply and the tokens sold (at most the supply) being the same.
pub proof fn law_cs2_sell_price_grows_with_market_cap(n: int, s: int, mc1: int, mc2: int, mts: int)
    requires
        n <= s,
        0 < mts,
        mc1 <= mc2,
        cs2_sell_price(n, s, mc1, mts) is Some,
        cs2_sell_price(n, s, mc2, mts) is Some,
    ensures
        cs2_sell_price(n, s, mc1, mts).unwrap() <= cs2_sell_price(n, s, mc2, mts).unwrap(),
{
    if n > 0 {
        lemma_multiplier_by_cap(mc1, mc2, mts);
        lemma_mul_inequality(n, s, e18());
        lemma_mul_inequality(0, s - n, e18());
        lemma_area_le(
            cs2_multiplier(mc1, mts).unwrap(),
            cs2_multiplier(mc2, mts).unwrap(),
            pdec_of(s),
            pdec_of(s) - pdec_of(n),
        );
    }
}

/// For a non-negative market cap, buying never costs more when the tradable
/// supply is larger, the tokens bought being the same.
pub proof fn law_cs2_buy_price_falls_with_tradable_supply(n: int, s: int, mc: int, mts1: int, mts2: int)
    requires
        0 <= s,
        0 <= mc,
        0 < mts1 <= mts2,
        cs2_buy_price(n, s, mc, mts1) is Some,
        cs2_buy_price(n, s, mc, mts2) is Some,
    ensures
        cs2_buy_price(n, s, mc, mts2).unwrap() <= cs2_buy_price(n, s, mc, mts1).unwrap(),
{
    if n > 0 {
        lemma_multiplier_by_supply(mc, mts1, mts2);
        lemma_mul_inequality(0, s, e18());
        lemma_mul_inequality(0, n, e18());
        lemma_area_le(
            cs2_multiplier(mc, mts2).unwrap(),
            cs2_multiplier(mc, mts1).unwrap(),
            pdec_of(s) + pdec_of(n),
            pdec_of(s),
        );
    }
}

/// For a non-negative market cap, selling never returns more when the
/// tradable supply is larger, the tokens sold (at most the supply) being the same.
pub proof fn law_cs2_sell_price_falls_with_tradable_supply(n: int, s: int, mc: int, mts1: int, mts2: int)
    requires
        n <= s,
        0 <= mc,
        0 < mts1 <= mts2,
        cs2_sell_price(n, s, mc, mts1) is Some,
        cs2_sell_price(n, s, mc, mts2) is Some,
    ensures
        cs2_sell_price(n, s, mc, mts2).unwrap() <= cs2_sell_price(n, s, mc, mts1).unwrap(),
{
    if n > 0 {
        lemma_multiplier_by_supply(mc, mts1, mts2);
        lemma_mul_inequality(n, s, e18());
        lemma_mul_inequality(0, s - n, e18());
        lemma_area_le(
            cs2_multiplier(mc, mts2).unwrap(),
            cs2_multiplier(mc, mts1).unwrap(),
            pdec_of(s),
            pdec_of(s) - pdec_of(n),
        );
    }
}

/// Rounding a non-negative precise amount to 18 places and narrowing it
/// gives its truncation or one atto more.
proof fn lemma_finish_near_truncation(x: int)
    requires
        0 <= x,
        cs2_finish(Some(x)) is Some,
    ensures
        tdiv(x, e18()) <= cs2_finish(Some(x)).unwrap() <= tdiv(x, e18()) + 1,
{
    let e = e18();
    lemma_fundamental_div_mod(x, e);
    lemma_mod_bound(x, e);
    lemma_div_pos_is_pos(x, e);
    let q = x / e;
    let r = x % e;
    assert((x - r) / e == q) by (nonlinear_arith)
        requires
            x == e * q + r,
            e > 0,
    ;
    assert((x - r + e) / e == q + 1) by (nonlinear_arith)
        requires
            x == e * q + r,
            e > 0,
    ;
    assert(0 <= x - r) by (nonlinear_arith)
        requires
            x == e * q + r,
            e > 0,
            q >= 0,
    ;
}

/// Buying the whole tradable supply from none, or selling it back, costs the
/// curve's maximum XRD (up to the last atto, which the price rounds and the
/// maximum truncates), for a non-negative market cap.
pub proof fn law_cs2_whole_supply_costs_max_xrd(mc: int, mts: int)
    requires
        0 <= mc,
        0 < mts,
        cs2_max_xrd(mc, mts) is Some,
    ensures
        cs2_buy_price(mts, 0, mc, mts) is Some ==> cs2_max_xrd(mc, mts).unwrap() <= cs2_buy_price(mts, 0, mc, mts).unwrap()
            <= cs2_max_xrd(mc, mts).unwrap() + 1,
        cs2_sell_price(mts, mts, mc, mts) is Some ==> cs2_max_xrd(mc, mts).unwrap() <= cs2_sell_price(mts, mts, mc, mts).unwrap()
            <= cs2_max_xrd(mc, mts).unwrap() + 1,
{
    let e = e18();
    let p = e36();
    let a = pdec_of(mts);
    lemma_mul_inequality(0, mts, e);
    assert(pdec_powi(0, 3) == Some(0int));
    lemma_pdec_cube_le(0, a);
    let d = pdec_powi(a, 3).unwrap();
    let m = cs2_multiplier(mc, mts).unwrap();
    lemma_mul_inequality(0, mc, e);
    lemma_mul_inequality(0, pdec_of(mc), p);
    lemma_tdiv_monotone(0, pdec_of(mc) * p, d);
    assert(0 <= m);
    lemma_mul_inequality(0, m, p);
    lemma_tdiv_monotone(0, m * p, 3 * p);
    let f = pdec_div(m, 3 * p).unwrap();
    lemma_mul_inequality(0, f, d);
    lemma_tdiv_monotone(0, f * d, p);
    let x = pdec_mul(f, d).unwrap();
    assert(0 <= x);
    assert(pdec_of(0) == 0);
    assert(pdec_sub(a, a) == Some(0int));
    assert(pdec_sub(d, 0) == Some(d));
    if cs2_buy_price(mts, 0, mc, mts) is Some {
        assert(pdec_add(pdec_of(0), a) == Some(a));
        assert(cs2_area(m, pdec_add(pdec_of(0), pdec_of(mts)), Some(pdec_of(0))) == Some(x));
        lemma_finish_near_truncation(x);
    }
    if cs2_sell_price(mts, mts, mc, mts) is Some {
        assert(cs2_area(m, Some(a), pdec_sub(a, a)) == Some(x));
        lemma_finish_near_truncation(x);
    }
}

/// For a positive tradable supply, the multiplier of a non-negative market
/// cap is not negative.
proof fn lemma_multiplier_nonneg(mc: int, mts: int)
    requires
        0 <= mc,
        0 < mts,
        cs2_multiplier(mc, mts) is Some,
    ensures
        0 <= cs2_multiplier(mc, mts).unwrap(),
{
    lemma_multiplier_by_cap(0, mc, mts);
    lemma_mul_inequality(0, mts, e18());
    lemma_tdiv_monotone(0, 0, pdec_powi(pdec_of(mts), 3).unwrap());
}

/// The price of a token at a supply never falls as the market cap grows.
pub proof fn law_cs2_price_grows_with_market_cap(s: int, mc1: int, mc2: int, mts: int)
    requires
        0 < mts,
        mc1 <= mc2,
        cs2_price(s, mc1, mts) is Some,
        cs2_price(s, mc2, mts) is Some,
    ensures
        cs2_price(s, mc1, mts).unwrap() <= cs2_price(s, mc2, mts).unwrap(),
{
    lemma_multiplier_by_cap(mc1, mc2, mts);
    let m1 = cs2_multiplier(mc1, mts).unwrap();
    let m2 = cs2_multiplier(mc2, mts).unwrap();
    let a = pdec_of(s);
    assert(0 <= a * a) by (nonlinear_arith);
    lemma_tdiv_monotone(0, a * a, e36());
    let sq = pdec_powi(a, 2).unwrap();
    lemma_mul_inequality(m1, m2, sq);
    lemma_tdiv_monotone(m1 * sq, m2 * sq, e36());
    lemma_tdiv_monotone(pdec_mul(m1, sq).unwrap(), pdec_mul(m2, sq).unwrap(), e18());
}

/// For a non-negative market cap and supply, the same XRD never buys more
/// tokens when the market cap is larger.
pub proof fn law_cs2_tokens_received_fall_with_market_cap(x: int, s: int, mc1: int, mc2: int, mts: int)
    requires
        0 <= mc1 <= mc2,
        0 < mts,
        cs2_tokens_received(x, s, mc1, mts) is Some,
        cs2_tokens_received(x, s, mc2, mts) is Some,
    ensures
        cs2_tokens_received(x, s, mc2, mts).unwrap() <= cs2_tokens_received(x, s, mc1, mts).unwrap(),
{
    if x > 0 {
        lemma_multiplier_by_cap(mc1, mc2, mts);
        lemma_multiplier_nonneg(mc1, mts);
        let m1 = cs2_multiplier(mc1, mts).unwrap();
        let m2 = cs2_multiplier(mc2, mts).unwrap();
        let p = e36();
        lemma_mul_inequality(0, x, e18());
        lemma_mul_inequality(0, pdec_of(x), p);
        lemma_div_is_ordered_by_denominator(pdec_of(x) * p, m1, m2);
        let q1 = pdec_div(pdec_of(x), m1).unwrap();
        let q2 = pdec_div(pdec_of(x), m2).unwrap();
        assert(q2 <= q1);
        lemma_mul_inequality(q2, q1, 3 * p);
        lemma_tdiv_monotone(q2 * (3 * p), q1 * (3 * p), p);
        let f1 = pdec_mul(q1, 3 * p).unwrap();
        let f2 = pdec_mul(q2, 3 * p).unwrap();
        let second = pdec_powi(pdec_of(s), 3).unwrap();
        let sum1 = pdec_add(f1, second).unwrap();
        let sum2 = pdec_add(f2, second).unwrap();
        lemma_pdec_cbrt_monotone(sum2, sum1);
        lemma_finish_monotone(pdec_cbrt(sum2) - pdec_of(s), pdec_cbrt(sum1) - pdec_of(s));
    }
}

/// For a non-negative market cap, receiving the same XRD never takes more
/// tokens when the market cap is larger.
pub proof fn law_cs2_tokens_to_sell_fall_with_market_cap(x: int, s: int, mc1: int, mc2: int, mts: int)
    requires
        0 <= mc1 <= mc2,
        0 < mts,
        cs2_tokens_to_sell(x, s, mc1, mts) is Some,
        cs2_tokens_to_sell(x, s, mc2, mts) is Some,
    ensures
        cs2_tokens_to_sell(x, s, mc2, mts).unwrap() <= cs2_tokens_to_sell(x, s, mc1, mts).unwrap(),
{
    if x > 0 {
        lemma_multiplier_by_cap(mc1, mc2, mts);
        lemma_multiplier_nonneg(mc1, mts);
        let m1 = cs2_multiplier(mc1, mts).unwrap();
        let m2 = cs2_multiplier(mc2, mts).unwrap();
        let p = e36();
        lemma_mul_inequality(0, x, e18());
        lemma_mul_inequality(0, pdec_of(x), 3 * p);
        lemma_tdiv_monotone(0, pdec_of(x) * (3 * p), p);
        let t = pdec_mul(pdec_of(x), 3 * p).unwrap();
        lemma_mul_inequality(0, t, p);
        lemma_div_is_ordered_by_denominator(t * p, m1, m2);
        let f1 = pdec_div(t, m1).unwrap();
        let f2 = pdec_div(t, m2).unwrap();
        assert(f2 <= f1);
        let second = pdec_powi(pdec_of(s), 3).unwrap();
        let th1 = pdec_sub(second, f1).unwrap();
        let th2 = pdec_sub(second, f2).unwrap();
        lemma_pdec_cbrt_monotone(th1, th2);
        lemma_finish_monotone(pdec_of(s) - pdec_cbrt(th2), pdec_of(s) - pdec_cbrt(th1));
    }
}

} // verus!
