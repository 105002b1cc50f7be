//! Bonding-curve calculators and the cs2 curve, `price = m * supply^2` with
//! `m = max_xrd_market_cap / max_token_supply_to_trade^3`.
//!
//! A calculator answers in `Option<Dec>`: `None` where the engine's arithmetic
//! overflows, which aborts the transaction that asked.
use crate::address::Address;
use crate::decimal::{
    dec_of_pdec, e36, opt_val, pdec_add, pdec_cbrt, pdec_div, pdec_mul, pdec_of, pdec_powi,
    pdec_round18, pdec_sub, popt_val, Dec, PDec,
};
use crate::radix::{
    dec_from_pdec, pdec_checked_add, pdec_checked_cbrt, pdec_checked_div, pdec_checked_div_int,
    pdec_checked_mul, pdec_checked_mul_int, pdec_checked_powi, pdec_checked_round18,
    pdec_checked_sub, pdec_from_dec,
};
use vstd::prelude::*;

verus! {

/// The interface of a curve calculator component. A calculator's answers
/// depend on its kind only, not on which component of that kind answers.
pub trait CurveCalcsAdaptor: Sized {
    /// The price of one token at a supply.
    spec fn spec_price(supply: int, max_xrd_market_cap: int, max_token_supply_to_trade: int) -> Option<int>;

    /// The XRD to pay for `new_tokens` more tokens at a supply.
    spec fn spec_buy_price(new_tokens: int, supply: int, max_xrd_market_cap: int, max_token_supply_to_trade: int) -> Option<int>;

    /// The tokens that `xrd_received` XRD buys at a supply.
    spec fn spec_tokens_received(xrd_received: int, supply: int, max_xrd_market_cap: int, max_token_supply_to_trade: int) -> Option<int>;

    /// The XRD that selling `sell_tokens` tokens returns at a supply.
    spec fn spec_sell_price(sell_tokens: int, supply: int, max_xrd_market_cap: int, max_token_supply_to_trade: int) -> Option<int>;

    /// The tokens to sell at a supply to receive `xrd_required` XRD.
    spec fn spec_tokens_to_sell(xrd_required: int, supply: int, max_xrd_market_cap: int, max_token_supply_to_trade: int) -> Option<int>;

    /// The XRD taken in when the whole tradable supply has been bought.
    spec fn spec_max_xrd(max_xrd_market_cap: int, max_token_supply_to_trade: int) -> Option<int>;

    /// The calculator's own address.
    spec fn spec_address(&self) -> Seq<u8>;

    fn address(&self) -> (r: Address)
        ensures
            r@ == self.spec_address(),
    ;

    /// The calculator at an address.
    fn from_address(address: Address) -> (r: Self)
        ensures
            r.spec_address() == address@,
    ;

    fn calculate_price(&self, supply: Dec, max_xrd_market_cap: Dec, max_token_supply_to_trade: Dec) -> (r: Option<Dec>)
        ensures
            opt_val(r) == Self::spec_price(supply.val(), max_xrd_market_cap.val(), max_token_supply_to_trade.val()),
    ;

    fn calculate_buy_price(&self, new_tokens: Dec, supply: Dec, max_xrd_market_cap: Dec, max_token_supply_to_trade: Dec) -> (r: Option<Dec>)
        ensures
            opt_val(r) == Self::spec_buy_price(new_tokens.val(), supply.val(), max_xrd_market_cap.val(), max_token_supply_to_trade.val()),
    ;

    fn calculate_tokens_received(&self, xrd_received: Dec, supply: Dec, max_xrd_market_cap: Dec, max_token_supply_to_trade: Dec) -> (r: Option<Dec>)
        ensures
            opt_val(r) == Self::spec_tokens_received(xrd_received.val(), supply.val(), max_xrd_market_cap.val(), max_token_supply_to_trade.val()),
    ;

    fn calculate_sell_price(&self, sell_tokens: Dec, supply: Dec, max_xrd_market_cap: Dec, max_token_supply_to_trade: Dec) -> (r: Option<Dec>)
        ensures
            opt_val(r) == Self::spec_sell_price(sell_tokens.val(), supply.val(), max_xrd_market_cap.val(), max_token_supply_to_trade.val()),
    ;

    fn calculate_tokens_to_sell(&self, xrd_required: Dec, supply: Dec, max_xrd_market_cap: Dec, max_token_supply_to_trade: Dec) -> (r: Option<Dec>)
        ensures
            opt_val(r) == Self::spec_tokens_to_sell(xrd_required.val(), supply.val(), max_xrd_market_cap.val(), max_token_supply_to_trade.val()),
    ;

    fn calculate_max_xrd(&self, max_xrd_market_cap: Dec, max_token_supply_to_trade: Dec) -> (r: Option<Dec>)
        ensures
            opt_val(r) == Self::spec_max_xrd(max_xrd_market_cap.val(), max_token_supply_to_trade.val()),
    ;
}

/// `m = mc / mts^3` in precise decimals.
pub open spec fn cs2_multiplier(mc: int, mts: int) -> Option<int> {
    let divisor = pdec_powi(pdec_of(mts), 3);
    if divisor is Some {
        pdec_div(pdec_of(mc), divisor.unwrap())
    } else {
        None
    }
}

/// The last two steps of every cs2 amount: round to 18 places, half away from
/// zero, then narrow to a `Decimal`.
pub open spec fn cs2_finish(x: Option<int>) -> Option<int> {
    if x is Some {
        let rounded = pdec_round18(x.unwrap());
        if rounded is Some {
            dec_of_pdec(rounded.unwrap())
        } else {
            None
        }
    } else {
        None
    }
}

/// `m * s^2`, truncated to a `Decimal`.
pub open spec fn cs2_price(s: int, mc: int, mts: int) -> Option<int> {
    let m = cs2_multiplier(mc, mts);
    let sq = pdec_powi(pdec_of(s), 2);
    if m is Some && sq is Some {
        let p = pdec_mul(m.unwrap(), sq.unwrap());
        if p is Some {
            dec_of_pdec(p.unwrap())
        } else {
            None
        }
    } else {
        None
    }
}

/// `(m / 3) * (a^3 - b^3)`: the area under the curve between supplies `b` and
/// `a`, given in precise decimals.
pub open spec fn cs2_area(m: int, a: Option<int>, b: Option<int>) -> Option<int> {
    let first = pdec_div(m, 3 * e36());
    if a is Some && b is Some {
        let second = pdec_powi(a.unwrap(), 3);
        let third = pdec_powi(b.unwrap(), 3);
        if first is Some && second is Some && third is Some {
            let fourth = pdec_sub(second.unwrap(), third.unwrap());
            if fourth is Some {
                pdec_mul(first.unwrap(), fourth.unwrap())
            } else {
                None
            }
        } else {
            None
        }
    } else {
        None
    }
}

/// Buying `n` tokens at supply `s` costs the area between `s` and `s + n`.
pub open spec fn cs2_buy_price(n: int, s: int, mc: int, mts: int) -> Option<int> {
    let m = cs2_multiplier(mc, mts);
    if m is None {
        None
    } else if n <= 0 {
        Some(0)
    } else {
        cs2_finish(cs2_area(m.unwrap(), pdec_add(pdec_of(s), pdec_of(n)), Some(pdec_of(s))))
    }
}

/// Selling `n` tokens at supply `s` returns the area between `s - n` and `s`.
pub open spec fn cs2_sell_price(n: int, s: int, mc: int, mts: int) -> Option<int> {
    let m = cs2_multiplier(mc, mts);
    if m is None {
        None
    } else if n <= 0 {
        Some(0)
    } else {
        cs2_finish(cs2_area(m.unwrap(), Some(pdec_of(s)), pdec_sub(pdec_of(s), pdec_of(n))))
    }
}

/// `x` XRD buys `cbrt(3x/m + s^3) - s` tokens at supply `s`.
pub open spec fn cs2_tokens_received(x: int, s: int, mc: int, mts: int) -> Option<int> {
    let m = cs2_multiplier(mc, mts);
    if m is None {
        None
    } else if x <= 0 {
        Some(0)
    } else {
        let q = pdec_div(pdec_of(x), m.unwrap());
        let first = if q is Some { pdec_mul(q.unwrap(), 3 * e36()) } else { None };
        let second = pdec_powi(pdec_of(s), 3);
        if first is Some && second is Some {
            let sum = pdec_add(first.unwrap(), second.unwrap());
            if sum is Some {
                cs2_finish(pdec_sub(pdec_cbrt(sum.unwrap()), pdec_of(s)))
            } else {
                None
            }
        } else {
            None
        }
    }
}

/// Receiving `x` XRD at supply `s` takes selling `s - cbrt(s^3 - 3x/m)` tokens.
pub open spec fn cs2_tokens_to_sell(x: int, s: int, mc: int, mts: int) -> Option<int> {
    if x <= 0 {
        Some(0)
    } else {
        let m = cs2_multiplier(mc, mts);
        let t = pdec_mul(pdec_of(x), 3 * e36());
        let first = if m is Some && t is Some { pdec_div(t.unwrap(), m.unwrap()) } else { None };
        let second = pdec_powi(pdec_of(s), 3);
        if first is Some && second is Some {
            let third = pdec_sub(second.unwrap(), first.unwrap());
            if third is Some {
                cs2_finish(pdec_sub(pdec_of(s), pdec_cbrt(third.unwrap())))
            } else {
                None
            }
        } else {
            None
        }
    }
}

/// `(m / 3) * mts^3`, truncated to a `Decimal`.
pub open spec fn cs2_max_xrd(mc: int, mts: int) -> Option<int> {
    let m = cs2_multiplier(mc, mts);
    if m is Some {
        let first = pdec_div(m.unwrap(), 3 * e36());
        let second = pdec_powi(pdec_of(mts), 3);
        if first is Some && second is Some {
            let p = pdec_mul(first.unwrap(), second.unwrap());
            if p is Some {
                dec_of_pdec(p.unwrap())
            } else {
                None
            }
        } else {
            None
        }
    } else {
        None
    }
}

/// `mc / mts^3` as a precise decimal; `None` where the engine overflows or
/// divides by zero.
pub fn calculate_multiplier(max_xrd_market_cap: Dec, max_token_supply_to_trade: Dec) -> (r: Option<PDec>)
    ensures
        popt_val(r) == cs2_multiplier(max_xrd_market_cap.val(), max_token_supply_to_trade.val()),
{
    let divisor = pdec_checked_powi(pdec_from_dec(max_token_supply_to_trade), 3)?;
    pdec_checked_div(pdec_from_dec(max_xrd_market_cap), divisor)
}

/// Rounds a precise amount to 18 places, half away from zero, and narrows it to a `Decimal`.
fn finish(x: PDec) -> (r: Option<Dec>)
    ensures
        opt_val(r) == cs2_finish(Some(x.val())),
{
    let rounded = pdec_checked_round18(x)?;
    dec_from_pdec(rounded)
}

/// `(m / 3) * (a^3 - b^3)` as a precise decimal.
fn area(m: PDec, a: PDec, b: PDec) -> (r: Option<PDec>)
    ensures
        popt_val(r) == cs2_area(m.val(), Some(a.val()), Some(b.val())),
{
    let first = pdec_checked_div_int(m, 3)?;
    let second = pdec_checked_powi(a, 3)?;
    let third = pdec_checked_powi(b, 3)?;
    let fourth = pdec_checked_sub(second, third)?;
    pdec_checked_mul(first, fourth)
}

/// The cs2 curve calculator: its name is "cs2".
pub struct CurveCs2Calcs {
    pub name: String,
    pub address: Address,
}

impl CurveCs2Calcs {
    /// A calculator at `address`.
    pub fn new(address: Address) -> (r: CurveCs2Calcs)
        ensures
            r.address@ == address@,
            r.name@ == "cs2"@,
    {
        CurveCs2Calcs { name: String::from_str("cs2"), address }
    }
}

impl CurveCalcsAdaptor for CurveCs2Calcs {
    open spec fn spec_price(supply: int, max_xrd_market_cap: int, max_token_supply_to_trade: int) -> Option<int> {
        cs2_price(supply, max_xrd_market_cap, max_token_supply_to_trade)
    }

    open spec fn spec_buy_price(new_tokens: int, supply: int, max_xrd_market_cap: int, max_token_supply_to_trade: int) -> Option<int> {
        cs2_buy_price(new_tokens, supply, max_xrd_market_cap, max_token_supply_to_trade)
    }

    open spec fn spec_tokens_received(xrd_received: int, supply: int, max_xrd_market_cap: int, max_token_supply_to_trade: int) -> Option<int> {
        cs2_tokens_received(xrd_received, supply, max_xrd_market_cap, max_token_supply_to_trade)
    }

    open spec fn spec_sell_price(sell_tokens: int, supply: int, max_xrd_market_cap: int, max_token_supply_to_trade: int) -> Option<int> {
        cs2_sell_price(sell_tokens, supply, max_xrd_market_cap, max_token_supply_to_trade)
    }

    open spec fn spec_tokens_to_sell(xrd_required: int, supply: int, max_xrd_market_cap: int, max_token_supply_to_trade: int) -> Option<int> {
        cs2_tokens_to_sell(xrd_required, supply, max_xrd_market_cap, max_token_supply_to_trade)
    }

    open spec fn spec_max_xrd(max_xrd_market_cap: int, max_token_supply_to_trade: int) -> Option<int> {
        cs2_max_xrd(max_xrd_market_cap, max_token_supply_to_trade)
    }

    open spec fn spec_address(&self) -> Seq<u8> {
        self.address@
    }

    fn address(&self) -> (r: Address) {
        self.address.copy()
    }

    fn from_address(address: Address) -> (r: Self) {
        CurveCs2Calcs::new(address)
    }

    fn calculate_price(&self, supply: Dec, max_xrd_market_cap: Dec, max_token_supply_to_trade: Dec) -> (r: Option<Dec>) {
        let multiplier = calculate_multiplier(max_xrd_market_cap, max_token_supply_to_trade)?;
        let sq = pdec_checked_powi(pdec_from_dec(supply), 2)?;
        let p = pdec_checked_mul(multiplier, sq)?;
        dec_from_pdec(p)
    }

    fn calculate_buy_price(&self, new_tokens: Dec, supply: Dec, max_xrd_market_cap: Dec, max_token_supply_to_trade: Dec) -> (r: Option<Dec>) {
        let multiplier = calculate_multiplier(max_xrd_market_cap, max_token_supply_to_trade)?;
        if new_tokens.is_positive() {
            let precise_supply = pdec_from_dec(supply);
            let new_supply = pdec_checked_add(precise_supply, pdec_from_dec(new_tokens))?;
            let price = area(multiplier, new_supply, precise_supply)?;
            finish(price)
        } else {
            Some(Dec::zero())
        }
    }

    fn calculate_tokens_received(&self, xrd_received: Dec, supply: Dec, max_xrd_market_cap: Dec, max_token_supply_to_trade: Dec) -> (r: Option<Dec>) {
        let multiplier = calculate_multiplier(max_xrd_market_cap, max_token_supply_to_trade)?;
        if xrd_received.is_positive() {
            let precise_xrd = pdec_from_dec(xrd_received);
            let precise_supply = pdec_from_dec(supply);
            let q = pdec_checked_div(precise_xrd, multiplier)?;
            let first = pdec_checked_mul_int(q, 3)?;
            let second = pdec_checked_powi(precise_supply, 3)?;
            let sum = pdec_checked_add(first, second)?;
            let third = pdec_checked_cbrt(sum)?;
            let result = pdec_checked_sub(third, precise_supply)?;
            finish(result)
        } else {
            Some(Dec::zero())
        }
    }

    fn calculate_sell_price(&self, sell_tokens: Dec, supply: Dec, max_xrd_market_cap: Dec, max_token_supply_to_trade: Dec) -> (r: Option<Dec>) {
        let multiplier = calculate_multiplier(max_xrd_market_cap, max_token_supply_to_trade)?;
        if sell_tokens.is_positive() {
            let precise_supply = pdec_from_dec(supply);
            let new_supply = pdec_checked_sub(precise_supply, pdec_from_dec(sell_tokens))?;
            let price = area(multiplier, precise_supply, new_supply)?;
            finish(price)
        } else {
            Some(Dec::zero())
        }
    }

    fn calculate_tokens_to_sell(&self, xrd_required: Dec, supply: Dec, max_xrd_market_cap: Dec, max_token_supply_to_trade: Dec) -> (r: Option<Dec>) {
        if xrd_required.is_positive() {
            let multiplier = calculate_multiplier(max_xrd_market_cap, max_token_supply_to_trade)?;
            let precise_xrd = pdec_from_dec(xrd_required);
            let precise_supply = pdec_from_dec(supply);
            let t = pdec_checked_mul_int(precise_xrd, 3)?;
            let first = pdec_checked_div(t, multiplier)?;
            let second = pdec_checked_powi(precise_supply, 3)?;
            let third = pdec_checked_sub(second, first)?;
            let fourth = pdec_checked_cbrt(third)?;
            let result = pdec_checked_sub(precise_supply, fourth)?;
            finish(result)
        } else {
            Some(Dec::zero())
        }
    }

    fn calculate_max_xrd(&self, max_xrd_market_cap: Dec, max_token_supply_to_trade: Dec) -> (r: Option<Dec>) {
        let multiplier = calculate_multiplier(max_xrd_market_cap, max_token_supply_to_trade)?;
        let first = pdec_checked_div_int(multiplier, 3)?;
        let second = pdec_checked_powi(pdec_from_dec(max_token_supply_to_trade), 3)?;
        let p = pdec_checked_mul(first, second)?;
        dec_from_pdec(p)
    }
}

} // verus!
