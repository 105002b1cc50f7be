//! What each trade takes and gives, in terms of the curve's own answers: a
//! buy gets the curve's tokens for the XRD after its fee, an exact purchase
//! costs the curve's buy price of the tokens plus the trade fee on that price,
//! a sale pays the curve's sell price less the fee on it, a sale for an exact
//! XRD amount burns the curve's tokens to sell for that amount and its fee, a
//! launch reserves for the dex pool the tokens that price the pool's XRD at
//! the final market cap, the listing hands the pool its XRD and splits the
//! rest by the two fees, and a fair launch receipt claims its pro-rata share
//! of the unclaimed tokens.
use crate::curve::CurveCalcsAdaptor;
use crate::decimal::{abs, dec_mul, e18, tdiv};
use vstd::arithmetic::div_mod::{lemma_fundamental_div_mod, lemma_mod_bound};
use vstd::arithmetic::mul::lemma_mul_inequality;
use crate::ledger::TxError;
use crate::token_curve::{
    s_buy, s_buy_amount, s_buy_amount_apply, s_buy_amount_price, s_claim_all, s_claim_fair_launch, s_claim_step, s_fair_flag,
    s_list_prepare, s_listing_fees, s_new_books, s_sell, s_sell_for_xrd_amount, slack, BooksView, TradeView,
};
use vstd::prelude::*;

verus! {

/// The curve's price for buying `amount` tokens at the books' supply.
pub open spec fn curve_buy_price<C: CurveCalcsAdaptor>(v: BooksView, amount: int) -> Option<int> {
    C::spec_buy_price(amount, v.current_supply, v.max_xrd_market_cap, v.max_token_supply_to_trade)
}

/// The XRD that goes into the vault for a purchase priced `p`: the price,
/// or what is left up to `max_xrd` where the price passes it.
pub open spec fn vault_share(v: BooksView, p: int) -> int {
    if v.xrd_vault + p > v.max_xrd {
        v.max_xrd - v.xrd_vault
    } else {
        p
    }
}

/// `buy_amount` of `amount > 0` tokens charges the curve's buy price `p` of
/// those tokens at the current supply and a fee of `p * tx_fee_perc`: the
/// bucket covered both, the change is the bucket less the fee and the XRD
/// paid into the vault (the price, cut to what fills the vault up to
/// `max_xrd` when it passes it by no more than the rounding slack), and,
/// unless the trade listed the token, the fee vault grows by exactly the fee.
pub proof fn law_buy_amount_pays_price_and_fee<C: CurveCalcsAdaptor>(
    v: BooksView,
    listed: bool,
    has_dex: bool,
    is_xrd: bool,
    amount: int,
    in_amount: int,
    tip: int,
    now: int,
)
    requires
        amount > 0,
        s_buy_amount::<C>(v, listed, has_dex, is_xrd, amount, in_amount, tip, now) is Ok,
    ensures
        ({
            let (v2, t) = s_buy_amount::<C>(v, listed, has_dex, is_xrd, amount, in_amount, tip, now).unwrap();
            let p = curve_buy_price::<C>(v, amount);
            let fee = dec_mul(p.unwrap(), v.tx_fee_perc);
            let cost = vault_share(v, p.unwrap());
            &&& p is Some
            &&& fee is Some
            &&& p.unwrap() + fee.unwrap() <= in_amount
            &&& v.xrd_vault + p.unwrap() - v.max_xrd <= slack()
            &&& t.change == in_amount - fee.unwrap() - cost
            &&& t.listing is None ==> v2.fee_vault == v.fee_vault + fee.unwrap() && v2.xrd_vault == v.xrd_vault + cost
            &&& t.out_amount == if t.out_is_receipt { e18() } else { amount }
            &&& t.receipt_xrd == if t.out_is_receipt { Some(cost) } else { None }
        }),
{
    let fair = s_fair_flag(v, now).unwrap();
    let v1 = BooksView { in_fair_launch_period: fair, ..v };
    let (fee, req) = s_buy_amount_price::<C>(v1, amount, in_amount).unwrap();
    let (va, change) = s_buy_amount_apply::<C>(v1, amount, in_amount, fee, req).unwrap();
    assert(va.fee_vault == v.fee_vault + fee);
}

/// `buy_amount` turns a bucket away as too small only when it holds less
/// than the curve's buy price `p` of the tokens plus the fee `p * tx_fee_perc`.
pub proof fn law_buy_amount_refuses_only_short_buckets<C: CurveCalcsAdaptor>(
    v: BooksView,
    listed: bool,
    has_dex: bool,
    is_xrd: bool,
    amount: int,
    in_amount: int,
    tip: int,
    now: int,
)
    requires
        s_buy_amount::<C>(v, listed, has_dex, is_xrd, amount, in_amount, tip, now) == Err::<(BooksView, TradeView), TxError>(
            TxError::NotEnoughXrdSent,
        ),
    ensures
        ({
            let p = curve_buy_price::<C>(v, amount);
            let fee = dec_mul(p.unwrap(), v.tx_fee_perc);
            &&& amount > 0
            &&& p is Some
            &&& fee is Some
            &&& p.unwrap() + fee.unwrap() > in_amount
        }),
{
    let fair = s_fair_flag(v, now).unwrap();
    let v1 = BooksView { in_fair_launch_period: fair, ..v };
    let pr = s_buy_amount_price::<C>(v1, amount, in_amount);
    if pr is Ok {
        let (fee, req) = pr.unwrap();
        let ap = s_buy_amount_apply::<C>(v1, amount, in_amount, fee, req);
        assert(ap is Ok);
    }
}

/// The fee a `buy` with a bucket of `amount` XRD takes: `tx_fee_perc` of the
/// bucket, or of the XRD still available below `max_xrd` when the bucket holds
/// more.
pub open spec fn buy_fee(v: BooksView, amount: int) -> Option<int> {
    let avail = v.max_xrd - v.xrd_vault;
    if amount > avail {
        dec_mul(avail, v.tx_fee_perc)
    } else {
        dec_mul(amount, v.tx_fee_perc)
    }
}

/// The XRD that a `buy` with a bucket of `amount` XRD spends on tokens after
/// the fee `fee`: the rest of the bucket, at most what is still available
/// below `max_xrd`.
pub open spec fn buy_spend(v: BooksView, amount: int, fee: int) -> int {
    let avail = v.max_xrd - v.xrd_vault;
    if amount > avail && amount - fee >= avail {
        avail
    } else {
        amount - fee
    }
}

/// The tokens the curve gives for `x` XRD at the books' supply, cut to what
/// is left of the tradable supply where the answer passes it.
pub open spec fn curve_tokens_for(v: BooksView, r: int) -> int {
    if v.current_supply + r > v.max_token_supply_to_trade {
        v.max_token_supply_to_trade - v.current_supply
    } else {
        r
    }
}

/// A `buy` with a bucket of `amount` XRD takes the fee `buy_fee` into the fee
/// vault, spends `x = buy_spend` on tokens and hands back the rest; for
/// `x > 0` the tokens are the curve's tokens received for `x` at the current
/// supply (cut to the tradable supply when they pass it by no more than the
/// rounding slack), handed out, or held against one receipt for `x` during
/// the fair launch period.
pub proof fn law_buy_gets_curve_tokens<C: CurveCalcsAdaptor>(
    v: BooksView,
    listed: bool,
    has_dex: bool,
    is_xrd: bool,
    amount: int,
    tip: int,
    now: int,
)
    requires
        s_buy::<C>(v, listed, has_dex, is_xrd, amount, tip, now) is Ok,
    ensures
        ({
            let (v2, t) = s_buy::<C>(v, listed, has_dex, is_xrd, amount, tip, now).unwrap();
            let fee = buy_fee(v, amount);
            let x = buy_spend(v, amount, fee.unwrap());
            let r = C::spec_tokens_received(x, v.current_supply, v.max_xrd_market_cap, v.max_token_supply_to_trade);
            let got = curve_tokens_for(v, r.unwrap());
            &&& fee is Some
            &&& t.change == if x > 0 { amount - fee.unwrap() - x } else { amount - fee.unwrap() }
            &&& t.listing is None ==> v2.fee_vault == v.fee_vault + fee.unwrap()
            &&& x > 0 ==> {
                &&& r is Some
                &&& v.current_supply + r.unwrap() - v.max_token_supply_to_trade <= slack()
                &&& t.out_amount == if t.out_is_receipt { e18() } else { got }
                &&& t.receipt_xrd == if t.out_is_receipt { Some(x) } else { None }
                &&& t.listing is None ==> v2.current_supply == v.current_supply + got && v2.xrd_vault == v.xrd_vault + x
            }
        }),
{
}

/// A `sell` of `n > 0` tokens pays out the curve's sell price `p` of those
/// tokens at the current supply (cut to the XRD vault when it passes it by
/// no more than the rounding slack) less a fee of `p * tx_fee_perc`, which
/// goes to the fee vault; the supply falls by `n`.
pub proof fn law_sell_pays_curve_price_less_fee<C: CurveCalcsAdaptor>(v: BooksView, is_token: bool, n: int, tip: int, now: int)
    requires
        n > 0,
        s_sell::<C>(v, is_token, n, tip, now) is Ok,
    ensures
        ({
            let (v2, t) = s_sell::<C>(v, is_token, n, tip, now).unwrap();
            let p0 = C::spec_sell_price(n, v.current_supply, v.max_xrd_market_cap, v.max_token_supply_to_trade);
            let p = if p0.unwrap() > v.xrd_vault { v.xrd_vault } else { p0.unwrap() };
            let fee = dec_mul(p, v.tx_fee_perc);
            &&& p0 is Some
            &&& p0.unwrap() - v.xrd_vault <= slack()
            &&& fee is Some
            &&& t.out_amount == p - fee.unwrap()
            &&& v2.fee_vault == v.fee_vault + fee.unwrap()
            &&& v2.xrd_vault == v.xrd_vault - p
            &&& v2.current_supply == v.current_supply - n
            &&& t.change == 0
        }),
{
}

/// The curve's tokens to sell at the books' supply to receive `x` XRD.
pub open spec fn curve_tokens_to_sell<C: CurveCalcsAdaptor>(v: BooksView, x: int) -> Option<int> {
    C::spec_tokens_to_sell(x, v.current_supply, v.max_xrd_market_cap, v.max_token_supply_to_trade)
}

/// `sell_for_xrd_amount` of `amount > 0` XRD takes a fee of
/// `amount * tx_fee_perc` from the XRD vault into the fee vault, pays out
/// `amount`, and burns the curve's tokens to sell `t` for `amount` and the fee
/// at the current supply (the whole supply where `t` passes it by no more than
/// the rounding slack); the change is the bucket less the tokens burnt.
pub proof fn law_sell_for_xrd_amount_burns_curve_tokens<C: CurveCalcsAdaptor>(
    v: BooksView,
    is_token: bool,
    amount: int,
    in_amount: int,
    tip: int,
    now: int,
)
    requires
        amount > 0,
        s_sell_for_xrd_amount::<C>(v, is_token, amount, in_amount, tip, now) is Ok,
    ensures
        ({
            let (v2, t) = s_sell_for_xrd_amount::<C>(v, is_token, amount, in_amount, tip, now).unwrap();
            let fee = dec_mul(amount, v.tx_fee_perc);
            let tts = curve_tokens_to_sell::<C>(v, amount + fee.unwrap());
            let burnt = v.current_supply - v2.current_supply;
            &&& fee is Some
            &&& tts is Some
            &&& tts.unwrap() <= in_amount
            &&& (burnt == tts.unwrap() && tts.unwrap() <= v.current_supply)
                || (v.current_supply < tts.unwrap() <= v.current_supply + slack() && burnt == v.current_supply)
            &&& v2.token_total_supply == v.token_total_supply - burnt
            &&& t.change == in_amount - burnt
            &&& t.out_amount == amount
            &&& v2.xrd_vault == v.xrd_vault - amount - fee.unwrap()
            &&& v2.fee_vault == v.fee_vault + fee.unwrap()
        }),
{
}

/// `sell_for_xrd_amount` turns a bucket away as too small only when it holds
/// fewer than the curve's tokens to sell for the amount and its fee.
pub proof fn law_sell_for_xrd_amount_refuses_only_short_buckets<C: CurveCalcsAdaptor>(
    v: BooksView,
    is_token: bool,
    amount: int,
    in_amount: int,
    tip: int,
    now: int,
)
    requires
        s_sell_for_xrd_amount::<C>(v, is_token, amount, in_amount, tip, now) == Err::<(BooksView, TradeView), TxError>(
            TxError::NotEnoughTokensSupplied,
        ),
    ensures
        ({
            let fee = dec_mul(amount, v.tx_fee_perc);
            let tts = curve_tokens_to_sell::<C>(v, amount + fee.unwrap());
            &&& amount > 0
            &&& fee is Some
            &&& tts is Some
            &&& tts.unwrap() > in_amount
        }),
{
}

/// Division toward zero leaves a remainder smaller than the divisor, of the
/// sign of the dividend.
proof fn lemma_tdiv_remainder(a: int, b: int)
    requires
        b != 0,
    ensures
        -abs(b) < a - tdiv(a, b) * b < abs(b),
        a >= 0 ==> 0 <= a - tdiv(a, b) * b,
        a <= 0 ==> a - tdiv(a, b) * b <= 0,
{
    let aa = abs(a);
    let ab = abs(b);
    lemma_fundamental_div_mod(aa, ab);
    lemma_mod_bound(aa, ab);
    let q = aa / ab;
    let r = aa % ab;
    if a >= 0 && b > 0 {
        assert(a - q * b == r) by (nonlinear_arith)
            requires
                aa == ab * q + r,
                aa == a,
                ab == b,
        ;
    } else if a >= 0 {
        assert(a - (-q) * b == r) by (nonlinear_arith)
            requires
                aa == ab * q + r,
                aa == a,
                ab == -b,
        ;
    } else if b > 0 {
        assert(a - (-q) * b == -r) by (nonlinear_arith)
            requires
                aa == ab * q + r,
                aa == -a,
                ab == b,
        ;
    } else {
        assert(a - q * b == -r) by (nonlinear_arith)
            requires
                aa == ab * q + r,
                aa == -a,
                ab == -b,
        ;
    }
}

/// A launch reserves for the dex pool the tokens that price the pool's XRD
/// at the curve's final price `mc / mts`: with the pool's XRD
/// `dex_xrd = (max_xrd + virtual_supply_xrd) * (1 - listing_fee - creator_fee)`
/// and the pool's tokens `max_token_supply - mts`, `tokens * mc` and
/// `dex_xrd * mts` differ by less than `|mc|` and one unit of rounding, and
/// for a positive market cap and pool the tokens never overprice the XRD.
pub proof fn law_new_books_pool_priced_at_market_cap<C: CurveCalcsAdaptor>(
    mts: int,
    mc: int,
    vs: int,
    txp: int,
    lp: int,
    cp: int,
    mins: int,
    lock_mins: int,
    now: int,
)
    requires
        s_new_books::<C>(mts, mc, vs, txp, lp, cp, mins, lock_mins, now) is Ok,
    ensures
        ({
            let b = s_new_books::<C>(mts, mc, vs, txp, lp, cp, mins, lock_mins, now).unwrap();
            let dex_xrd = dec_mul(b.max_xrd + b.virtual_supply_xrd, e18() - lp - cp);
            let dex_tokens = b.max_token_supply - mts;
            &&& dex_xrd is Some
            &&& mc != 0
            &&& -(abs(mc) + e18()) < dex_tokens * mc - dex_xrd.unwrap() * mts < abs(mc) + e18()
            &&& (0 < mc && 0 <= dex_xrd.unwrap()) ==> dex_tokens * mc <= dex_xrd.unwrap() * mts < dex_tokens * mc + mc + e18()
        }),
{
    let b = s_new_books::<C>(mts, mc, vs, txp, lp, cp, mins, lock_mins, now).unwrap();
    let dx = dec_mul(b.max_xrd + b.virtual_supply_xrd, e18() - lp - cp).unwrap();
    let x = dx * mts;
    let t = tdiv(x, e18());
    lemma_tdiv_remainder(x, e18());
    let y = t * e18();
    lemma_tdiv_remainder(y, mc);
    let dt = tdiv(y, mc);
    assert(b.max_token_supply - mts == dt);
    if 0 < mc && 0 <= dx {
        lemma_mul_inequality(0, dx, mts);
    }
}

/// A receipt of `x` XRD, claimed while `flt` tokens and `flx` XRD are
/// unclaimed, takes its pro-rata share `c` of those tokens: `c * flx` is at
/// most `flt * x` and falls short of it by less than `flx` and one unit of
/// rounding, unless the share was cut to all that is left. The tokens and XRD
/// unclaimed fall by `c` and `x`, the tokens handed out grow by `c`, the
/// receipts' XRD by `x`.
pub proof fn law_claim_step_pro_rata(st: (int, int, int, int), x: int)
    requires
        0 <= st.0,
        0 < st.1,
        0 <= x,
        s_claim_step(st, x) is Ok,
    ensures
        ({
            let (flt, flx, out, total) = st;
            let (flt1, flx1, out1, total1) = s_claim_step(st, x).unwrap();
            let c = flt - flt1;
            &&& 0 <= c <= flt
            &&& c * flx <= flt * x
            &&& c == flt || flt * x < c * flx + flx + e18()
            &&& out1 == out + c
            &&& flx1 == flx - x
            &&& total1 == total + x
        }),
{
    let (flt, flx, out, total) = st;
    let v = flt * x;
    lemma_mul_inequality(0, flt, x);
    lemma_tdiv_remainder(v, e18());
    let p = tdiv(v, e18());
    let y = p * e18();
    lemma_tdiv_remainder(y, flx);
    let c0 = tdiv(y, flx);
    if c0 > flt {
        lemma_mul_inequality(flt, c0, flx);
    }
}

/// Claiming with a single receipt of `x` XRD after the fair launch period
/// hands out the receipt's pro-rata share of the fair launch tokens, as
/// `law_claim_step_pro_rata` states it, and leaves `fair_launch_xrd - x`
/// unclaimed.
pub proof fn law_claim_one_receipt_pro_rata(v: BooksView, is_receipt: bool, x: int, now: int)
    requires
        0 <= v.fair_launch_tokens,
        0 < v.fair_launch_xrd,
        0 <= x,
        s_claim_fair_launch(v, is_receipt, seq![x], now) is Ok,
    ensures
        ({
            let (v2, (out, total)) = s_claim_fair_launch(v, is_receipt, seq![x], now).unwrap();
            let flt = v.fair_launch_tokens;
            let flx = v.fair_launch_xrd;
            &&& out == flt - v2.fair_launch_tokens
            &&& 0 <= out <= flt
            &&& out * flx <= flt * x
            &&& out == flt || flt * x < out * flx + flx + e18()
            &&& v2.fair_launch_xrd == flx - x
            &&& total == x
        }),
{
    let st = (v.fair_launch_tokens, v.fair_launch_xrd, 0int, 0int);
    let rs = seq![x];
    assert(rs.drop_first() =~= Seq::<int>::empty());
    assert(rs[0] == x);
    law_claim_step_pro_rata(st, x);
    let st1 = s_claim_step(st, x).unwrap();
    assert(s_claim_all(st1, rs.drop_first()) == Ok::<(int, int, int, int), TxError>(st1));
    assert(s_claim_all(st, rs) == Ok::<(int, int, int, int), TxError>(st1));
}

/// Preparing the listing hands the dex the pool's XRD
/// `(max_xrd + virtual_supply_xrd) * (1 - listing_fee - creator_fee)` and
/// splits all the XRD above it between the creator and the launcher in the
/// ratio `creator_fee : listing_fee` (the creator's share times the sum of the
/// two fees is the XRD above the pool times the creator fee, to within that
/// sum and one unit of rounding). The pool's tokens are those the component
/// held and those minted up to the maximum supply, which all become supply.
pub proof fn law_listing_pays_pool_and_splits_fees(v: BooksView, listed: bool, has_dex: bool)
    requires
        s_list_prepare(v, listed, has_dex) is Ok,
    ensures
        ({
            let (v2, (tokens, xrd)) = s_list_prepare(v, listed, has_dex).unwrap();
            let lp = v.listing_fee_perc;
            let cp = v.creator_fee_perc;
            let pool = dec_mul(v.max_xrd + v.virtual_supply_xrd, e18() - lp - cp);
            let above = v.xrd_vault - pool.unwrap();
            let creator = v2.creator_fee_vault - v.creator_fee_vault;
            let launcher = v2.fee_vault - v.fee_vault;
            let to_mint = v.max_token_supply - v.current_supply - v.token_vault;
            let minted = if to_mint > 0 { to_mint } else { 0 };
            &&& pool is Some
            &&& xrd == pool.unwrap()
            &&& creator + launcher == above
            &&& lp + cp != 0
            &&& -(abs(lp + cp) + e18()) < creator * (lp + cp) - above * cp < abs(lp + cp) + e18()
            &&& tokens == v.token_vault + minted
            &&& v2.token_total_supply == v.token_total_supply + minted
            &&& v2.current_supply == v2.token_total_supply
            &&& v2.xrd_vault == 0
            &&& v2.token_vault == 0
        }),
{
    let (cf, lf) = s_listing_fees(v).unwrap();
    let lp = v.listing_fee_perc;
    let cp = v.creator_fee_perc;
    let pool = dec_mul(v.max_xrd + v.virtual_supply_xrd, e18() - lp - cp).unwrap();
    let above = v.xrd_vault - pool;
    let x = above * cp;
    lemma_tdiv_remainder(x, e18());
    let t = tdiv(x, e18());
    lemma_tdiv_remainder(t * e18(), lp + cp);
    assert(cf == tdiv(t * e18(), lp + cp));
}

} // verus!
