//! What holds of every trade of a token curve component, whatever the curve:
//! no XRD appears or disappears, the supply on the curve stays within the
//! tradable supply, the tokens minted or burnt are those handed over, fees only
//! grow, the XRD vault stays within the curve's XRD target, and fair launch
//! claims hand out no more than was bought. Also: on the
//! cs2 curve a sale returns what a purchase cost (and selling what a buy got
//! pays that price and restores the supply), a launch takes the parent's
//! fees as they were set, and the launcher's registries read back their writes.
use crate::curve::{cs2_buy_price, cs2_price, cs2_sell_price, CurveCalcsAdaptor, CurveCs2Calcs};
use crate::decimal::in_i192;
use crate::launcher::{s_change_param, s_new_token_curve, DefaultsView};
use crate::ledger::TxError;
use crate::radix::decimal_parse;
use crate::token_curve::{
    s_buy, s_buy_amount, s_buy_amount_apply, s_buy_amount_price, s_buy_split, s_buy_tokens, s_claim_all,
    s_claim_fair_launch, s_claim_step, s_insert_other, s_list_prepare, keys_unique, key_index, s_receive_tokens, s_sell, s_sell_for_xrd_amount, BooksView,
    TradeView,
};
use vstd::prelude::*;

verus! {

/// The XRD a component holds: its XRD vault and both fee vaults.
pub open spec fn xrd_held(v: BooksView) -> int {
    v.xrd_vault + v.fee_vault + v.creator_fee_vault
}

/// The XRD a trade hands to the dex for the listing, if it made one.
pub open spec fn listed_xrd(t: TradeView) -> int {
    match t.listing {
        Some((_, x)) => x,
        None => 0,
    }
}

/// Preparing the listing moves the component's XRD into the fee vaults and
/// the dex order, and loses none.
proof fn lemma_list_prepare_xrd(v: BooksView, listed: bool, has_dex: bool)
    requires
        s_list_prepare(v, listed, has_dex) is Ok,
    ensures
        ({
            let (v2, o) = s_list_prepare(v, listed, has_dex).unwrap();
            xrd_held(v2) + o.1 == xrd_held(v)
        }),
{
}

/// Buying with `x` XRD out of a bucket moves `x` from the bucket to the vault.
proof fn lemma_buy_tokens_xrd<C: CurveCalcsAdaptor>(v: BooksView, in_left: int, x: int)
    requires
        s_buy_tokens::<C>(v, in_left, x) is Ok,
    ensures
        ({
            let (v2, rest, recv) = s_buy_tokens::<C>(v, in_left, x).unwrap();
            xrd_held(v2) + rest == xrd_held(v) + in_left
        }),
{
}

/// A buy loses no XRD: what the component holds after it, the change handed
/// back and the XRD given to the dex make the XRD it held and the XRD sent.
pub proof fn law_buy_conserves_xrd<C: CurveCalcsAdaptor>(
    v: BooksView,
    listed: bool,
    has_dex: bool,
    is_xrd: bool,
    amount: int,
    tip: int,
    now: int,
)
    requires
        s_buy::<C>(v, listed, has_dex, is_xrd, amount, tip, now) is Ok,
    ensures
        ({
            let (v2, t) = s_buy::<C>(v, listed, has_dex, is_xrd, amount, tip, now).unwrap();
            xrd_held(v2) + t.change + listed_xrd(t) == xrd_held(v) + amount
        }),
{
    let fair = crate::token_curve::s_fair_flag(v, now).unwrap();
    let v1 = BooksView { in_fair_launch_period: fair, ..v };
    let available = v1.max_xrd - v1.xrd_vault;
    let (fee, x, hit) = s_buy_split(amount, available, v1.tx_fee_perc).unwrap();
    let v2 = if hit { BooksView { target_reached: now, ..v1 } } else { v1 };
    let in1 = amount - fee;
    let v3 = BooksView { fee_vault: v2.fee_vault + fee, ..v2 };
    if x > 0 {
        lemma_buy_tokens_xrd::<C>(v3, in1, x);
        let (v4, change, recv) = s_buy_tokens::<C>(v3, in1, x).unwrap();
        if v4.target_reached > 0 {
            lemma_list_prepare_xrd(v4, listed, has_dex);
        }
    } else {
        if v3.target_reached > 0 {
            lemma_list_prepare_xrd(v3, listed, has_dex);
        }
    }
}

/// `buy_amount` loses no XRD: what the component holds after it, the change
/// handed back and the XRD given to the dex make the XRD it held and the XRD
/// sent.
pub proof fn law_buy_amount_conserves_xrd<C: CurveCalcsAdaptor>(
    v: BooksView,
    listed: bool,
    has_dex: bool,
    is_xrd: bool,
    amount: int,
    in_amount: int,
    tip: int,
    now: int,
)
    requires
        s_buy_amount::<C>(v, listed, has_dex, is_xrd, amount, in_amount, tip, now) is Ok,
    ensures
        ({
            let (v2, t) = s_buy_amount::<C>(v, listed, has_dex, is_xrd, amount, in_amount, tip, now).unwrap();
            xrd_held(v2) + t.change + listed_xrd(t) == xrd_held(v) + in_amount
        }),
{
    let fair = crate::token_curve::s_fair_flag(v, now).unwrap();
    let v1 = BooksView { in_fair_launch_period: fair, ..v };
    if amount > 0 {
        let (fee, req) = s_buy_amount_price::<C>(v1, amount, in_amount).unwrap();
        let (va, change) = s_buy_amount_apply::<C>(v1, amount, in_amount, fee, req).unwrap();
        assert(xrd_held(va) + change == xrd_held(v1) + in_amount);
        if va.xrd_vault >= va.max_xrd {
            lemma_list_prepare_xrd(BooksView { target_reached: now, ..va }, listed, has_dex);
        }
    }
}

/// A sale loses no XRD: what the component holds after it and the XRD paid
/// out make the XRD it held.
pub proof fn law_sell_conserves_xrd<C: CurveCalcsAdaptor>(v: BooksView, is_token: bool, n: int, tip: int, now: int)
    requires
        s_sell::<C>(v, is_token, n, tip, now) is Ok,
    ensures
        ({
            let (v2, t) = s_sell::<C>(v, is_token, n, tip, now).unwrap();
            xrd_held(v2) + t.out_amount == xrd_held(v) && listed_xrd(t) == 0
        }),
{
}

/// `sell_for_xrd_amount` loses no XRD: what the component holds after it and
/// the XRD paid out make the XRD it held.
pub proof fn law_sell_for_xrd_amount_conserves_xrd<C: CurveCalcsAdaptor>(
    v: BooksView,
    is_token: bool,
    amount: int,
    in_amount: int,
    tip: int,
    now: int,
)
    requires
        s_sell_for_xrd_amount::<C>(v, is_token, amount, in_amount, tip, now) is Ok,
    ensures
        ({
            let (v2, t) = s_sell_for_xrd_amount::<C>(v, is_token, amount, in_amount, tip, now).unwrap();
            xrd_held(v2) + t.out_amount == xrd_held(v) && listed_xrd(t) == 0
        }),
{
}

/// The supply on the curve lies between zero and the tradable supply.
pub open spec fn supply_in_range(v: BooksView) -> bool {
    0 <= v.current_supply <= v.max_token_supply_to_trade
}

/// The tokens a purchase of `x` XRD gets keep the supply within the
/// tradable supply.
proof fn lemma_receive_tokens_in_range<C: CurveCalcsAdaptor>(v: BooksView, x: int)
    requires
        v.current_supply <= v.max_token_supply_to_trade,
        s_receive_tokens::<C>(v, x) is Ok,
    ensures
        v.current_supply + s_receive_tokens::<C>(v, x).unwrap() <= v.max_token_supply_to_trade,
{
}

/// A buy that does not list the token keeps the supply on the curve between
/// zero and the tradable supply.
pub proof fn law_buy_keeps_supply_in_range<C: CurveCalcsAdaptor>(
    v: BooksView,
    listed: bool,
    has_dex: bool,
    is_xrd: bool,
    amount: int,
    tip: int,
    now: int,
)
    requires
        supply_in_range(v),
        s_buy::<C>(v, listed, has_dex, is_xrd, amount, tip, now) is Ok,
        s_buy::<C>(v, listed, has_dex, is_xrd, amount, tip, now).unwrap().1.listing is None,
    ensures
        supply_in_range(s_buy::<C>(v, listed, has_dex, is_xrd, amount, tip, now).unwrap().0),
{
    let fair = crate::token_curve::s_fair_flag(v, now).unwrap();
    let v1 = BooksView { in_fair_launch_period: fair, ..v };
    let available = v1.max_xrd - v1.xrd_vault;
    let (fee, x, hit) = s_buy_split(amount, available, v1.tx_fee_perc).unwrap();
    let v2 = if hit { BooksView { target_reached: now, ..v1 } } else { v1 };
    let v3 = BooksView { fee_vault: v2.fee_vault + fee, ..v2 };
    if x > 0 {
        lemma_receive_tokens_in_range::<C>(v3, x);
    }
}

/// A `buy_amount` that does not list the token keeps the supply on the curve
/// between zero and the tradable supply.
pub proof fn law_buy_amount_keeps_supply_in_range<C: CurveCalcsAdaptor>(
    v: BooksView,
    listed: bool,
    has_dex: bool,
    is_xrd: bool,
    amount: int,
    in_amount: int,
    tip: int,
    now: int,
)
    requires
        supply_in_range(v),
        s_buy_amount::<C>(v, listed, has_dex, is_xrd, amount, in_amount, tip, now) is Ok,
        s_buy_amount::<C>(v, listed, has_dex, is_xrd, amount, in_amount, tip, now).unwrap().1.listing is None,
    ensures
        supply_in_range(s_buy_amount::<C>(v, listed, has_dex, is_xrd, amount, in_amount, tip, now).unwrap().0),
{
}

/// A sale keeps the supply on the curve between zero and the tradable supply.
pub proof fn law_sell_keeps_supply_in_range<C: CurveCalcsAdaptor>(v: BooksView, is_token: bool, n: int, tip: int, now: int)
    requires
        supply_in_range(v),
        s_sell::<C>(v, is_token, n, tip, now) is Ok,
    ensures
        supply_in_range(s_sell::<C>(v, is_token, n, tip, now).unwrap().0),
{
}

/// A `sell_for_xrd_amount` keeps the supply on the curve between zero and the
/// tradable supply.
pub proof fn law_sell_for_xrd_amount_keeps_supply_in_range<C: CurveCalcsAdaptor>(
    v: BooksView,
    is_token: bool,
    amount: int,
    in_amount: int,
    tip: int,
    now: int,
)
    requires
        supply_in_range(v),
        s_sell_for_xrd_amount::<C>(v, is_token, amount, in_amount, tip, now) is Ok,
    ensures
        supply_in_range(s_sell_for_xrd_amount::<C>(v, is_token, amount, in_amount, tip, now).unwrap().0),
{
}

/// The tokens a trade mints (or, negated, burns): the change of the token's
/// total supply.
pub open spec fn minted(v: BooksView, v2: BooksView) -> int {
    v2.token_total_supply - v.token_total_supply
}

/// A buy that does not list the token mints exactly the tokens that join the
/// supply on the curve, and hands them over: to the buyer, or during the fair
/// launch period to the fair launch tokens (the buyer gets one receipt).
pub proof fn law_buy_mints_what_it_hands_out<C: CurveCalcsAdaptor>(
    v: BooksView,
    listed: bool,
    has_dex: bool,
    is_xrd: bool,
    amount: int,
    tip: int,
    now: int,
)
    requires
        s_buy::<C>(v, listed, has_dex, is_xrd, amount, tip, now) is Ok,
        s_buy::<C>(v, listed, has_dex, is_xrd, amount, tip, now).unwrap().1.listing is None,
    ensures
        ({
            let (v2, t) = s_buy::<C>(v, listed, has_dex, is_xrd, amount, tip, now).unwrap();
            &&& minted(v, v2) == v2.current_supply - v.current_supply
            &&& minted(v, v2) >= 0
            &&& t.out_is_receipt ==> minted(v, v2) == v2.fair_launch_tokens - v.fair_launch_tokens
            &&& !t.out_is_receipt ==> minted(v, v2) == t.out_amount && v2.fair_launch_tokens == v.fair_launch_tokens
        }),
{
}

/// A `buy_amount` that does not list the token mints exactly the tokens
/// asked for (none for a non-positive amount), which join the supply on the
/// curve and go to the buyer, or during the fair launch period to the fair
/// launch tokens.
pub proof fn law_buy_amount_mints_what_it_hands_out<C: CurveCalcsAdaptor>(
    v: BooksView,
    listed: bool,
    has_dex: bool,
    is_xrd: bool,
    amount: int,
    in_amount: int,
    tip: int,
    now: int,
)
    requires
        s_buy_amount::<C>(v, listed, has_dex, is_xrd, amount, in_amount, tip, now) is Ok,
        s_buy_amount::<C>(v, listed, has_dex, is_xrd, amount, in_amount, tip, now).unwrap().1.listing is None,
    ensures
        ({
            let (v2, t) = s_buy_amount::<C>(v, listed, has_dex, is_xrd, amount, in_amount, tip, now).unwrap();
            &&& minted(v, v2) == v2.current_supply - v.current_supply
            &&& minted(v, v2) == if amount > 0 { amount } else { 0 }
            &&& t.out_is_receipt ==> minted(v, v2) == v2.fair_launch_tokens - v.fair_launch_tokens
            &&& !t.out_is_receipt ==> minted(v, v2) == t.out_amount && v2.fair_launch_tokens == v.fair_launch_tokens
        }),
{
}

/// A sale burns the tokens it takes out of the bucket: those burnt and those
/// handed back make the bucket, and the supply on the curve falls by as many.
pub proof fn law_sell_burns_what_it_takes<C: CurveCalcsAdaptor>(v: BooksView, is_token: bool, n: int, tip: int, now: int)
    requires
        s_sell::<C>(v, is_token, n, tip, now) is Ok,
    ensures
        ({
            let (v2, t) = s_sell::<C>(v, is_token, n, tip, now).unwrap();
            &&& -minted(v, v2) + t.change == n
            &&& v.current_supply - v2.current_supply == -minted(v, v2)
        }),
{
}

/// A `sell_for_xrd_amount` burns the tokens it takes out of the bucket: those
/// burnt and those handed back make the bucket, and the supply on the curve
/// falls by as many.
pub proof fn law_sell_for_xrd_amount_burns_what_it_takes<C: CurveCalcsAdaptor>(
    v: BooksView,
    is_token: bool,
    amount: int,
    in_amount: int,
    tip: int,
    now: int,
)
    requires
        s_sell_for_xrd_amount::<C>(v, is_token, amount, in_amount, tip, now) is Ok,
    ensures
        ({
            let (v2, t) = s_sell_for_xrd_amount::<C>(v, is_token, amount, in_amount, tip, now).unwrap();
            &&& -minted(v, v2) + t.change == in_amount
            &&& v.current_supply - v2.current_supply == -minted(v, v2)
            &&& -minted(v, v2) >= 0
        }),
{
}

/// Fees only grow, and a trade that took place counts one transaction more.
pub open spec fn fees_and_count_advance(v: BooksView, v2: BooksView, t: TradeView) -> bool {
    &&& v2.fee_vault >= v.fee_vault
    &&& v2.creator_fee_vault >= v.creator_fee_vault
    &&& v2.no_txs == v.no_txs + if t.event is Some { 1int } else { 0int }
}

/// Preparing the listing pays non-negative fees and counts no transaction.
proof fn lemma_list_prepare_fees(v: BooksView, listed: bool, has_dex: bool)
    requires
        s_list_prepare(v, listed, has_dex) is Ok,
    ensures
        ({
            let v2 = s_list_prepare(v, listed, has_dex).unwrap().0;
            v2.fee_vault >= v.fee_vault && v2.creator_fee_vault >= v.creator_fee_vault && v2.no_txs == v.no_txs
        }),
{
}

/// A buy never lowers a fee vault and counts one transaction when it trades.
pub proof fn law_buy_fees_and_count<C: CurveCalcsAdaptor>(
    v: BooksView,
    listed: bool,
    has_dex: bool,
    is_xrd: bool,
    amount: int,
    tip: int,
    now: int,
)
    requires
        s_buy::<C>(v, listed, has_dex, is_xrd, amount, tip, now) is Ok,
    ensures
        ({
            let (v2, t) = s_buy::<C>(v, listed, has_dex, is_xrd, amount, tip, now).unwrap();
            fees_and_count_advance(v, v2, t)
        }),
{
    let fair = crate::token_curve::s_fair_flag(v, now).unwrap();
    let v1 = BooksView { in_fair_launch_period: fair, ..v };
    let available = v1.max_xrd - v1.xrd_vault;
    let (fee, x, hit) = s_buy_split(amount, available, v1.tx_fee_perc).unwrap();
    let v2 = if hit { BooksView { target_reached: now, ..v1 } } else { v1 };
    let in1 = amount - fee;
    let v3 = BooksView { fee_vault: v2.fee_vault + fee, ..v2 };
    if x > 0 {
        let (v4, change, recv) = s_buy_tokens::<C>(v3, in1, x).unwrap();
        if v4.target_reached > 0 {
            lemma_list_prepare_fees(v4, listed, has_dex);
        }
    } else {
        if v3.target_reached > 0 {
            lemma_list_prepare_fees(v3, listed, has_dex);
        }
    }
}

/// A `buy_amount` never lowers a fee vault and counts one transaction when
/// it trades.
pub proof fn law_buy_amount_fees_and_count<C: CurveCalcsAdaptor>(
    v: BooksView,
    listed: bool,
    has_dex: bool,
    is_xrd: bool,
    amount: int,
    in_amount: int,
    tip: int,
    now: int,
)
    requires
        s_buy_amount::<C>(v, listed, has_dex, is_xrd, amount, in_amount, tip, now) is Ok,
    ensures
        ({
            let (v2, t) = s_buy_amount::<C>(v, listed, has_dex, is_xrd, amount, in_amount, tip, now).unwrap();
            fees_and_count_advance(v, v2, t)
        }),
{
    let fair = crate::token_curve::s_fair_flag(v, now).unwrap();
    let v1 = BooksView { in_fair_launch_period: fair, ..v };
    if amount > 0 {
        let (fee, req) = s_buy_amount_price::<C>(v1, amount, in_amount).unwrap();
        let (va, change) = s_buy_amount_apply::<C>(v1, amount, in_amount, fee, req).unwrap();
        if va.xrd_vault >= va.max_xrd {
            lemma_list_prepare_fees(BooksView { target_reached: now, ..va }, listed, has_dex);
        }
    }
}

/// A sale never lowers a fee vault and counts one transaction when it trades.
pub proof fn law_sell_fees_and_count<C: CurveCalcsAdaptor>(v: BooksView, is_token: bool, n: int, tip: int, now: int)
    requires
        s_sell::<C>(v, is_token, n, tip, now) is Ok,
    ensures
        ({
            let (v2, t) = s_sell::<C>(v, is_token, n, tip, now).unwrap();
            fees_and_count_advance(v, v2, t)
        }),
{
}

/// A `sell_for_xrd_amount` never lowers a fee vault and counts one
/// transaction when it trades.
pub proof fn law_sell_for_xrd_amount_fees_and_count<C: CurveCalcsAdaptor>(
    v: BooksView,
    is_token: bool,
    amount: int,
    in_amount: int,
    tip: int,
    now: int,
)
    requires
        s_sell_for_xrd_amount::<C>(v, is_token, amount, in_amount, tip, now) is Ok,
    ensures
        ({
            let (v2, t) = s_sell_for_xrd_amount::<C>(v, is_token, amount, in_amount, tip, now).unwrap();
            fees_and_count_advance(v, v2, t)
        }),
{
}

/// Claiming receipts one after the other moves tokens from the fair launch
/// tokens to those handed out, and XRD from the unclaimed XRD to the
/// receipts' total, and never leaves the fair launch tokens negative.
proof fn lemma_claim_all(st: (int, int, int, int), receipts: Seq<int>)
    requires
        s_claim_all(st, receipts) is Ok,
    ensures
        ({
            let (flt, flx, out, total) = s_claim_all(st, receipts).unwrap();
            &&& flt + out == st.0 + st.2
            &&& flx + total == st.1 + st.3
            &&& out >= st.2
            &&& receipts.len() > 0 ==> flt >= 0
        }),
    decreases receipts.len(),
{
    if receipts.len() > 0 {
        let st1 = s_claim_step(st, receipts[0]).unwrap();
        lemma_claim_all(st1, receipts.drop_first());
    }
}

/// Fair launch claims hand out only fair launch tokens: the tokens handed out
/// and those left make the fair launch tokens before, the receipts' XRD and
/// the XRD left unclaimed make the unclaimed XRD before, and no more tokens go
/// out than there were.
pub proof fn law_claims_hand_out_fair_launch_tokens(v: BooksView, is_receipt: bool, receipts: Seq<int>, now: int)
    requires
        s_claim_fair_launch(v, is_receipt, receipts, now) is Ok,
    ensures
        ({
            let (v2, (out, total)) = s_claim_fair_launch(v, is_receipt, receipts, now).unwrap();
            &&& out + v2.fair_launch_tokens == v.fair_launch_tokens
            &&& total + v2.fair_launch_xrd == v.fair_launch_xrd
            &&& 0 <= out
            &&& receipts.len() > 0 ==> out <= v.fair_launch_tokens
            &&& v2.token_total_supply == v.token_total_supply
        }),
{
    lemma_claim_all((v.fair_launch_tokens, v.fair_launch_xrd, 0, 0), receipts);
}

/// On the cs2 curve, selling the `n` tokens just bought at supply `s` returns
/// exactly what they cost (before fees): the curve's buy price of `n` at `s`
/// is its sell price of `n` at `s + n`.
pub proof fn law_cs2_sell_returns_buy_price(n: int, s: int, mc: int, mts: int)
    requires
        in_i192(n),
        in_i192(s),
        in_i192(s + n),
    ensures
        cs2_buy_price(n, s, mc, mts) == cs2_sell_price(n, s + n, mc, mts),
{
    assert(crate::decimal::pdec_of(s) + crate::decimal::pdec_of(n) == crate::decimal::pdec_of(s + n)) by (nonlinear_arith);
    assert(crate::decimal::pdec_of(s + n) - crate::decimal::pdec_of(n) == crate::decimal::pdec_of(s)) by (nonlinear_arith);
}

/// `buy_amount` keeps the curve's parameters and fee rates.
proof fn lemma_buy_amount_keeps_rates<C: CurveCalcsAdaptor>(
    v: BooksView,
    listed: bool,
    has_dex: bool,
    is_xrd: bool,
    amount: int,
    in_amount: int,
    tip: int,
    now: int,
)
    requires
        s_buy_amount::<C>(v, listed, has_dex, is_xrd, amount, in_amount, tip, now) is Ok,
    ensures
        ({
            let v2 = s_buy_amount::<C>(v, listed, has_dex, is_xrd, amount, in_amount, tip, now).unwrap().0;
            &&& v2.tx_fee_perc == v.tx_fee_perc
            &&& v2.listing_fee_perc == v.listing_fee_perc
            &&& v2.creator_fee_perc == v.creator_fee_perc
            &&& v2.max_token_supply_to_trade == v.max_token_supply_to_trade
            &&& v2.max_xrd_market_cap == v.max_xrd_market_cap
        }),
{
    let fair = crate::token_curve::s_fair_flag(v, now).unwrap();
    let v1 = BooksView { in_fair_launch_period: fair, ..v };
    if amount > 0 {
        let (fee, req) = s_buy_amount_price::<C>(v1, amount, in_amount).unwrap();
        let (va, change) = s_buy_amount_apply::<C>(v1, amount, in_amount, fee, req).unwrap();
    }
}

/// A token launched after the parent's trade fee was set to `value` trades
/// with the fee that `value` denotes, and with the parent's listing fee and
/// the creator fee, tradable supply and market cap it was launched with.
pub proof fn law_new_tokens_take_the_set_trade_fee<C: CurveCalcsAdaptor>(
    d: DefaultsView,
    value: Seq<char>,
    fees_vault: int,
    curves: Map<Seq<char>, Seq<u8>>,
    dexs: Map<Seq<char>, Seq<u8>>,
    fee_is_xrd: bool,
    fee_amount: int,
    curve: Seq<char>,
    dex: Seq<char>,
    name: Seq<char>,
    symbol: Seq<char>,
    mts: int,
    mc: int,
    vs: int,
    cp: int,
    mins: int,
    first_buy_amount: int,
    bucket: Option<(bool, int)>,
    lock_mins: int,
    tip: int,
    now: int,
)
    requires
        s_change_param(d, curves, "tx_fee_perc"@, value) is Ok,
        s_new_token_curve::<C>(s_change_param(d, curves, "tx_fee_perc"@, value).unwrap().0, fees_vault, curves, dexs,
            fee_is_xrd, fee_amount, curve, dex, name, symbol, mts, mc, vs, cp, mins, first_buy_amount, bucket,
            lock_mins, tip, now) is Ok,
    ensures
        ({
            let d2 = s_change_param(d, curves, "tx_fee_perc"@, value).unwrap().0;
            let v = s_new_token_curve::<C>(d2, fees_vault, curves, dexs, fee_is_xrd, fee_amount, curve, dex, name,
                symbol, mts, mc, vs, cp, mins, first_buy_amount, bucket, lock_mins, tip, now).unwrap().4;
            &&& v.tx_fee_perc == decimal_parse(value).unwrap()
            &&& v.listing_fee_perc == d.listing_fee_perc
            &&& v.creator_fee_perc == cp
            &&& v.max_token_supply_to_trade == mts
            &&& v.max_xrd_market_cap == mc
        }),
{
    reveal_strlit("tx_fee_perc");
    reveal_strlit("max_token_supply_to_trade");
    reveal_strlit("max_xrd_market_cap");
    reveal_strlit("virtual_supply");
    assert("tx_fee_perc"@.len() != "max_token_supply_to_trade"@.len());
    assert("tx_fee_perc"@.len() != "max_xrd_market_cap"@.len());
    assert("tx_fee_perc"@.len() != "virtual_supply"@.len());
    let d2 = s_change_param(d, curves, "tx_fee_perc"@, value).unwrap().0;
    assert(d2.tx_fee_perc == decimal_parse(value).unwrap() && d2.listing_fee_perc == d.listing_fee_perc);
    let (fv, rest, ca, da) = crate::launcher::s_launch_checks(d2, fees_vault, curves, dexs, fee_is_xrd, fee_amount,
        curve, dex, name, symbol, mts, first_buy_amount, lock_mins).unwrap();
    let v0 = crate::token_curve::s_new_books::<C>(mts, mc, vs, d2.tx_fee_perc, d2.listing_fee_perc, cp, mins,
        lock_mins, now).unwrap();
    match bucket {
        None => {},
        Some((is_xrd, a)) => {
            lemma_buy_amount_keeps_rates::<C>(v0, false, da is Some, is_xrd, first_buy_amount, a, tip, now);
        },
    }
}

/// The launcher's registries (curve calculators and dex adaptors, whose
/// updates insert and whose deletions remove a name): the address registered
/// last under a name is what the name gives, a deleted name gives nothing, and
/// other names keep what they gave.
pub proof fn law_registry_reads_back_writes(m: Map<Seq<char>, Seq<u8>>, name: Seq<char>, other: Seq<char>, a: Seq<u8>)
    requires
        name != other,
    ensures
        m.insert(name, a).contains_key(name),
        m.insert(name, a)[name] == a,
        !m.remove(name).contains_key(name),
        m.insert(name, a).contains_key(other) == m.contains_key(other),
        m.remove(name).contains_key(other) == m.contains_key(other),
        m.contains_key(other) ==> m.insert(name, a)[other] == m[other] && m.remove(name)[other] == m[other],
{
}

/// The XRD vault holds between nothing and the curve's XRD target.
pub open spec fn xrd_in_range(v: BooksView) -> bool {
    0 <= v.xrd_vault <= v.max_xrd
}

/// The listing empties the XRD vault and keeps the target.
proof fn lemma_list_prepare_empties_xrd(v: BooksView, listed: bool, has_dex: bool)
    requires
        s_list_prepare(v, listed, has_dex) is Ok,
    ensures
        ({
            let v2 = s_list_prepare(v, listed, has_dex).unwrap().0;
            v2.xrd_vault == 0 && v2.max_xrd == v.max_xrd
        }),
{
}

/// A buy never takes the XRD vault past the curve's XRD target.
pub proof fn law_buy_keeps_xrd_within_target<C: CurveCalcsAdaptor>(
    v: BooksView,
    listed: bool,
    has_dex: bool,
    is_xrd: bool,
    amount: int,
    tip: int,
    now: int,
)
    requires
        xrd_in_range(v),
        s_buy::<C>(v, listed, has_dex, is_xrd, amount, tip, now) is Ok,
    ensures
        xrd_in_range(s_buy::<C>(v, listed, has_dex, is_xrd, amount, tip, now).unwrap().0),
{
    let fair = crate::token_curve::s_fair_flag(v, now).unwrap();
    let v1 = BooksView { in_fair_launch_period: fair, ..v };
    let available = v1.max_xrd - v1.xrd_vault;
    let (fee, x, hit) = s_buy_split(amount, available, v1.tx_fee_perc).unwrap();
    let v2 = if hit { BooksView { target_reached: now, ..v1 } } else { v1 };
    let in1 = amount - fee;
    let v3 = BooksView { fee_vault: v2.fee_vault + fee, ..v2 };
    if x > 0 {
        let (v4, change, recv) = s_buy_tokens::<C>(v3, in1, x).unwrap();
        if v4.target_reached > 0 {
            lemma_list_prepare_empties_xrd(v4, listed, has_dex);
        }
    } else {
        if v3.target_reached > 0 {
            lemma_list_prepare_empties_xrd(v3, listed, has_dex);
        }
    }
}

/// A `buy_amount` never takes the XRD vault past the curve's XRD target.
pub proof fn law_buy_amount_keeps_xrd_within_target<C: CurveCalcsAdaptor>(
    v: BooksView,
    listed: bool,
    has_dex: bool,
    is_xrd: bool,
    amount: int,
    in_amount: int,
    tip: int,
    now: int,
)
    requires
        xrd_in_range(v),
        s_buy_amount::<C>(v, listed, has_dex, is_xrd, amount, in_amount, tip, now) is Ok,
    ensures
        xrd_in_range(s_buy_amount::<C>(v, listed, has_dex, is_xrd, amount, in_amount, tip, now).unwrap().0),
{
    let fair = crate::token_curve::s_fair_flag(v, now).unwrap();
    let v1 = BooksView { in_fair_launch_period: fair, ..v };
    if amount > 0 {
        let (fee, req) = s_buy_amount_price::<C>(v1, amount, in_amount).unwrap();
        let (va, change) = s_buy_amount_apply::<C>(v1, amount, in_amount, fee, req).unwrap();
        if va.xrd_vault >= va.max_xrd {
            lemma_list_prepare_empties_xrd(BooksView { target_reached: now, ..va }, listed, has_dex);
        }
    }
}

/// A sale keeps the XRD vault between nothing and the curve's XRD target.
pub proof fn law_sell_keeps_xrd_within_target<C: CurveCalcsAdaptor>(v: BooksView, is_token: bool, n: int, tip: int, now: int)
    requires
        xrd_in_range(v),
        s_sell::<C>(v, is_token, n, tip, now) is Ok,
    ensures
        xrd_in_range(s_sell::<C>(v, is_token, n, tip, now).unwrap().0),
{
}

/// A `sell_for_xrd_amount` keeps the XRD vault between nothing and the
/// curve's XRD target.
pub proof fn law_sell_for_xrd_amount_keeps_xrd_within_target<C: CurveCalcsAdaptor>(
    v: BooksView,
    is_token: bool,
    amount: int,
    in_amount: int,
    tip: int,
    now: int,
)
    requires
        xrd_in_range(v),
        s_sell_for_xrd_amount::<C>(v, is_token, amount, in_amount, tip, now) is Ok,
    ensures
        xrd_in_range(s_sell_for_xrd_amount::<C>(v, is_token, amount, in_amount, tip, now).unwrap().0),
{
}

/// Whether the vaults of other resources hold a vault of `r`.
pub open spec fn holds_vault(s: Seq<(Seq<u8>, int)>, r: Seq<u8>) -> bool {
    exists|i: int| 0 <= i < s.len() && s[i].0 == r
}

/// The amount in the vault of `r`, or 0 without one.
pub open spec fn vault_amount(s: Seq<(Seq<u8>, int)>, r: Seq<u8>) -> int {
    if holds_vault(s, r) {
        s[key_index(s, r)].1
    } else {
        0
    }
}

/// With no resource twice, the vault of `r` is the one at any index holding `r`.
proof fn lemma_vault_at(s: Seq<(Seq<u8>, int)>, r: Seq<u8>, i: int)
    requires
        keys_unique(s),
        0 <= i < s.len(),
        s[i].0 == r,
    ensures
        holds_vault(s, r),
        key_index(s, r) == i,
        vault_amount(s, r) == s[i].1,
{
    assert(holds_vault(s, r));
    let k = key_index(s, r);
    assert(0 <= k < s.len() && s[k].0 == r);
}

/// Putting `a` of resource `r` among the vaults of other resources adds it
/// to the one vault of `r`, or opens that vault; the other vaults keep their
/// amounts, and no resource gets two vaults.
pub proof fn law_insert_other_adds_to_one_vault(s: Seq<(Seq<u8>, int)>, r: Seq<u8>, a: int, r2: Seq<u8>)
    requires
        keys_unique(s),
        s_insert_other(s, r, a) is Ok,
    ensures
        ({
            let s2 = s_insert_other(s, r, a).unwrap();
            &&& keys_unique(s2)
            &&& holds_vault(s2, r)
            &&& vault_amount(s2, r) == vault_amount(s, r) + a
            &&& r2 != r ==> holds_vault(s2, r2) == holds_vault(s, r2) && vault_amount(s2, r2) == vault_amount(s, r2)
        }),
{
    let s2 = s_insert_other(s, r, a).unwrap();
    if holds_vault(s, r) {
        let i = key_index(s, r);
        lemma_vault_at(s, r, i);
        assert(s2 == s.update(i, (r, s[i].1 + a)));
        assert(keys_unique(s2));
        lemma_vault_at(s2, r, i);
        if r2 != r && holds_vault(s, r2) {
            let j = key_index(s, r2);
            lemma_vault_at(s, r2, j);
            lemma_vault_at(s2, r2, j);
        }
        if r2 != r && holds_vault(s2, r2) {
            let j = key_index(s2, r2);
            assert(s[j].0 == r2);
        }
    } else {
        assert(s2 == s.push((r, a)));
        assert(keys_unique(s2));
        lemma_vault_at(s2, r, s.len() as int);
        if r2 != r && holds_vault(s, r2) {
            let j = key_index(s, r2);
            lemma_vault_at(s, r2, j);
            lemma_vault_at(s2, r2, j);
        }
        if r2 != r && holds_vault(s2, r2) {
            let j = key_index(s2, r2);
            assert(s[j].0 == r2);
        }
    }
}

/// A buy that does not list the token only adds to the XRD vault and to the
/// supply on the curve, and takes neither past its bound (the XRD target and
/// the tradable supply), whatever they held before within those bounds.
pub proof fn law_buy_grows_within_bounds<C: CurveCalcsAdaptor>(
    v: BooksView,
    listed: bool,
    has_dex: bool,
    is_xrd: bool,
    amount: int,
    tip: int,
    now: int,
)
    requires
        v.xrd_vault <= v.max_xrd,
        v.current_supply <= v.max_token_supply_to_trade,
        s_buy::<C>(v, listed, has_dex, is_xrd, amount, tip, now) is Ok,
        s_buy::<C>(v, listed, has_dex, is_xrd, amount, tip, now).unwrap().1.listing is None,
    ensures
        ({
            let v2 = s_buy::<C>(v, listed, has_dex, is_xrd, amount, tip, now).unwrap().0;
            &&& v.xrd_vault <= v2.xrd_vault <= v2.max_xrd
            &&& v.current_supply <= v2.current_supply <= v2.max_token_supply_to_trade
            &&& v2.max_xrd == v.max_xrd
            &&& v2.max_token_supply_to_trade == v.max_token_supply_to_trade
        }),
{
    let fair = crate::token_curve::s_fair_flag(v, now).unwrap();
    let v1 = BooksView { in_fair_launch_period: fair, ..v };
    let available = v1.max_xrd - v1.xrd_vault;
    let (fee, x, hit) = s_buy_split(amount, available, v1.tx_fee_perc).unwrap();
    let v2 = if hit { BooksView { target_reached: now, ..v1 } } else { v1 };
    let v3 = BooksView { fee_vault: v2.fee_vault + fee, ..v2 };
    if x > 0 {
        lemma_receive_tokens_in_range::<C>(v3, x);
    }
}

/// A `buy_amount` that does not list the token only adds to the XRD vault and
/// to the supply on the curve, and takes neither past its bound (the XRD
/// target and the tradable supply), whatever they held before within those
/// bounds.
pub proof fn law_buy_amount_grows_within_bounds<C: CurveCalcsAdaptor>(
    v: BooksView,
    listed: bool,
    has_dex: bool,
    is_xrd: bool,
    amount: int,
    in_amount: int,
    tip: int,
    now: int,
)
    requires
        v.xrd_vault <= v.max_xrd,
        v.current_supply <= v.max_token_supply_to_trade,
        s_buy_amount::<C>(v, listed, has_dex, is_xrd, amount, in_amount, tip, now) is Ok,
        s_buy_amount::<C>(v, listed, has_dex, is_xrd, amount, in_amount, tip, now).unwrap().1.listing is None,
    ensures
        ({
            let v2 = s_buy_amount::<C>(v, listed, has_dex, is_xrd, amount, in_amount, tip, now).unwrap().0;
            &&& v.xrd_vault <= v2.xrd_vault <= v2.max_xrd
            &&& v.current_supply <= v2.current_supply <= v2.max_token_supply_to_trade
            &&& v2.max_xrd == v.max_xrd
            &&& v2.max_token_supply_to_trade == v.max_token_supply_to_trade
        }),
{
}

/// On the cs2 curve with no trade fee and outside the fair launch period,
/// selling all the tokens a buy got pays exactly the curve's buy price of
/// those tokens at the supply before the buy (at most what the XRD vault
/// holds), which is also what `buy_amount` of them costs from there; and the
/// supply, the token's total supply and the price come back to where they
/// were. How close that price is to the XRD the buy spent is the calculator's
/// rounding, which this law does not bound.
#[verifier::rlimit(40)]
pub proof fn law_cs2_sell_after_buy(v: BooksView, listed: bool, has_dex: bool, amount: int, now: int)
    requires
        in_i192(v.current_supply),
        0 <= v.xrd_vault,
        v.tx_fee_perc == 0,
        crate::token_curve::s_fair_flag(v, now) == Ok::<bool, TxError>(false),
        cs2_price(v.current_supply, v.max_xrd_market_cap, v.max_token_supply_to_trade) == Some(v.last_price),
        s_buy::<CurveCs2Calcs>(v, listed, has_dex, true, amount, 0, now) is Ok,
        s_buy::<CurveCs2Calcs>(v, listed, has_dex, true, amount, 0, now).unwrap().1.listing is None,
        s_sell::<CurveCs2Calcs>(
            s_buy::<CurveCs2Calcs>(v, listed, has_dex, true, amount, 0, now).unwrap().0,
            true,
            s_buy::<CurveCs2Calcs>(v, listed, has_dex, true, amount, 0, now).unwrap().1.out_amount,
            0,
            now,
        ) is Ok,
    ensures
        ({
            let (v1, t) = s_buy::<CurveCs2Calcs>(v, listed, has_dex, true, amount, 0, now).unwrap();
            let n = t.out_amount;
            let (v2, t2) = s_sell::<CurveCs2Calcs>(v1, true, n, 0, now).unwrap();
            let price = cs2_buy_price(n, v.current_supply, v.max_xrd_market_cap, v.max_token_supply_to_trade);
            &&& price is Some
            &&& price == CurveCs2Calcs::spec_buy_price(n, v.current_supply, v.max_xrd_market_cap, v.max_token_supply_to_trade)
            &&& t2.out_amount == if price.unwrap() <= v1.xrd_vault { price.unwrap() } else { v1.xrd_vault }
            &&& v2.current_supply == v.current_supply
            &&& v2.token_total_supply == v.token_total_supply
            &&& v2.last_price == v.last_price
        }),
{
    let (v1, t) = s_buy::<CurveCs2Calcs>(v, listed, has_dex, true, amount, 0, now).unwrap();
    let n = t.out_amount;
    let available = v.max_xrd - v.xrd_vault;
    let (fee, x, hit) = s_buy_split(amount, available, v.tx_fee_perc).unwrap();
    let vb = if hit { BooksView { target_reached: now, ..v } } else { v };
    let v3 = BooksView { fee_vault: vb.fee_vault + fee, ..vb };
    assert(fee == 0);
    if x > 0 {
        let recv = s_receive_tokens::<CurveCs2Calcs>(v3, x).unwrap();
        assert(n == recv);
        assert(in_i192(n));
        assert(v1.current_supply == v.current_supply + n);
        assert(in_i192(v.current_supply + n));
        law_cs2_sell_returns_buy_price(n, v.current_supply, v.max_xrd_market_cap, v.max_token_supply_to_trade);
        let recv0 = cs2_sell_price(n, v1.current_supply, v1.max_xrd_market_cap, v1.max_token_supply_to_trade).unwrap();
        let r = if recv0 - v1.xrd_vault > 0 { v1.xrd_vault } else { recv0 };
        assert(crate::decimal::dec_mul(r, 0) == Some(0int));
    } else {
        assert(n == 0);
    }
}

} // verus!
