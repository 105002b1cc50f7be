//! The parent component: it keeps the defaults for new tokens, the curve
//! calculators and dex adaptors by name, the list of launched tokens and the
//! token creation fees, and it launches token curve components.
use crate::address::{opt_view, Address};
use crate::curve::CurveCalcsAdaptor;
use crate::decimal::{dec_add, dec_mul, Dec};
use crate::ledger::{lift, plus, res_val, s_take, take, times, TxError};
use crate::radix::{
    dec_display, dec_parse, decimal_display, decimal_parse, display_i64, display_u32, i64_display,
    i64_parse, parse_i64, parse_u32, u32_display, u32_parse,
};
use crate::registry::{Registry, RegistryKey};
use crate::token_curve::{s_new, BooksView, CurveAddresses, FirstBuy, FirstBuyView, RakoonFunTokenCurve};
use vstd::prelude::*;

verus! {

/// The values a new token curve gets unless its creator chooses others.
pub struct Defaults {
    pub max_token_supply_to_trade: Dec,
    pub max_xrd_market_cap: Dec,
    pub virtual_supply: Dec,
    pub tx_fee_perc: Dec,
    pub listing_fee_perc: Dec,
    pub creator_fee_perc: Dec,
    pub token_creation_fee: Dec,
    pub fair_launch_period_mins: u32,
    pub default_curve: String,
    pub first_buy_max_perc: Dec,
    pub first_buy_lock_mins: i64,
}

/// `Defaults` as numbers and text.
pub struct DefaultsView {
    pub max_token_supply_to_trade: int,
    pub max_xrd_market_cap: int,
    pub virtual_supply: int,
    pub tx_fee_perc: int,
    pub listing_fee_perc: int,
    pub creator_fee_perc: int,
    pub token_creation_fee: int,
    pub fair_launch_period_mins: u32,
    pub default_curve: Seq<char>,
    pub first_buy_max_perc: int,
    pub first_buy_lock_mins: i64,
}

impl View for Defaults {
    type V = DefaultsView;

    open spec fn view(&self) -> DefaultsView {
        DefaultsView {
            max_token_supply_to_trade: self.max_token_supply_to_trade.val(),
            max_xrd_market_cap: self.max_xrd_market_cap.val(),
            virtual_supply: self.virtual_supply.val(),
            tx_fee_perc: self.tx_fee_perc.val(),
            listing_fee_perc: self.listing_fee_perc.val(),
            creator_fee_perc: self.creator_fee_perc.val(),
            token_creation_fee: self.token_creation_fee.val(),
            fair_launch_period_mins: self.fair_launch_period_mins,
            default_curve: self.default_curve@,
            first_buy_max_perc: self.first_buy_max_perc.val(),
            first_buy_lock_mins: self.first_buy_lock_mins,
        }
    }
}

impl Defaults {
    /// A copy.
    pub fn copy(&self) -> (r: Defaults)
        ensures
            r@ == self@,
    {
        Defaults {
            max_token_supply_to_trade: self.max_token_supply_to_trade,
            max_xrd_market_cap: self.max_xrd_market_cap,
            virtual_supply: self.virtual_supply,
            tx_fee_perc: self.tx_fee_perc,
            listing_fee_perc: self.listing_fee_perc,
            creator_fee_perc: self.creator_fee_perc,
            token_creation_fee: self.token_creation_fee,
            fair_launch_period_mins: self.fair_launch_period_mins,
            default_curve: self.default_curve.clone(),
            first_buy_max_perc: self.first_buy_max_perc,
            first_buy_lock_mins: self.first_buy_lock_mins,
        }
    }
}

/// The event of a change of a default: the field, its old and new value.
pub struct ChangeDefaultEvent {
    pub field_name: String,
    pub old_value: String,
    pub new_value: String,
}

/// A decimal parameter's value, or the refusal of a text that does not parse.
pub open spec fn param_dec(parsed: Option<int>) -> Result<int, TxError> {
    match parsed {
        Some(x) => Ok(x),
        None => Err(TxError::InvalidParameterValue),
    }
}

/// Sets the default `name` from the text `value`. Decimal defaults take
/// `Decimal`'s text, `fair_launch_period_mins` a `u32`, `first_buy_lock_mins`
/// an `i64`, `default_curve` the name of a registered curve calculator. Other
/// names, and values that do not parse, are refused. Returns the defaults and
/// the old value as text.
pub open spec fn s_change_param(d: DefaultsView, curves: Map<Seq<char>, Seq<u8>>, name: Seq<char>, value: Seq<char>) -> Result<(DefaultsView, Seq<char>), TxError> {
    if name == "max_token_supply_to_trade"@ {
        match param_dec(decimal_parse(value)) {
            Err(e) => Err(e),
            Ok(x) => Ok((DefaultsView { max_token_supply_to_trade: x, ..d }, decimal_display(d.max_token_supply_to_trade))),
        }
    } else if name == "max_xrd_market_cap"@ {
        match param_dec(decimal_parse(value)) {
            Err(e) => Err(e),
            Ok(x) => Ok((DefaultsView { max_xrd_market_cap: x, ..d }, decimal_display(d.max_xrd_market_cap))),
        }
    } else if name == "virtual_supply"@ {
        match param_dec(decimal_parse(value)) {
            Err(e) => Err(e),
            Ok(x) => Ok((DefaultsView { virtual_supply: x, ..d }, decimal_display(d.virtual_supply))),
        }
    } else if name == "tx_fee_perc"@ {
        match param_dec(decimal_parse(value)) {
            Err(e) => Err(e),
            Ok(x) => Ok((DefaultsView { tx_fee_perc: x, ..d }, decimal_display(d.tx_fee_perc))),
        }
    } else if name == "listing_fee_perc"@ {
        match param_dec(decimal_parse(value)) {
            Err(e) => Err(e),
            Ok(x) => Ok((DefaultsView { listing_fee_perc: x, ..d }, decimal_display(d.listing_fee_perc))),
        }
    } else if name == "creator_fee_perc"@ {
        match param_dec(decimal_parse(value)) {
            Err(e) => Err(e),
            Ok(x) => Ok((DefaultsView { creator_fee_perc: x, ..d }, decimal_display(d.creator_fee_perc))),
        }
    } else if name == "token_creation_fee"@ {
        match param_dec(decimal_parse(value)) {
            Err(e) => Err(e),
            Ok(x) => Ok((DefaultsView { token_creation_fee: x, ..d }, decimal_display(d.token_creation_fee))),
        }
    } else if name == "fair_launch_period_mins"@ {
        match u32_parse(value) {
            None => Err(TxError::InvalidParameterValue),
            Some(x) => Ok((DefaultsView { fair_launch_period_mins: x, ..d }, u32_display(d.fair_launch_period_mins))),
        }
    } else if name == "default_curve"@ {
        if curves.contains_key(value) {
            Ok((DefaultsView { default_curve: value, ..d }, d.default_curve))
        } else {
            Err(TxError::UnknownCurve)
        }
    } else if name == "first_buy_max_perc"@ {
        match param_dec(decimal_parse(value)) {
            Err(e) => Err(e),
            Ok(x) => Ok((DefaultsView { first_buy_max_perc: x, ..d }, decimal_display(d.first_buy_max_perc))),
        }
    } else if name == "first_buy_lock_mins"@ {
        match i64_parse(value) {
            None => Err(TxError::InvalidParameterValue),
            Some(x) => Ok((DefaultsView { first_buy_lock_mins: x, ..d }, i64_display(d.first_buy_lock_mins))),
        }
    } else {
        Err(TxError::UnknownParameter)
    }
}

/// Several defaults set one after the other; returns the defaults and the old
/// values.
pub open spec fn s_change_params(d: DefaultsView, curves: Map<Seq<char>, Seq<u8>>, ps: Seq<(Seq<char>, Seq<char>)>) -> Result<(DefaultsView, Seq<Seq<char>>), TxError>
    decreases ps.len(),
{
    if ps.len() == 0 {
        Ok((d, Seq::empty()))
    } else {
        match s_change_param(d, curves, ps[0].0, ps[0].1) {
            Err(e) => Err(e),
            Ok((d1, prev)) => match s_change_params(d1, curves, ps.drop_first()) {
                Err(e) => Err(e),
                Ok((d2, prevs)) => Ok((d2, seq![prev].add(prevs))),
            },
        }
    }
}

/// Whether `s` is the text `lit`.
fn is_text(s: &String, lit: &str) -> (r: bool)
    ensures
        r == (s@ == lit@),
{
    *s == String::from_str(lit)
}

/// A decimal parameter's value (see `param_dec`).
fn parse_dec_param(value: &String) -> (r: Result<Dec, TxError>)
    ensures
        res_val(r) == param_dec(decimal_parse(value@)),
{
    match dec_parse(value.as_str()) {
        Some(x) => Ok(x),
        None => Err(TxError::InvalidParameterValue),
    }
}

/// Computes `s_change_param` on `d`; returns the old value as text.
fn change_param(d: &mut Defaults, curves: &Registry<String>, name: &String, value: &String) -> (r: Result<String, TxError>)
    requires
        curves.wf(),
    ensures
        match r {
            Ok(prev) => s_change_param(old(d)@, curves@, name@, value@) == Ok::<(DefaultsView, Seq<char>), TxError>((final(d)@, prev@)),
            Err(e) => s_change_param(old(d)@, curves@, name@, value@) == Err::<(DefaultsView, Seq<char>), TxError>(e)
                && final(d)@ == old(d)@,
        },
{
    if is_text(name, "max_token_supply_to_trade") {
        let x = parse_dec_param(value)?;
        let prev = dec_display(d.max_token_supply_to_trade);
        d.max_token_supply_to_trade = x;
        Ok(prev)
    } else if is_text(name, "max_xrd_market_cap") {
        let x = parse_dec_param(value)?;
        let prev = dec_display(d.max_xrd_market_cap);
        d.max_xrd_market_cap = x;
        Ok(prev)
    } else if is_text(name, "virtual_supply") {
        let x = parse_dec_param(value)?;
        let prev = dec_display(d.virtual_supply);
        d.virtual_supply = x;
        Ok(prev)
    } else if is_text(name, "tx_fee_perc") {
        let x = parse_dec_param(value)?;
        let prev = dec_display(d.tx_fee_perc);
        d.tx_fee_perc = x;
        Ok(prev)
    } else if is_text(name, "listing_fee_perc") {
        let x = parse_dec_param(value)?;
        let prev = dec_display(d.listing_fee_perc);
        d.listing_fee_perc = x;
        Ok(prev)
    } else if is_text(name, "creator_fee_perc") {
        let x = parse_dec_param(value)?;
        let prev = dec_display(d.creator_fee_perc);
        d.creator_fee_perc = x;
        Ok(prev)
    } else if is_text(name, "token_creation_fee") {
        let x = parse_dec_param(value)?;
        let prev = dec_display(d.token_creation_fee);
        d.token_creation_fee = x;
        Ok(prev)
    } else if is_text(name, "fair_launch_period_mins") {
        let x = match parse_u32(value.as_str()) {
            Some(x) => x,
            None => return Err(TxError::InvalidParameterValue),
        };
        let prev = display_u32(d.fair_launch_period_mins);
        d.fair_launch_period_mins = x;
        Ok(prev)
    } else if is_text(name, "default_curve") {
        if curves.get(value).is_none() {
            return Err(TxError::UnknownCurve);
        }
        let prev = d.default_curve.clone();
        d.default_curve = value.clone();
        Ok(prev)
    } else if is_text(name, "first_buy_max_perc") {
        let x = parse_dec_param(value)?;
        let prev = dec_display(d.first_buy_max_perc);
        d.first_buy_max_perc = x;
        Ok(prev)
    } else if is_text(name, "first_buy_lock_mins") {
        let x = match parse_i64(value.as_str()) {
            Some(x) => x,
            None => return Err(TxError::InvalidParameterValue),
        };
        let prev = display_i64(d.first_buy_lock_mins);
        d.first_buy_lock_mins = x;
        Ok(prev)
    } else {
        Err(TxError::UnknownParameter)
    }
}

/// What the creator of a token names and describes it by.
pub struct TokenInfo {
    pub name: String,
    pub symbol: String,
    pub description: String,
    pub icon_url: String,
    pub telegram_url: String,
    pub x_url: String,
    pub website_url: String,
}

/// The checks and the creation fee of a launch, before the token curve is
/// made. The creation fee, when there is one, must come in XRD and in full;
/// the curve calculator must be registered; a dex adaptor, when named, too;
/// the token needs a name and a symbol; a first buy may take at most
/// `first_buy_max_perc` of the tradable supply; the creator's lock may not be
/// shorter than the default. Returns the fee vault, what is left of the fee
/// bucket, the calculator's and the dex adaptor's address.
pub open spec fn s_launch_checks(
    d: DefaultsView,
    fees_vault: int,
    curves: Map<Seq<char>, Seq<u8>>,
    dexs: Map<Seq<char>, Seq<u8>>,
    fee_is_xrd: bool,
    fee_amount: int,
    curve: Seq<char>,
    dex: Seq<char>,
    name: Seq<char>,
    symbol: Seq<char>,
    mts: int,
    first_buy_amount: int,
    lock_mins: int,
) -> Result<(int, int, Seq<u8>, Option<Seq<u8>>), TxError> {
    let fee = d.token_creation_fee;
    let paid = if fee > 0 {
        if !fee_is_xrd {
            Err(TxError::WrongResource)
        } else if fee_amount < fee {
            Err(TxError::InsufficientResource)
        } else {
            match lift(dec_add(fees_vault, fee)) {
                Err(e) => Err(e),
                Ok(fv) => Ok((fv, fee_amount - fee)),
            }
        }
    } else {
        Ok((fees_vault, fee_amount))
    };
    match paid {
        Err(e) => Err(e),
        Ok((fv, rest)) => if !curves.contains_key(curve) {
            Err(TxError::UnknownCurve)
        } else if dex.len() != 0 && !dexs.contains_key(dex) {
            Err(TxError::UnknownDex)
        } else if name.len() == 0 || symbol.len() == 0 {
            Err(TxError::MissingNameOrSymbol)
        } else {
            let cap = dec_mul(d.first_buy_max_perc, mts);
            if first_buy_amount != 0 && cap is None {
                Err(TxError::Overflow)
            } else if !(first_buy_amount == 0 || first_buy_amount <= cap.unwrap()) {
                Err(TxError::FirstBuyTooHigh)
            } else if lock_mins < d.first_buy_lock_mins {
                Err(TxError::LockPeriodTooShort)
            } else {
                Ok((fv, rest, curves[curve], if dex.len() == 0 { None } else { Some(dexs[dex]) }))
            }
        },
    }
}

/// A launch: the checks, the token curve with the parent's trade and listing
/// fees (see `s_new`), then what is left of the fee bucket joins the XRD left
/// from the first buy (the fee bucket must be XRD for that). Returns the fee
/// vault, the XRD handed back, the calculator's and the dex adaptor's address,
/// the new curve's books and the first buy.
pub open spec fn s_new_token_curve<C: CurveCalcsAdaptor>(
    d: DefaultsView,
    fees_vault: int,
    curves: Map<Seq<char>, Seq<u8>>,
    dexs: Map<Seq<char>, Seq<u8>>,
    fee_is_xrd: bool,
    fee_amount: int,
    curve: Seq<char>,
    dex: Seq<char>,
    name: Seq<char>,
    symbol: Seq<char>,
    mts: int,
    mc: int,
    vs: int,
    cp: int,
    mins: int,
    first_buy_amount: int,
    bucket: Option<(bool, int)>,
    lock_mins: int,
    tip: int,
    now: int,
) -> Result<(int, int, Seq<u8>, Option<Seq<u8>>, BooksView, FirstBuyView), TxError> {
    match s_launch_checks(d, fees_vault, curves, dexs, fee_is_xrd, fee_amount, curve, dex, name, symbol, mts, first_buy_amount, lock_mins) {
        Err(e) => Err(e),
        Ok((fv, rest, ca, da)) => match s_new::<C>(mts, mc, vs, d.tx_fee_perc, d.listing_fee_perc, cp, mins, da is Some,
            first_buy_amount, bucket, lock_mins, tip, now) {
            Err(e) => Err(e),
            Ok((v, f)) => if !fee_is_xrd {
                Err(TxError::WrongResource)
            } else {
                match lift(dec_add(rest, f.xrd_change)) {
                    Err(e) => Err(e),
                    Ok(remaining) => Ok((fv, remaining, ca, da, v, f)),
                }
            },
        },
    }
}

/// What a launch with the given creator's choices does, from the parent
/// `pre` to `post` with the answer `r` (see `s_new_token_curve`): on success
/// the fee vault, the XRD handed back, the new curve's calculator, dex
/// adaptor, books and first buy are the spec's, the token is recorded, and the
/// new component is unlisted, holds no other vaults and carries the ledger's
/// addresses; on refusal nothing changes. The stores stay well formed and the
/// defaults, calculators and dex adaptors unchanged either way.
pub open spec fn launched<C: CurveCalcsAdaptor>(
    pre: RakoonFunMain,
    post: RakoonFunMain,
    token_info: TokenInfo,
    curve: String,
    dex: String,
    max_token_supply_to_trade: Dec,
    max_xrd_market_cap_to_trade: Dec,
    virtual_supply: Dec,
    creator_fee_perc: Dec,
    fair_launch_period_mins: u32,
    first_buy_amount: Dec,
    first_buy_bucket: Option<(Address, Dec)>,
    first_buy_lock_mins: i64,
    fee_bucket: (Address, Dec),
    addresses: CurveAddresses,
    tip_percentage: u16,
    now: i64,
    r: Result<(RakoonFunTokenCurve<C>, FirstBuy, Dec), TxError>,
) -> bool {
    let bk = match first_buy_bucket {
        Some((res, a)) => Some((res@ == addresses.xrd_address@, a.val())),
        None => None,
    };
    let s = s_new_token_curve::<C>(pre.defaults@, pre.fees_vault.val(), pre.curve_calcs@, pre.dexs@,
        fee_bucket.0@ == pre.xrd_address@, fee_bucket.1.val(), curve@, dex@, token_info.name@, token_info.symbol@,
        max_token_supply_to_trade.val(), max_xrd_market_cap_to_trade.val(), virtual_supply.val(), creator_fee_perc.val(),
        fair_launch_period_mins as int, first_buy_amount.val(), bk, first_buy_lock_mins as int, tip_percentage as int,
        now as int);
    &&& post.wf()
    &&& post.same_stores(&pre)
    &&& post.defaults@ == pre.defaults@
    &&& match r {
        Ok((tc, f, remaining)) => s == Ok::<(int, int, Seq<u8>, Option<Seq<u8>>, BooksView, FirstBuyView), TxError>((
            post.fees_vault.val(), remaining.val(), tc.curve_calcs.spec_address(), opt_view(tc.dex_adaptor), tc.books@,
            f@))
            && post.tokens@ == pre.tokens@.insert(addresses.address@, addresses.token_address@)
            && tc.wf()
            && tc.parent_address@ == pre.address@
            && tc.address@ == addresses.address@
            && tc.token_address@ == addresses.token_address@
            && tc.xrd_address@ == addresses.xrd_address@
            && tc.fair_launch_receipt_address@ == addresses.fair_launch_receipt_address@
            && tc.owner_badge_address@ == addresses.owner_badge_address@
            && tc.dapp_def_address@ == addresses.dapp_def_address@
            && tc.dex_listing_address is None
            && tc.listing_token_address is None
            && tc.other_tokens@.len() == 0,
        Err(e) => s == Err::<(int, int, Seq<u8>, Option<Seq<u8>>, BooksView, FirstBuyView), TxError>(e)
            && post.fees_vault == pre.fees_vault
            && post.tokens@ == pre.tokens@,
    }
}

/// The parent component.
pub struct RakoonFunMain {
    /// This component.
    pub address: Address,
    /// The owner badge's resource.
    pub owner_badge_address: Address,
    /// The XRD resource.
    pub xrd_address: Address,
    /// The defaults for new tokens.
    pub defaults: Defaults,
    /// The launched tokens: component to token resource.
    pub tokens: Registry<Address>,
    /// The token creation fees.
    pub fees_vault: Dec,
    /// The curve calculators by name.
    pub curve_calcs: Registry<String>,
    /// The dex adaptors by name.
    pub dexs: Registry<String>,
}

impl RakoonFunMain {
    /// The stores hold each key once.
    pub open spec fn wf(&self) -> bool {
        self.tokens.wf() && self.curve_calcs.wf() && self.dexs.wf()
    }

    /// Everything but the defaults, the fee vault and the token list is the
    /// same in `self` and `o`.
    pub open spec fn same_stores(&self, o: &Self) -> bool {
        &&& self.address@ == o.address@
        &&& self.owner_badge_address@ == o.owner_badge_address@
        &&& self.xrd_address@ == o.xrd_address@
        &&& self.curve_calcs@ == o.curve_calcs@
        &&& self.dexs@ == o.dexs@
    }

    /// A parent component with the given defaults, whose only curve
    /// calculator is the cs2 calculator at `cs2_address`, under the name "cs2",
    /// which is the default curve.
    pub fn new(
        max_token_supply_to_trade: Dec,
        max_xrd_market_cap: Dec,
        virtual_supply: Dec,
        fair_launch_period_mins: u32,
        tx_fee_perc: Dec,
        listing_fee_perc: Dec,
        creator_fee_perc: Dec,
        token_creation_fee: Dec,
        first_buy_max_perc: Dec,
        first_buy_lock_mins: i64,
        owner_badge_address: Address,
        address: Address,
        xrd_address: Address,
        cs2_address: Address,
    ) -> (r: RakoonFunMain)
        ensures
            r.wf(),
            r.address@ == address@,
            r.owner_badge_address@ == owner_badge_address@,
            r.xrd_address@ == xrd_address@,
            r.defaults@ == (DefaultsView {
                max_token_supply_to_trade: max_token_supply_to_trade.val(),
                max_xrd_market_cap: max_xrd_market_cap.val(),
                virtual_supply: virtual_supply.val(),
                tx_fee_perc: tx_fee_perc.val(),
                listing_fee_perc: listing_fee_perc.val(),
                creator_fee_perc: creator_fee_perc.val(),
                token_creation_fee: token_creation_fee.val(),
                fair_launch_period_mins,
                default_curve: "cs2"@,
                first_buy_max_perc: first_buy_max_perc.val(),
                first_buy_lock_mins,
            }),
            r.tokens@ == Map::<Seq<u8>, Seq<u8>>::empty(),
            r.fees_vault.val() == 0,
            r.curve_calcs@ == Map::<Seq<char>, Seq<u8>>::empty().insert("cs2"@, cs2_address@),
            r.dexs@ == Map::<Seq<char>, Seq<u8>>::empty(),
    {
        let mut curve_calcs: Registry<String> = Registry::new();
        let default_curve = String::from_str("cs2");
        curve_calcs.insert(default_curve.clone(), cs2_address);
        RakoonFunMain {
            address,
            owner_badge_address,
            xrd_address,
            defaults: Defaults {
                max_token_supply_to_trade,
                max_xrd_market_cap,
                virtual_supply,
                tx_fee_perc,
                listing_fee_perc,
                creator_fee_perc,
                token_creation_fee,
                fair_launch_period_mins,
                default_curve,
                first_buy_max_perc,
                first_buy_lock_mins,
            },
            tokens: Registry::new(),
            fees_vault: Dec::zero(),
            curve_calcs,
            dexs: Registry::new(),
        }
    }

    /// Sets the default `param_name` from the text `param_value` (see
    /// `s_change_param`). On refusal nothing changes.
    pub fn change_default_parameter(&mut self, param_name: String, param_value: String) -> (r: Result<ChangeDefaultEvent, TxError>)
        requires
            old(self).wf(),
        ensures
            final(self).wf(),
            final(self).same_stores(old(self)),
            final(self).tokens@ == old(self).tokens@,
            final(self).fees_vault == old(self).fees_vault,
            match r {
                Ok(ev) => s_change_param(old(self).defaults@, old(self).curve_calcs@, param_name@, param_value@)
                    == Ok::<(DefaultsView, Seq<char>), TxError>((final(self).defaults@, ev.old_value@))
                    && ev.field_name@ == param_name@ && ev.new_value@ == param_value@,
                Err(e) => s_change_param(old(self).defaults@, old(self).curve_calcs@, param_name@, param_value@)
                    == Err::<(DefaultsView, Seq<char>), TxError>(e) && final(self).defaults@ == old(self).defaults@,
            },
    {
        let prev = change_param(&mut self.defaults, &self.curve_calcs, &param_name, &param_value)?;
        Ok(ChangeDefaultEvent { field_name: param_name, old_value: prev, new_value: param_value })
    }

    /// Sets several defaults in turn (see `s_change_params`); all or none.
    pub fn change_default_parameters(&mut self, param_values: Vec<(String, String)>) -> (r: Result<Vec<ChangeDefaultEvent>, TxError>)
        requires
            old(self).wf(),
        ensures
            final(self).wf(),
            final(self).same_stores(old(self)),
            final(self).tokens@ == old(self).tokens@,
            final(self).fees_vault == old(self).fees_vault,
            ({
                let ps = param_values@.map_values(|p: (String, String)| (p.0@, p.1@));
                match r {
                    Ok(evs) => s_change_params(old(self).defaults@, old(self).curve_calcs@, ps)
                        == Ok::<(DefaultsView, Seq<Seq<char>>), TxError>((final(self).defaults@, evs@.map_values(|e: ChangeDefaultEvent| e.old_value@)))
                        && evs@.len() == ps.len()
                        && forall|i: int| 0 <= i < ps.len() ==> #[trigger] evs@[i].field_name@ == ps[i].0 && evs@[i].new_value@ == ps[i].1,
                    Err(e) => s_change_params(old(self).defaults@, old(self).curve_calcs@, ps)
                        == Err::<(DefaultsView, Seq<Seq<char>>), TxError>(e) && final(self).defaults@ == old(self).defaults@,
                }
            }),
    {
        let ghost ps = param_values@.map_values(|p: (String, String)| (p.0@, p.1@));
        let ghost whole = s_change_params(self.defaults@, self.curve_calcs@, ps);
        let mut work = self.defaults.copy();
        let mut evs: Vec<ChangeDefaultEvent> = Vec::new();
        let n = param_values.len();
        let mut i: usize = 0;
        assert(ps.skip(0) == ps);
        while i < n
            invariant
                n == param_values.len(),
                ps == param_values@.map_values(|p: (String, String)| (p.0@, p.1@)),
                0 <= i <= n,
                self.wf(),
                self.same_stores(old(self)),
                self.tokens@ == old(self).tokens@,
                self.fees_vault == old(self).fees_vault,
                self.defaults@ == old(self).defaults@,
                evs@.len() == i,
                forall|j: int| 0 <= j < i ==> #[trigger] evs@[j].field_name@ == ps[j].0 && evs@[j].new_value@ == ps[j].1,
                whole == s_change_params(self.defaults@, self.curve_calcs@, ps),
                ({
                    let olds = evs@.map_values(|e: ChangeDefaultEvent| e.old_value@);
                    match s_change_params(work@, self.curve_calcs@, ps.skip(i as int)) {
                        Err(e) => whole == Err::<(DefaultsView, Seq<Seq<char>>), TxError>(e),
                        Ok((d2, rest)) => whole == Ok::<(DefaultsView, Seq<Seq<char>>), TxError>((d2, olds + rest)),
                    }
                }),
            decreases n - i,
        {
            let ghost rest = ps.skip(i as int);
            let ghost olds = evs@.map_values(|e: ChangeDefaultEvent| e.old_value@);
            assert(rest[0] == (param_values@[i as int].0@, param_values@[i as int].1@));
            assert(rest.drop_first() == ps.skip(i + 1));
            let name = param_values[i].0.clone();
            let value = param_values[i].1.clone();
            let prev = change_param(&mut work, &self.curve_calcs, &name, &value)?;
            evs.push(ChangeDefaultEvent { field_name: name, old_value: prev, new_value: value });
            proof {
                let nolds = evs@.map_values(|e: ChangeDefaultEvent| e.old_value@);
                assert(nolds =~= olds.push(prev@));
                match s_change_params(work@, self.curve_calcs@, ps.skip(i + 1)) {
                    Err(e) => {},
                    Ok((d2, r2)) => {
                        assert(olds + seq![prev@].add(r2) =~= nolds + r2);
                    },
                }
            }
            i += 1;
        }
        proof {
            assert(ps.skip(n as int) =~= Seq::<(Seq<char>, Seq<char>)>::empty());
            assert(evs@.map_values(|e: ChangeDefaultEvent| e.old_value@) + Seq::<Seq<char>>::empty()
                =~= evs@.map_values(|e: ChangeDefaultEvent| e.old_value@));
        }
        self.defaults = work;
        Ok(evs)
    }
    /// Launches a token curve (see `s_new_token_curve`): the creator's own
    /// supply, market cap, virtual supply, creator fee, fair launch period and
    /// lock, the parent's trade and listing fees. The calculator registered
    /// under `curve` and the dex adaptor under `dex` (none for an empty name)
    /// are used; the ledger's addresses for the new component come in
    /// `addresses`. The token is recorded among the launched tokens. Returns
    /// the component, the first buy and the XRD handed back. On refusal
    /// nothing changes.
    #[verifier::rlimit(40)]
    pub fn new_token_curve_advanced<C: CurveCalcsAdaptor>(
        &mut self,
        token_info: TokenInfo,
        curve: String,
        dex: String,
        max_token_supply_to_trade: Dec,
        max_xrd_market_cap_to_trade: Dec,
        virtual_supply: Dec,
        creator_fee_perc: Dec,
        fair_launch_period_mins: u32,
        first_buy_amount: Dec,
        first_buy_bucket: Option<(Address, Dec)>,
        first_buy_lock_mins: i64,
        fee_bucket: (Address, Dec),
        addresses: CurveAddresses,
        tip_percentage: u16,
        now: i64,
    ) -> (r: Result<(RakoonFunTokenCurve<C>, FirstBuy, Dec), TxError>)
        requires
            old(self).wf(),
        ensures
            launched::<C>(*old(self), *final(self), token_info, curve, dex, max_token_supply_to_trade,
                max_xrd_market_cap_to_trade, virtual_supply, creator_fee_perc, fair_launch_period_mins, first_buy_amount,
                first_buy_bucket, first_buy_lock_mins, fee_bucket, addresses, tip_percentage, now, r),
    {
        let fee = self.defaults.token_creation_fee;
        let (fv, rest) = if fee.is_positive() {
            if !fee_bucket.0.same(&self.xrd_address) {
                return Err(TxError::WrongResource);
            }
            if fee_bucket.1.lt(&fee) {
                return Err(TxError::InsufficientResource);
            }
            let fv = plus(self.fees_vault, fee)?;
            let rest = take(fee_bucket.1, fee)?;
            (fv, rest)
        } else {
            (self.fees_vault, fee_bucket.1)
        };
        let curve_address = match self.curve_calcs.get(&curve) {
            Some(a) => a,
            None => return Err(TxError::UnknownCurve),
        };
        let dex_address = if dex.as_str().is_empty() {
            None
        } else {
            match self.dexs.get(&dex) {
                Some(a) => Some(a),
                None => return Err(TxError::UnknownDex),
            }
        };
        if token_info.name.as_str().is_empty() || token_info.symbol.as_str().is_empty() {
            return Err(TxError::MissingNameOrSymbol);
        }
        if !first_buy_amount.is_zero() {
            let cap = times(self.defaults.first_buy_max_perc, max_token_supply_to_trade)?;
            if first_buy_amount.gt(&cap) {
                return Err(TxError::FirstBuyTooHigh);
            }
        }
        if first_buy_lock_mins < self.defaults.first_buy_lock_mins {
            return Err(TxError::LockPeriodTooShort);
        }
        let component = addresses.address.copy();
        let token = addresses.token_address.copy();
        let calcs = C::from_address(curve_address);
        let (tc, f) = RakoonFunTokenCurve::new(max_token_supply_to_trade, max_xrd_market_cap_to_trade, virtual_supply,
            self.defaults.tx_fee_perc, self.defaults.listing_fee_perc, creator_fee_perc, fair_launch_period_mins,
            self.address.copy(), calcs, dex_address, first_buy_amount, first_buy_bucket, first_buy_lock_mins, addresses,
            tip_percentage, now)?;
        if !fee_bucket.0.same(&self.xrd_address) {
            return Err(TxError::WrongResource);
        }
        let remaining = plus(rest, f.xrd_change)?;
        self.fees_vault = fv;
        self.tokens.insert(component, token);
        Ok((tc, f, remaining))
    }

    /// Launches a token curve with the parent's defaults for everything but
    /// the name, the calculator, the dex adaptor and the first buy: in its
    /// result and every effect it is `new_token_curve_advanced` given the
    /// defaults' tradable supply, market cap, virtual supply, creator fee,
    /// fair launch period and lock (both are stated by `launched`).
    pub fn new_token_curve_simple<C: CurveCalcsAdaptor>(
        &mut self,
        token_info: TokenInfo,
        curve: String,
        dex: String,
        first_buy_amount: Dec,
        first_buy_bucket: Option<(Address, Dec)>,
        fee_bucket: (Address, Dec),
        addresses: CurveAddresses,
        tip_percentage: u16,
        now: i64,
    ) -> (r: Result<(RakoonFunTokenCurve<C>, FirstBuy, Dec), TxError>)
        requires
            old(self).wf(),
        ensures
            launched::<C>(*old(self), *final(self), token_info, curve, dex, old(self).defaults.max_token_supply_to_trade,
                old(self).defaults.max_xrd_market_cap, old(self).defaults.virtual_supply, old(self).defaults.creator_fee_perc,
                old(self).defaults.fair_launch_period_mins, first_buy_amount, first_buy_bucket,
                old(self).defaults.first_buy_lock_mins, fee_bucket, addresses, tip_percentage, now, r),
    {
        let d = &self.defaults;
        let mts = d.max_token_supply_to_trade;
        let mc = d.max_xrd_market_cap;
        let vs = d.virtual_supply;
        let cp = d.creator_fee_perc;
        let mins = d.fair_launch_period_mins;
        let lock = d.first_buy_lock_mins;
        self.new_token_curve_advanced(token_info, curve, dex, mts, mc, vs, cp, mins, first_buy_amount, first_buy_bucket,
            lock, fee_bucket, addresses, tip_percentage, now)
    }

    /// Hands out `amount` of the creation fees; refused for more than the
    /// vault holds (and for a negative amount).
    pub fn claim_fee_amount(&mut self, amount: Dec) -> (r: Result<Dec, TxError>)
        ensures
            final(self).same_stores(old(self)),
            final(self).tokens@ == old(self).tokens@,
            final(self).defaults@ == old(self).defaults@,
            match r {
                Ok(out) => out == amount && s_take(old(self).fees_vault.val(), amount.val())
                    == Ok::<int, TxError>(final(self).fees_vault.val()),
                Err(e) => final(self).fees_vault == old(self).fees_vault && (
                    (amount.val() > old(self).fees_vault.val() && e == TxError::NotEnoughFees)
                    || (amount.val() <= old(self).fees_vault.val() && s_take(old(self).fees_vault.val(), amount.val())
                        == Err::<int, TxError>(e))),
            },
    {
        if amount.gt(&self.fees_vault) {
            return Err(TxError::NotEnoughFees);
        }
        let rest = take(self.fees_vault, amount)?;
        self.fees_vault = rest;
        Ok(amount)
    }

    /// Hands out all the creation fees.
    pub fn claim_all_fees(&mut self) -> (r: Dec)
        ensures
            final(self).same_stores(old(self)),
            final(self).tokens@ == old(self).tokens@,
            final(self).defaults@ == old(self).defaults@,
            r == old(self).fees_vault,
            final(self).fees_vault.val() == 0,
    {
        let out = self.fees_vault;
        self.fees_vault = Dec::zero();
        out
    }

    /// Adds a bucket of XRD to the creation fees; refused for another resource.
    pub fn transfer_fees(&mut self, in_resource: &Address, in_amount: Dec) -> (r: Result<(), TxError>)
        ensures
            final(self).same_stores(old(self)),
            final(self).tokens@ == old(self).tokens@,
            final(self).defaults@ == old(self).defaults@,
            match r {
                Ok(_) => in_resource@ == old(self).xrd_address@
                    && lift(dec_add(old(self).fees_vault.val(), in_amount.val())) == Ok::<int, TxError>(final(self).fees_vault.val()),
                Err(e) => final(self).fees_vault == old(self).fees_vault && (
                    (in_resource@ != old(self).xrd_address@ && e == TxError::WrongResource)
                    || (in_resource@ == old(self).xrd_address@
                        && lift(dec_add(old(self).fees_vault.val(), in_amount.val())) == Err::<int, TxError>(e))),
            },
    {
        if !in_resource.same(&self.xrd_address) {
            return Err(TxError::WrongResource);
        }
        self.fees_vault = plus(self.fees_vault, in_amount)?;
        Ok(())
    }

    /// Registers the curve calculator at `address` under `name`.
    pub fn update_curve_calc(&mut self, curve_calcs_name: String, curve_calcs_component_address: Address)
        requires
            old(self).wf(),
        ensures
            final(self).wf(),
            final(self).curve_calcs@ == old(self).curve_calcs@.insert(curve_calcs_name@, curve_calcs_component_address@),
            final(self).dexs@ == old(self).dexs@,
            final(self).tokens@ == old(self).tokens@,
            final(self).defaults@ == old(self).defaults@,
            final(self).fees_vault == old(self).fees_vault,
    {
        self.curve_calcs.insert(curve_calcs_name, curve_calcs_component_address);
    }

    /// Forgets the curve calculator under `name`.
    pub fn delete_curve_calc(&mut self, curve_calcs_name: String)
        requires
            old(self).wf(),
        ensures
            final(self).wf(),
            final(self).curve_calcs@ == old(self).curve_calcs@.remove(curve_calcs_name@),
            final(self).dexs@ == old(self).dexs@,
            final(self).tokens@ == old(self).tokens@,
            final(self).defaults@ == old(self).defaults@,
            final(self).fees_vault == old(self).fees_vault,
    {
        self.curve_calcs.remove(&curve_calcs_name);
    }

    /// Registers the dex adaptor at `address` under `name`; refused for an
    /// empty name.
    pub fn update_dexs(&mut self, dex_name: String, dex_adaptor_address: Address) -> (r: Result<(), TxError>)
        requires
            old(self).wf(),
        ensures
            final(self).wf(),
            final(self).curve_calcs@ == old(self).curve_calcs@,
            final(self).tokens@ == old(self).tokens@,
            final(self).defaults@ == old(self).defaults@,
            final(self).fees_vault == old(self).fees_vault,
            match r {
                Ok(_) => dex_name@.len() > 0 && final(self).dexs@ == old(self).dexs@.insert(dex_name@, dex_adaptor_address@),
                Err(e) => dex_name@.len() == 0 && e == TxError::MissingDexName && final(self).dexs@ == old(self).dexs@,
            },
    {
        if dex_name.as_str().is_empty() {
            return Err(TxError::MissingDexName);
        }
        self.dexs.insert(dex_name, dex_adaptor_address);
        Ok(())
    }

    /// Forgets the dex adaptor under `name`.
    pub fn delete_dex(&mut self, dex_name: String)
        requires
            old(self).wf(),
        ensures
            final(self).wf(),
            final(self).dexs@ == old(self).dexs@.remove(dex_name@),
            final(self).curve_calcs@ == old(self).curve_calcs@,
            final(self).tokens@ == old(self).tokens@,
            final(self).defaults@ == old(self).defaults@,
            final(self).fees_vault == old(self).fees_vault,
    {
        self.dexs.remove(&dex_name);
    }

    /// The dex adaptor registered under `name`.
    pub fn get_dex_adaptor(&self, dex_name: String) -> (r: Result<Address, TxError>)
        requires
            self.wf(),
        ensures
            match r {
                Ok(a) => self.dexs@.contains_key(dex_name@) && a@ == self.dexs@[dex_name@],
                Err(e) => !self.dexs@.contains_key(dex_name@) && e == TxError::UnknownDex,
            },
    {
        match self.dexs.get(&dex_name) {
            Some(a) => Ok(a),
            None => Err(TxError::UnknownDex),
        }
    }
}

} // verus!
