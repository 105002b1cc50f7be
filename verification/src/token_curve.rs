//! One token's bonding-curve component: buying and selling along the curve,
//! the fair launch period, fees, and the hand-over of the token to a dex once
//! the XRD target is reached.
//!
//! The ledger work (vaults, buckets, minting, events, the clock, the dex) stays
//! with the caller: every method here takes what came in (amounts, resources,
//! the time, the tip) and returns what goes out, and keeps the amounts of all
//! of the component's vaults in `Books`.
use crate::address::{copy_opt, opt_view, Address};
use crate::curve::CurveCalcsAdaptor;
use crate::decimal::{dec_add, dec_div, dec_mul, dec_sub, e18, opt_val, Dec};
use crate::laws::{holds_vault, law_insert_other_adds_to_one_vault, vault_amount};
use crate::ledger::{divide, lift, minus, plus, res_val, s_take, take, times, TxError};
use vstd::prelude::*;

verus! {

/// The amounts and clocks of a token curve component: every vault by its
/// amount, the curve parameters, the counters.
#[derive(Clone, Copy, Debug)]
pub struct Books {
    /// The supply after listing on a dex.
    pub max_token_supply: Dec,
    /// The supply that can be traded on the curve.
    pub max_token_supply_to_trade: Dec,
    /// The XRD market cap at the end of the curve.
    pub max_xrd_market_cap: Dec,
    /// The most XRD the component takes in.
    pub max_xrd: Dec,
    /// The supply minted at creation to skip the flat start of the curve.
    pub virtual_supply: Dec,
    /// The XRD the virtual supply would have cost.
    pub virtual_supply_xrd: Dec,
    /// Fee share of every trade.
    pub tx_fee_perc: Dec,
    /// Fee share paid to the launcher when listing.
    pub listing_fee_perc: Dec,
    /// Fee share paid to the creator when listing.
    pub creator_fee_perc: Dec,
    /// XRD received for tokens.
    pub xrd_vault: Dec,
    /// Tokens held by the component.
    pub token_vault: Dec,
    /// Fees earned by the component.
    pub fee_vault: Dec,
    /// Fees earned by the creator.
    pub creator_fee_vault: Dec,
    /// The price after the last trade.
    pub last_price: Dec,
    /// The supply on the curve.
    pub current_supply: Dec,
    /// The total supply of the token resource.
    pub token_total_supply: Dec,
    /// Tokens bought during the fair launch period.
    pub fair_launch_tokens: Dec,
    /// XRD paid for the fair launch tokens still unclaimed.
    pub fair_launch_xrd: Dec,
    /// XRD traded over all buys and sells.
    pub xrd_traded: Dec,
    /// The creator's locked first buy tokens.
    pub first_buy_vault: Dec,
    /// Length of the fair launch period.
    pub fair_launch_period_mins: u32,
    /// Whether the fair launch period still runs.
    pub in_fair_launch_period: bool,
    /// Creation time, in seconds since the epoch.
    pub time_created: i64,
    /// When the XRD target was reached, or 0.
    pub target_reached: i64,
    /// Number of buy and sell transactions.
    pub no_txs: u32,
    /// When the first buy tokens can be claimed.
    pub first_buy_claim: i64,
}

/// `Books` as numbers.
pub struct BooksView {
    pub max_token_supply: int,
    pub max_token_supply_to_trade: int,
    pub max_xrd_market_cap: int,
    pub max_xrd: int,
    pub virtual_supply: int,
    pub virtual_supply_xrd: int,
    pub tx_fee_perc: int,
    pub listing_fee_perc: int,
    pub creator_fee_perc: int,
    pub xrd_vault: int,
    pub token_vault: int,
    pub fee_vault: int,
    pub creator_fee_vault: int,
    pub last_price: int,
    pub current_supply: int,
    pub token_total_supply: int,
    pub fair_launch_tokens: int,
    pub fair_launch_xrd: int,
    pub xrd_traded: int,
    pub first_buy_vault: int,
    pub fair_launch_period_mins: int,
    pub in_fair_launch_period: bool,
    pub time_created: int,
    pub target_reached: int,
    pub no_txs: int,
    pub first_buy_claim: int,
}

impl View for Books {
    type V = BooksView;

    open spec fn view(&self) -> BooksView {
        BooksView {
            max_token_supply: self.max_token_supply.val(),
            max_token_supply_to_trade: self.max_token_supply_to_trade.val(),
            max_xrd_market_cap: self.max_xrd_market_cap.val(),
            max_xrd: self.max_xrd.val(),
            virtual_supply: self.virtual_supply.val(),
            virtual_supply_xrd: self.virtual_supply_xrd.val(),
            tx_fee_perc: self.tx_fee_perc.val(),
            listing_fee_perc: self.listing_fee_perc.val(),
            creator_fee_perc: self.creator_fee_perc.val(),
            xrd_vault: self.xrd_vault.val(),
            token_vault: self.token_vault.val(),
            fee_vault: self.fee_vault.val(),
            creator_fee_vault: self.creator_fee_vault.val(),
            last_price: self.last_price.val(),
            current_supply: self.current_supply.val(),
            token_total_supply: self.token_total_supply.val(),
            fair_launch_tokens: self.fair_launch_tokens.val(),
            fair_launch_xrd: self.fair_launch_xrd.val(),
            xrd_traded: self.xrd_traded.val(),
            first_buy_vault: self.first_buy_vault.val(),
            fair_launch_period_mins: self.fair_launch_period_mins as int,
            in_fair_launch_period: self.in_fair_launch_period,
            time_created: self.time_created as int,
            target_reached: self.target_reached as int,
            no_txs: self.no_txs as int,
            first_buy_claim: self.first_buy_claim as int,
        }
    }
}

/// Whether `x` fits an `i64`.
pub open spec fn in_i64(x: int) -> bool {
    i64::MIN <= x <= i64::MAX
}

/// Rounding slack allowed on curve amounts: 10^-17, that is 10 attos.
pub open spec fn slack() -> int {
    10
}

// ---------------------------------------------------------------------------
// The fair launch period

/// Whether the fair launch period still runs at `now`: it ends once `now` is
/// past `time_created + 60 * fair_launch_period_mins`.
pub open spec fn s_fair_flag(v: BooksView, now: int) -> Result<bool, TxError> {
    if v.in_fair_launch_period {
        let deadline = v.time_created + v.fair_launch_period_mins * 60;
        if !in_i64(deadline) {
            Err(TxError::Overflow)
        } else {
            Ok(!(now > deadline))
        }
    } else {
        Ok(false)
    }
}

/// Computes `s_fair_flag`.
pub fn fair_flag(b: &Books, now: i64) -> (r: Result<bool, TxError>)
    ensures
        r == s_fair_flag(b@, now as int),
{
    if b.in_fair_launch_period {
        let mins: i64 = b.fair_launch_period_mins as i64;
        let period: i64 = mins * 60;
        match b.time_created.checked_add(period) {
            Some(deadline) => Ok(!(now > deadline)),
            None => Err(TxError::Overflow),
        }
    } else {
        Ok(false)
    }
}

// ---------------------------------------------------------------------------
// Fees on a buy

/// Splits the XRD sent to `buy` into the fee and the XRD that buys tokens,
/// given the XRD still `available` below the maximum. Past the maximum, the
/// fee is charged on the available XRD only, and the purchase is capped at
/// the available XRD (the third element then tells that the target is hit).
pub open spec fn s_buy_split(amount: int, available: int, perc: int) -> Result<(int, int, bool), TxError> {
    let fee0 = dec_mul(amount, perc);
    if fee0 is None {
        Err(TxError::Overflow)
    } else if amount > available {
        let fee = dec_mul(available, perc);
        if fee is None {
            Err(TxError::Overflow)
        } else {
            let x = dec_sub(amount, fee.unwrap());
            if x is None {
                Err(TxError::Overflow)
            } else if x.unwrap() >= available {
                Ok((fee.unwrap(), available, true))
            } else {
                Ok((fee.unwrap(), x.unwrap(), false))
            }
        }
    } else {
        let x = dec_sub(amount, fee0.unwrap());
        if x is None {
            Err(TxError::Overflow)
        } else {
            Ok((fee0.unwrap(), x.unwrap(), false))
        }
    }
}

/// Computes `s_buy_split`.
pub fn buy_split(amount: Dec, available: Dec, perc: Dec) -> (r: Result<(Dec, Dec, bool), TxError>)
    ensures
        match r {
            Ok((fee, x, hit)) => s_buy_split(amount.val(), available.val(), perc.val()) == Ok::<(int, int, bool), TxError>((fee.val(), x.val(), hit)),
            Err(e) => s_buy_split(amount.val(), available.val(), perc.val()) == Err::<(int, int, bool), TxError>(e),
        },
{
    let fee0 = times(amount, perc)?;
    if amount.gt(&available) {
        let fee = times(available, perc)?;
        let x = minus(amount, fee)?;
        if x.ge(&available) {
            Ok((fee, available, true))
        } else {
            Ok((fee, x, false))
        }
    } else {
        let x = minus(amount, fee0)?;
        Ok((fee0, x, false))
    }
}

// ---------------------------------------------------------------------------
// Handing the token over to a dex

/// What the component hands to the dex adaptor to create the listing.
#[derive(Clone, Copy, Debug)]
pub struct ListingOrder {
    /// Tokens for the pool: newly minted plus those the component held.
    pub tokens: Dec,
    /// XRD for the pool: the component's XRD after the listing fees.
    pub xrd: Dec,
}

/// The creator's and the launcher's share of the XRD above what the listing
/// takes: `xrd_for_listing = (max_xrd + virtual_supply_xrd) * (1 - listing_fee_perc
/// - creator_fee_perc)`, the XRD left above it is split in the ratio of the two
/// fee percentages.
pub open spec fn s_listing_fees(v: BooksView) -> Result<(int, int), TxError> {
    let a = dec_add(v.max_xrd, v.virtual_supply_xrd);
    let b = dec_sub(e18(), v.listing_fee_perc);
    let c = dec_sub(b.unwrap(), v.creator_fee_perc);
    let for_listing = dec_mul(a.unwrap(), c.unwrap());
    let available = dec_sub(v.xrd_vault, for_listing.unwrap());
    let t = dec_mul(available.unwrap(), v.creator_fee_perc);
    let both = dec_add(v.listing_fee_perc, v.creator_fee_perc);
    let creator_fee = dec_div(t.unwrap(), both.unwrap());
    let listing_fee = dec_sub(available.unwrap(), creator_fee.unwrap());
    if a is None || b is None || c is None || for_listing is None || available is None || t is None
        || both is None || creator_fee is None || listing_fee is None {
        Err(TxError::Overflow)
    } else {
        Ok((creator_fee.unwrap(), listing_fee.unwrap()))
    }
}

/// The tokens to mint for the pool: the full supply less the supply on the
/// curve and the tokens the component holds.
pub open spec fn s_tokens_to_mint(v: BooksView) -> Result<int, TxError> {
    let m = dec_sub(v.max_token_supply, v.current_supply);
    let t = dec_sub(m.unwrap(), v.token_vault);
    if m is None || t is None {
        Err(TxError::Overflow)
    } else {
        Ok(t.unwrap())
    }
}

/// The fee payments and the minting that precede the dex listing. Refused
/// before the target is reached, once listed, and without a dex adaptor. The
/// component's XRD and tokens all go to the order; the supply becomes the
/// token's total supply.
pub open spec fn s_list_prepare(v: BooksView, listed: bool, has_dex: bool) -> Result<(BooksView, (int, int)), TxError> {
    if v.target_reached <= 0 {
        Err(TxError::TargetNotReached)
    } else if listed {
        Err(TxError::AlreadyListed)
    } else if !has_dex {
        Err(TxError::NoDexAdaptor)
    } else {
        match s_listing_fees(v) {
            Err(e) => Err(e),
            Ok((creator_fee, listing_fee)) => match s_take(v.xrd_vault, creator_fee) {
                Err(e) => Err(e),
                Ok(xv1) => match lift(dec_add(v.creator_fee_vault, creator_fee)) {
                    Err(e) => Err(e),
                    Ok(cfv) => match s_take(xv1, listing_fee) {
                        Err(e) => Err(e),
                        Ok(xv2) => match lift(dec_add(v.fee_vault, listing_fee)) {
                            Err(e) => Err(e),
                            Ok(fv) => match s_tokens_to_mint(v) {
                                Err(e) => Err(e),
                                Ok(to_mint) => {
                                    let minted = if to_mint > 0 { to_mint } else { 0 };
                                    match lift(dec_add(v.token_total_supply, minted)) {
                                        Err(e) => Err(e),
                                        Ok(total) => match lift(dec_add(minted, v.token_vault)) {
                                            Err(e) => Err(e),
                                            Ok(tokens) => Ok((
                                                BooksView {
                                                    xrd_vault: 0,
                                                    creator_fee_vault: cfv,
                                                    fee_vault: fv,
                                                    token_vault: 0,
                                                    token_total_supply: total,
                                                    current_supply: total,
                                                    ..v
                                                },
                                                (tokens, xv2),
                                            )),
                                        },
                                    }
                                },
                            },
                        },
                    },
                },
            },
        }
    }
}

/// Computes `s_listing_fees`.
fn listing_fees(b: &Books) -> (r: Result<(Dec, Dec), TxError>)
    ensures
        match r {
            Ok((cf, lf)) => s_listing_fees(b@) == Ok::<(int, int), TxError>((cf.val(), lf.val())),
            Err(e) => s_listing_fees(b@) == Err::<(int, int), TxError>(e),
        },
{
    let a = plus(b.max_xrd, b.virtual_supply_xrd)?;
    let bb = minus(Dec::one(), b.listing_fee_perc)?;
    let c = minus(bb, b.creator_fee_perc)?;
    let for_listing = times(a, c)?;
    let available = minus(b.xrd_vault, for_listing)?;
    let t = times(available, b.creator_fee_perc)?;
    let both = plus(b.listing_fee_perc, b.creator_fee_perc)?;
    let creator_fee = divide(t, both)?;
    let listing_fee = minus(available, creator_fee)?;
    Ok((creator_fee, listing_fee))
}

/// Computes `s_list_prepare`.
pub fn list_prepare(b: Books, listed: bool, has_dex: bool) -> (r: Result<(Books, ListingOrder), TxError>)
    ensures
        match r {
            Ok((nb, o)) => s_list_prepare(b@, listed, has_dex) == Ok::<(BooksView, (int, int)), TxError>((nb@, (o.tokens.val(), o.xrd.val()))),
            Err(e) => s_list_prepare(b@, listed, has_dex) == Err::<(BooksView, (int, int)), TxError>(e),
        },
{
    if b.target_reached <= 0 {
        return Err(TxError::TargetNotReached);
    }
    if listed {
        return Err(TxError::AlreadyListed);
    }
    if !has_dex {
        return Err(TxError::NoDexAdaptor);
    }
    let (creator_fee, listing_fee) = listing_fees(&b)?;
    let xv1 = take(b.xrd_vault, creator_fee)?;
    let cfv = plus(b.creator_fee_vault, creator_fee)?;
    let xv2 = take(xv1, listing_fee)?;
    let fv = plus(b.fee_vault, listing_fee)?;
    let m = minus(b.max_token_supply, b.current_supply)?;
    let to_mint = minus(m, b.token_vault)?;
    let minted = if to_mint.is_positive() { to_mint } else { Dec::zero() };
    let total = plus(b.token_total_supply, minted)?;
    let tokens = plus(minted, b.token_vault)?;
    let nb = Books {
        xrd_vault: Dec::zero(),
        creator_fee_vault: cfv,
        fee_vault: fv,
        token_vault: Dec::zero(),
        token_total_supply: total,
        current_supply: total,
        ..b
    };
    Ok((nb, ListingOrder { tokens, xrd: xv2 }))
}

// ---------------------------------------------------------------------------
// Trades

/// The side of a trade.
#[derive(Clone, Copy, Debug, PartialEq, Eq, Structural)]
pub enum TradeSide {
    Buy,
    Sell,
}

/// The trade event the component emits.
#[derive(Clone, Copy, Debug)]
pub struct TradeEvent {
    pub side: TradeSide,
    pub fair_launch_period: bool,
    pub token_amount: Dec,
    pub xrd_amount: Dec,
    pub end_price: Dec,
    pub total_xrd_traded: Dec,
    pub total_txs: u32,
}

/// `TradeEvent` as numbers.
pub struct TradeEventView {
    pub side: TradeSide,
    pub fair_launch_period: bool,
    pub token_amount: int,
    pub xrd_amount: int,
    pub end_price: int,
    pub total_xrd_traded: int,
    pub total_txs: int,
}

impl View for TradeEvent {
    type V = TradeEventView;

    open spec fn view(&self) -> TradeEventView {
        TradeEventView {
            side: self.side,
            fair_launch_period: self.fair_launch_period,
            token_amount: self.token_amount.val(),
            xrd_amount: self.xrd_amount.val(),
            end_price: self.end_price.val(),
            total_xrd_traded: self.total_xrd_traded.val(),
            total_txs: self.total_txs as int,
        }
    }
}

/// What a trade hands back: the out bucket (tokens, fair launch receipts or
/// XRD), what is left of the in bucket, the event, and the order for the dex
/// when the trade completed the curve.
#[derive(Clone, Copy, Debug)]
pub struct Trade {
    /// The out bucket holds fair launch receipts rather than tokens.
    pub out_is_receipt: bool,
    /// The amount in the out bucket.
    pub out_amount: Dec,
    /// The XRD recorded on the receipt minted, if one was.
    pub receipt_xrd: Option<Dec>,
    /// What is returned of the in bucket.
    pub change: Dec,
    /// The trade event, when a trade took place.
    pub event: Option<TradeEvent>,
    /// The dex order, when the trade reached the target.
    pub listing: Option<ListingOrder>,
}

/// `Trade` as numbers.
pub struct TradeView {
    pub out_is_receipt: bool,
    pub out_amount: int,
    pub receipt_xrd: Option<int>,
    pub change: int,
    pub event: Option<TradeEventView>,
    pub listing: Option<(int, int)>,
}

impl View for Trade {
    type V = TradeView;

    open spec fn view(&self) -> TradeView {
        TradeView {
            out_is_receipt: self.out_is_receipt,
            out_amount: self.out_amount.val(),
            receipt_xrd: opt_val(self.receipt_xrd),
            change: self.change.val(),
            event: match self.event {
                Some(e) => Some(e@),
                None => None,
            },
            listing: match self.listing {
                Some(o) => Some((o.tokens.val(), o.xrd.val())),
                None => None,
            },
        }
    }
}

/// The event of a trade of `tokens` for `xrd`, after which the books are `v`.
pub open spec fn trade_event(side: TradeSide, v: BooksView, tokens: int, xrd: int) -> TradeEventView {
    TradeEventView {
        side,
        fair_launch_period: v.in_fair_launch_period,
        token_amount: tokens,
        xrd_amount: xrd,
        end_price: v.last_price,
        total_xrd_traded: v.xrd_traded,
        total_txs: v.no_txs,
    }
}

/// The curve's answer to how many tokens `x` XRD buys, clamped to the
/// tradable supply when it passes it by no more than the rounding slack.
pub open spec fn s_receive_tokens<C: CurveCalcsAdaptor>(v: BooksView, x: int) -> Result<int, TxError> {
    match lift(C::spec_tokens_received(x, v.current_supply, v.max_xrd_market_cap, v.max_token_supply_to_trade)) {
        Err(e) => Err(e),
        Ok(recv) => {
            let a = dec_add(recv, v.current_supply);
            let over = dec_sub(a.unwrap(), v.max_token_supply_to_trade);
            if a is None || over is None {
                Err(TxError::Overflow)
            } else if over.unwrap() > 0 {
                if over.unwrap() > slack() {
                    Err(TxError::ReceiveTokensCalcError)
                } else {
                    lift(dec_sub(v.max_token_supply_to_trade, v.current_supply))
                }
            } else {
                Ok(recv)
            }
        },
    }
}

/// Buying with `x` XRD taken from a bucket that holds `in_left`: the tokens
/// are minted, kept for the fair launch period or handed out, the XRD goes to
/// the vault, and price and counters are updated. Returns the books, what is
/// left in the bucket, and the tokens minted.
pub open spec fn s_buy_tokens<C: CurveCalcsAdaptor>(v: BooksView, in_left: int, x: int) -> Result<(BooksView, int, int), TxError> {
    match s_receive_tokens::<C>(v, x) {
        Err(e) => Err(e),
        Ok(recv) => if recv < 0 {
            Err(TxError::InvalidMintAmount)
        } else {
            let fair = v.in_fair_launch_period;
            let total = dec_add(v.token_total_supply, recv);
            let flt = if fair { dec_add(v.fair_launch_tokens, recv) } else { Some(v.fair_launch_tokens) };
            let flx = if fair { dec_add(v.fair_launch_xrd, x) } else { Some(v.fair_launch_xrd) };
            let supply = dec_add(v.current_supply, recv);
            if total is None || flt is None || flx is None || supply is None {
                Err(TxError::Overflow)
            } else {
                match s_take(in_left, x) {
                    Err(e) => Err(e),
                    Ok(in_rest) => {
                        let xv = dec_add(v.xrd_vault, x);
                        let price = C::spec_price(supply.unwrap(), v.max_xrd_market_cap, v.max_token_supply_to_trade);
                        let traded = dec_add(v.xrd_traded, x);
                        if xv is None || price is None || traded is None || v.no_txs + 1 > u32::MAX {
                            Err(TxError::Overflow)
                        } else {
                            Ok((
                                BooksView {
                                    token_total_supply: total.unwrap(),
                                    fair_launch_tokens: flt.unwrap(),
                                    fair_launch_xrd: flx.unwrap(),
                                    current_supply: supply.unwrap(),
                                    xrd_vault: xv.unwrap(),
                                    last_price: price.unwrap(),
                                    xrd_traded: traded.unwrap(),
                                    no_txs: v.no_txs + 1,
                                    ..v
                                },
                                in_rest,
                                recv,
                            ))
                        }
                    },
                }
            }
        },
    }
}

/// Computes `s_receive_tokens`.
fn receive_tokens<C: CurveCalcsAdaptor>(c: &C, b: &Books, x: Dec) -> (r: Result<Dec, TxError>)
    ensures
        res_val(r) == s_receive_tokens::<C>(b@, x.val()),
{
    let recv = match c.calculate_tokens_received(x, b.current_supply, b.max_xrd_market_cap, b.max_token_supply_to_trade) {
        Some(v) => v,
        None => return Err(TxError::Overflow),
    };
    let a = plus(recv, b.current_supply)?;
    let over = minus(a, b.max_token_supply_to_trade)?;
    if over.is_positive() {
        if over.gt(&Dec::from_attos(10)) {
            return Err(TxError::ReceiveTokensCalcError);
        }
        minus(b.max_token_supply_to_trade, b.current_supply)
    } else {
        Ok(recv)
    }
}

/// Computes `s_buy_tokens`.
fn buy_tokens<C: CurveCalcsAdaptor>(c: &C, b: Books, in_left: Dec, x: Dec) -> (r: Result<(Books, Dec, Dec), TxError>)
    ensures
        match r {
            Ok((nb, rest, recv)) => s_buy_tokens::<C>(b@, in_left.val(), x.val()) == Ok::<(BooksView, int, int), TxError>((nb@, rest.val(), recv.val())),
            Err(e) => s_buy_tokens::<C>(b@, in_left.val(), x.val()) == Err::<(BooksView, int, int), TxError>(e),
        },
{
    let recv = receive_tokens(c, &b, x)?;
    if recv.is_negative() {
        return Err(TxError::InvalidMintAmount);
    }
    let fair = b.in_fair_launch_period;
    let total = plus(b.token_total_supply, recv)?;
    let flt = if fair { plus(b.fair_launch_tokens, recv)? } else { b.fair_launch_tokens };
    let flx = if fair { plus(b.fair_launch_xrd, x)? } else { b.fair_launch_xrd };
    let supply = plus(b.current_supply, recv)?;
    let in_rest = take(in_left, x)?;
    let xv = plus(b.xrd_vault, x)?;
    let price = match c.calculate_price(supply, b.max_xrd_market_cap, b.max_token_supply_to_trade) {
        Some(p) => p,
        None => return Err(TxError::Overflow),
    };
    let traded = plus(b.xrd_traded, x)?;
    if b.no_txs == u32::MAX {
        return Err(TxError::Overflow);
    }
    let nb = Books {
        token_total_supply: total,
        fair_launch_tokens: flt,
        fair_launch_xrd: flx,
        current_supply: supply,
        xrd_vault: xv,
        last_price: price,
        xrd_traded: traded,
        no_txs: b.no_txs + 1,
        ..b
    };
    Ok((nb, in_rest, recv))
}

/// `buy`: the XRD in a bucket of `amount` buys tokens. Refused with a tip or a
/// bucket of another resource than XRD. The fair launch period is brought up
/// to date first. The fee and the XRD spent come from `s_buy_split` against
/// the XRD still available below `max_xrd`; when the purchase fills the curve
/// the target time is set to `now`, and once a target time is set the listing
/// is prepared in the same transaction (refused, as `list_token` is, without a
/// dex adaptor or once listed).
pub open spec fn s_buy<C: CurveCalcsAdaptor>(
    v: BooksView,
    listed: bool,
    has_dex: bool,
    is_xrd: bool,
    amount: int,
    tip: int,
    now: int,
) -> Result<(BooksView, TradeView), TxError> {
    if tip != 0 {
        Err(TxError::TipNotAllowed)
    } else if !is_xrd {
        Err(TxError::WrongResource)
    } else {
        match s_fair_flag(v, now) {
            Err(e) => Err(e),
            Ok(fair) => {
                let v1 = BooksView { in_fair_launch_period: fair, ..v };
                match lift(dec_sub(v1.max_xrd, v1.xrd_vault)) {
                    Err(e) => Err(e),
                    Ok(available) => match s_buy_split(amount, available, v1.tx_fee_perc) {
                        Err(e) => Err(e),
                        Ok((fee, x, hit)) => {
                            let v2 = if hit { BooksView { target_reached: now, ..v1 } } else { v1 };
                            match s_take(amount, fee) {
                                Err(e) => Err(e),
                                Ok(in1) => match lift(dec_add(v2.fee_vault, fee)) {
                                    Err(e) => Err(e),
                                    Ok(fv) => {
                                        let v3 = BooksView { fee_vault: fv, ..v2 };
                                        let bought = if x > 0 { s_buy_tokens::<C>(v3, in1, x) } else { Ok((v3, in1, 0)) };
                                        match bought {
                                            Err(e) => Err(e),
                                            Ok((v4, change, recv)) => {
                                                let listing = if v4.target_reached > 0 {
                                                    match s_list_prepare(v4, listed, has_dex) {
                                                        Err(e) => Err(e),
                                                        Ok((v5, o)) => Ok((v5, Some(o))),
                                                    }
                                                } else {
                                                    Ok((v4, None))
                                                };
                                                match listing {
                                                    Err(e) => Err(e),
                                                    Ok((v5, order)) => Ok((
                                                        v5,
                                                        TradeView {
                                                            out_is_receipt: fair,
                                                            out_amount: if x > 0 { if fair { e18() } else { recv } } else { 0 },
                                                            receipt_xrd: if x > 0 && fair { Some(x) } else { None },
                                                            change,
                                                            event: if x > 0 { Some(trade_event(TradeSide::Buy, v4, recv, x)) } else { None },
                                                            listing: order,
                                                        },
                                                    )),
                                                }
                                            },
                                        }
                                    },
                                },
                            }
                        },
                    },
                }
            },
        }
    }
}

/// The XRD that buying `amount` tokens costs and its fee. Refused when the
/// bucket's `in_amount` does not cover both; when the cost passes `max_xrd`
/// by no more than the rounding slack it is capped there.
pub open spec fn s_buy_amount_price<C: CurveCalcsAdaptor>(v: BooksView, amount: int, in_amount: int) -> Result<(int, int), TxError> {
    match lift(C::spec_buy_price(amount, v.current_supply, v.max_xrd_market_cap, v.max_token_supply_to_trade)) {
        Err(e) => Err(e),
        Ok(req) => {
            let fee = dec_mul(req, v.tx_fee_perc);
            let t = dec_add(req, fee.unwrap());
            if fee is None || t is None {
                Err(TxError::Overflow)
            } else if t.unwrap() > in_amount {
                Err(TxError::NotEnoughXrdSent)
            } else {
                let d1 = dec_add(req, v.xrd_vault);
                let d = dec_sub(d1.unwrap(), v.max_xrd);
                if d1 is None || d is None {
                    Err(TxError::Overflow)
                } else if d.unwrap() > 0 {
                    if d.unwrap() > slack() {
                        Err(TxError::MaxXrdExceeded)
                    } else {
                        match lift(dec_sub(v.max_xrd, v.xrd_vault)) {
                            Err(e) => Err(e),
                            Ok(capped) => Ok((fee.unwrap(), capped)),
                        }
                    }
                } else {
                    Ok((fee.unwrap(), req))
                }
            }
        },
    }
}

/// Paying `fee` and `req` out of a bucket of `in_amount` for `amount` new
/// tokens: the fee to the fee vault, the tokens minted (kept during the fair
/// launch period), the XRD to the vault, the price updated. Returns the books
/// and what is left in the bucket.
pub open spec fn s_buy_amount_apply<C: CurveCalcsAdaptor>(v: BooksView, amount: int, in_amount: int, fee: int, req: int) -> Result<(BooksView, int), TxError> {
    match s_take(in_amount, fee) {
        Err(e) => Err(e),
        Ok(in1) => {
            let fair = v.in_fair_launch_period;
            let fv = dec_add(v.fee_vault, fee);
            let total = dec_add(v.token_total_supply, amount);
            let flt = if fair { dec_add(v.fair_launch_tokens, amount) } else { Some(v.fair_launch_tokens) };
            let flx = if fair { dec_add(v.fair_launch_xrd, req) } else { Some(v.fair_launch_xrd) };
            let supply = dec_add(v.current_supply, amount);
            if fv is None || total is None || flt is None || flx is None || supply is None {
                Err(TxError::Overflow)
            } else {
                match s_take(in1, req) {
                    Err(e) => Err(e),
                    Ok(in2) => {
                        let xv = dec_add(v.xrd_vault, req);
                        let price = C::spec_price(supply.unwrap(), v.max_xrd_market_cap, v.max_token_supply_to_trade);
                        if xv is None || price is None {
                            Err(TxError::Overflow)
                        } else {
                            Ok((
                                BooksView {
                                    fee_vault: fv.unwrap(),
                                    token_total_supply: total.unwrap(),
                                    fair_launch_tokens: flt.unwrap(),
                                    fair_launch_xrd: flx.unwrap(),
                                    current_supply: supply.unwrap(),
                                    xrd_vault: xv.unwrap(),
                                    last_price: price.unwrap(),
                                    ..v
                                },
                                in2,
                            ))
                        }
                    },
                }
            }
        },
    }
}

/// The part of `buy_amount` that trades (`amount > 0`): price, payment, then
/// once the XRD vault holds `max_xrd` the target time is set to `now` and the
/// listing prepared (refused as `list_token` is), then the counters. Returns
/// the books, what is left in the bucket, the XRD paid and the dex order.
pub open spec fn s_buy_amount_trade<C: CurveCalcsAdaptor>(
    v: BooksView,
    listed: bool,
    has_dex: bool,
    amount: int,
    in_amount: int,
    now: int,
) -> Result<(BooksView, int, int, Option<(int, int)>), TxError> {
    match s_buy_amount_price::<C>(v, amount, in_amount) {
        Err(e) => Err(e),
        Ok((fee, req)) => match s_buy_amount_apply::<C>(v, amount, in_amount, fee, req) {
            Err(e) => Err(e),
            Ok((v1, change)) => {
                let listing = if v1.xrd_vault >= v1.max_xrd {
                    match s_list_prepare(BooksView { target_reached: now, ..v1 }, listed, has_dex) {
                        Err(e) => Err(e),
                        Ok((v2, o)) => Ok((v2, Some(o))),
                    }
                } else {
                    Ok((v1, None))
                };
                match listing {
                    Err(e) => Err(e),
                    Ok((v2, order)) => {
                        let traded = dec_add(v2.xrd_traded, req);
                        if traded is None || v2.no_txs + 1 > u32::MAX {
                            Err(TxError::Overflow)
                        } else {
                            Ok((BooksView { xrd_traded: traded.unwrap(), no_txs: v2.no_txs + 1, ..v2 }, change, req, order))
                        }
                    },
                }
            },
        },
    }
}

/// `buy_amount`: buys exactly `amount` tokens with a bucket of `in_amount`.
/// Refused with a tip, a bucket of another resource than XRD, or when the
/// supply would pass the tradable supply.
pub open spec fn s_buy_amount<C: CurveCalcsAdaptor>(
    v: BooksView,
    listed: bool,
    has_dex: bool,
    is_xrd: bool,
    amount: int,
    in_amount: int,
    tip: int,
    now: int,
) -> Result<(BooksView, TradeView), TxError> {
    if tip != 0 {
        Err(TxError::TipNotAllowed)
    } else if !is_xrd {
        Err(TxError::WrongResource)
    } else {
        match lift(dec_add(amount, v.current_supply)) {
            Err(e) => Err(e),
            Ok(sum) => if sum > v.max_token_supply_to_trade {
                Err(TxError::NotEnoughSupplyLeft)
            } else {
                match s_fair_flag(v, now) {
                    Err(e) => Err(e),
                    Ok(fair) => {
                        let v1 = BooksView { in_fair_launch_period: fair, ..v };
                        if amount > 0 {
                            match s_buy_amount_trade::<C>(v1, listed, has_dex, amount, in_amount, now) {
                                Err(e) => Err(e),
                                Ok((v2, change, req, order)) => Ok((
                                    v2,
                                    TradeView {
                                        out_is_receipt: fair,
                                        out_amount: if fair { e18() } else { amount },
                                        receipt_xrd: if fair { Some(req) } else { None },
                                        change,
                                        event: Some(trade_event(TradeSide::Buy, v2, amount, req)),
                                        listing: order,
                                    },
                                )),
                            }
                        } else {
                            Ok((
                                v1,
                                TradeView {
                                    out_is_receipt: fair,
                                    out_amount: 0,
                                    receipt_xrd: None,
                                    change: in_amount,
                                    event: None,
                                    listing: None,
                                },
                            ))
                        }
                    },
                }
            },
        }
    }
}

/// Computes `s_buy_amount_price`.
fn buy_amount_price<C: CurveCalcsAdaptor>(c: &C, b: &Books, amount: Dec, in_amount: Dec) -> (r: Result<(Dec, Dec), TxError>)
    ensures
        match r {
            Ok((fee, req)) => s_buy_amount_price::<C>(b@, amount.val(), in_amount.val()) == Ok::<(int, int), TxError>((fee.val(), req.val())),
            Err(e) => s_buy_amount_price::<C>(b@, amount.val(), in_amount.val()) == Err::<(int, int), TxError>(e),
        },
{
    let req = match c.calculate_buy_price(amount, b.current_supply, b.max_xrd_market_cap, b.max_token_supply_to_trade) {
        Some(v) => v,
        None => return Err(TxError::Overflow),
    };
    let fee = times(req, b.tx_fee_perc)?;
    let t = plus(req, fee)?;
    if t.gt(&in_amount) {
        return Err(TxError::NotEnoughXrdSent);
    }
    let d1 = plus(req, b.xrd_vault)?;
    let d = minus(d1, b.max_xrd)?;
    if d.is_positive() {
        if d.gt(&Dec::from_attos(10)) {
            return Err(TxError::MaxXrdExceeded);
        }
        let capped = minus(b.max_xrd, b.xrd_vault)?;
        Ok((fee, capped))
    } else {
        Ok((fee, req))
    }
}

/// Computes `s_buy_amount_apply`.
fn buy_amount_apply<C: CurveCalcsAdaptor>(c: &C, b: Books, amount: Dec, in_amount: Dec, fee: Dec, req: Dec) -> (r: Result<(Books, Dec), TxError>)
    ensures
        match r {
            Ok((nb, change)) => s_buy_amount_apply::<C>(b@, amount.val(), in_amount.val(), fee.val(), req.val()) == Ok::<(BooksView, int), TxError>((nb@, change.val())),
            Err(e) => s_buy_amount_apply::<C>(b@, amount.val(), in_amount.val(), fee.val(), req.val()) == Err::<(BooksView, int), TxError>(e),
        },
{
    let in1 = take(in_amount, fee)?;
    let fair = b.in_fair_launch_period;
    let fv = plus(b.fee_vault, fee)?;
    let total = plus(b.token_total_supply, amount)?;
    let flt = if fair { plus(b.fair_launch_tokens, amount)? } else { b.fair_launch_tokens };
    let flx = if fair { plus(b.fair_launch_xrd, req)? } else { b.fair_launch_xrd };
    let supply = plus(b.current_supply, amount)?;
    let in2 = take(in1, req)?;
    let xv = plus(b.xrd_vault, req)?;
    let price = match c.calculate_price(supply, b.max_xrd_market_cap, b.max_token_supply_to_trade) {
        Some(p) => p,
        None => return Err(TxError::Overflow),
    };
    let nb = Books {
        fee_vault: fv,
        token_total_supply: total,
        fair_launch_tokens: flt,
        fair_launch_xrd: flx,
        current_supply: supply,
        xrd_vault: xv,
        last_price: price,
        ..b
    };
    Ok((nb, in2))
}

/// Computes `s_buy_amount_trade`.
fn buy_amount_trade<C: CurveCalcsAdaptor>(c: &C, b: Books, listed: bool, has_dex: bool, amount: Dec, in_amount: Dec, now: i64) -> (r: Result<(Books, Dec, Dec, Option<ListingOrder>), TxError>)
    ensures
        match r {
            Ok((nb, change, req, order)) => s_buy_amount_trade::<C>(b@, listed, has_dex, amount.val(), in_amount.val(), now as int)
                == Ok::<(BooksView, int, int, Option<(int, int)>), TxError>((nb@, change.val(), req.val(), match order {
                    Some(o) => Some((o.tokens.val(), o.xrd.val())),
                    None => None,
                })),
            Err(e) => s_buy_amount_trade::<C>(b@, listed, has_dex, amount.val(), in_amount.val(), now as int)
                == Err::<(BooksView, int, int, Option<(int, int)>), TxError>(e),
        },
{
    let (fee, req) = buy_amount_price(c, &b, amount, in_amount)?;
    let (b1, change) = buy_amount_apply(c, b, amount, in_amount, fee, req)?;
    let (b2, order) = if b1.xrd_vault.ge(&b1.max_xrd) {
        let (b2, o) = list_prepare(Books { target_reached: now, ..b1 }, listed, has_dex)?;
        (b2, Some(o))
    } else {
        (b1, None)
    };
    let traded = plus(b2.xrd_traded, req)?;
    if b2.no_txs == u32::MAX {
        return Err(TxError::Overflow);
    }
    Ok((Books { xrd_traded: traded, no_txs: b2.no_txs + 1, ..b2 }, change, req, order))
}

/// Computes `s_buy_amount`.
#[verifier::rlimit(40)]
fn buy_amount_books<C: CurveCalcsAdaptor>(
    c: &C,
    b: Books,
    listed: bool,
    has_dex: bool,
    is_xrd: bool,
    amount: Dec,
    in_amount: Dec,
    tip: u16,
    now: i64,
) -> (r: Result<(Books, Trade), TxError>)
    ensures
        match r {
            Ok((nb, t)) => s_buy_amount::<C>(b@, listed, has_dex, is_xrd, amount.val(), in_amount.val(), tip as int, now as int)
                == Ok::<(BooksView, TradeView), TxError>((nb@, t@)),
            Err(e) => s_buy_amount::<C>(b@, listed, has_dex, is_xrd, amount.val(), in_amount.val(), tip as int, now as int)
                == Err::<(BooksView, TradeView), TxError>(e),
        },
{
    if tip != 0 {
        return Err(TxError::TipNotAllowed);
    }
    if !is_xrd {
        return Err(TxError::WrongResource);
    }
    let sum = plus(amount, b.current_supply)?;
    if sum.gt(&b.max_token_supply_to_trade) {
        return Err(TxError::NotEnoughSupplyLeft);
    }
    let fair = fair_flag(&b, now)?;
    let b1 = Books { in_fair_launch_period: fair, ..b };
    if amount.is_positive() {
        let (b2, change, req, order) = buy_amount_trade(c, b1, listed, has_dex, amount, in_amount, now)?;
        let event = TradeEvent {
            side: TradeSide::Buy,
            fair_launch_period: b2.in_fair_launch_period,
            token_amount: amount,
            xrd_amount: req,
            end_price: b2.last_price,
            total_xrd_traded: b2.xrd_traded,
            total_txs: b2.no_txs,
        };
        let t = Trade {
            out_is_receipt: fair,
            out_amount: if fair { Dec::one() } else { amount },
            receipt_xrd: if fair { Some(req) } else { None },
            change,
            event: Some(event),
            listing: order,
        };
        Ok((b2, t))
    } else {
        let t = Trade {
            out_is_receipt: fair,
            out_amount: Dec::zero(),
            receipt_xrd: None,
            change: in_amount,
            event: None,
            listing: None,
        };
        Ok((b1, t))
    }
}

/// The checks every sale starts with: no tip, a bucket of the token, the fair
/// launch period over (it is brought up to date first).
pub open spec fn s_sell_checks(v: BooksView, is_token: bool, tip: int, now: int) -> Result<BooksView, TxError> {
    if tip != 0 {
        Err(TxError::TipNotAllowed)
    } else if !is_token {
        Err(TxError::WrongResource)
    } else {
        match s_fair_flag(v, now) {
            Err(e) => Err(e),
            Ok(fair) => if fair {
                Err(TxError::SellDuringFairLaunch)
            } else {
                Ok(BooksView { in_fair_launch_period: false, ..v })
            },
        }
    }
}

/// The trading part of `sell` for `n > 0` tokens: the curve's XRD for them
/// (capped at the vault when it passes it by no more than the rounding
/// slack), the fee kept, the tokens burnt. Returns the books and the XRD paid out.
pub open spec fn s_sell_trade<C: CurveCalcsAdaptor>(v: BooksView, n: int) -> Result<(BooksView, int), TxError> {
    match lift(C::spec_sell_price(n, v.current_supply, v.max_xrd_market_cap, v.max_token_supply_to_trade)) {
        Err(e) => Err(e),
        Ok(recv0) => match lift(dec_sub(recv0, v.xrd_vault)) {
            Err(e) => Err(e),
            Ok(d) => if d > 0 && d > slack() {
                Err(TxError::NotEnoughXrdInComponent)
            } else {
                let recv = if d > 0 { v.xrd_vault } else { recv0 };
                match lift(dec_mul(recv, v.tx_fee_perc)) {
                    Err(e) => Err(e),
                    Ok(fee) => match s_take(v.xrd_vault, fee) {
                        Err(e) => Err(e),
                        Ok(xv1) => {
                            let fv = dec_add(v.fee_vault, fee);
                            let paid = dec_sub(recv, fee);
                            if fv is None || paid is None {
                                Err(TxError::Overflow)
                            } else {
                                let total = dec_sub(v.token_total_supply, n);
                                let supply = dec_sub(v.current_supply, n);
                                if total is None || supply is None {
                                    Err(TxError::Overflow)
                                } else {
                                    match s_take(xv1, paid.unwrap()) {
                                        Err(e) => Err(e),
                                        Ok(xv2) => {
                                            let price = C::spec_price(supply.unwrap(), v.max_xrd_market_cap, v.max_token_supply_to_trade);
                                            let t1 = dec_add(v.xrd_traded, paid.unwrap());
                                            let traded = dec_add(t1.unwrap(), fee);
                                            if price is None || t1 is None || traded is None || v.no_txs + 1 > u32::MAX {
                                                Err(TxError::Overflow)
                                            } else {
                                                Ok((
                                                    BooksView {
                                                        xrd_vault: xv2,
                                                        fee_vault: fv.unwrap(),
                                                        token_total_supply: total.unwrap(),
                                                        current_supply: supply.unwrap(),
                                                        last_price: price.unwrap(),
                                                        xrd_traded: traded.unwrap(),
                                                        no_txs: v.no_txs + 1,
                                                        ..v
                                                    },
                                                    paid.unwrap(),
                                                ))
                                            }
                                        },
                                    }
                                }
                            }
                        },
                    },
                }
            },
        },
    }
}

/// `sell`: sells all `n` tokens of the bucket. Refused with a tip, a bucket
/// of another resource, during the fair launch period, and for more tokens
/// than the supply on the curve.
pub open spec fn s_sell<C: CurveCalcsAdaptor>(v: BooksView, is_token: bool, n: int, tip: int, now: int) -> Result<(BooksView, TradeView), TxError> {
    match s_sell_checks(v, is_token, tip, now) {
        Err(e) => Err(e),
        Ok(v1) => if n > v1.current_supply {
            Err(TxError::SellMoreThanSupply)
        } else if n > 0 {
            match s_sell_trade::<C>(v1, n) {
                Err(e) => Err(e),
                Ok((v2, paid)) => Ok((
                    v2,
                    TradeView {
                        out_is_receipt: false,
                        out_amount: paid,
                        receipt_xrd: None,
                        change: 0,
                        event: Some(trade_event(TradeSide::Sell, v2, n, paid)),
                        listing: None,
                    },
                )),
            }
        } else {
            Ok((v1, TradeView { out_is_receipt: false, out_amount: 0, receipt_xrd: None, change: n, event: None, listing: None }))
        },
    }
}

/// The trading part of `sell_for_xrd_amount` for `amount > 0` XRD, whose fee
/// `fee` is already paid from the XRD vault (now `v.xrd_vault`): the tokens to
/// burn for `amount + fee` (capped at the supply when they pass it by no more
/// than the rounding slack) come out of a bucket of `in_amount`. Returns the
/// books, what is left in the bucket and the tokens burnt.
pub open spec fn s_sell_for_xrd_trade<C: CurveCalcsAdaptor>(v: BooksView, amount: int, fee: int, in_amount: int) -> Result<(BooksView, int, int), TxError> {
    match lift(C::spec_tokens_to_sell(amount + fee, v.current_supply, v.max_xrd_market_cap, v.max_token_supply_to_trade)) {
        Err(e) => Err(e),
        Ok(tts0) => if tts0 > in_amount {
            Err(TxError::NotEnoughTokensSupplied)
        } else {
            match lift(dec_sub(tts0, v.current_supply)) {
                Err(e) => Err(e),
                Ok(d) => if d > 0 && d > slack() {
                    Err(TxError::NotEnoughSupplyToSell)
                } else {
                    let tts = if d > 0 { v.current_supply } else { tts0 };
                    match s_take(in_amount, tts) {
                        Err(e) => Err(e),
                        Ok(in2) => {
                            let total = dec_sub(v.token_total_supply, tts);
                            let supply = dec_sub(v.current_supply, tts);
                            if total is None || supply is None {
                                Err(TxError::Overflow)
                            } else {
                                match s_take(v.xrd_vault, amount) {
                                    Err(e) => Err(e),
                                    Ok(xv2) => {
                                        let price = C::spec_price(supply.unwrap(), v.max_xrd_market_cap, v.max_token_supply_to_trade);
                                        let t1 = dec_add(v.xrd_traded, amount);
                                        let traded = dec_add(t1.unwrap(), fee);
                                        if price is None || t1 is None || traded is None || v.no_txs + 1 > u32::MAX {
                                            Err(TxError::Overflow)
                                        } else {
                                            Ok((
                                                BooksView {
                                                    xrd_vault: xv2,
                                                    token_total_supply: total.unwrap(),
                                                    current_supply: supply.unwrap(),
                                                    last_price: price.unwrap(),
                                                    xrd_traded: traded.unwrap(),
                                                    no_txs: v.no_txs + 1,
                                                    ..v
                                                },
                                                in2,
                                                tts,
                                            ))
                                        }
                                    },
                                }
                            }
                        },
                    }
                },
            }
        },
    }
}

/// `sell_for_xrd_amount`: sells the tokens that `amount` XRD plus its fee is
/// worth, out of a bucket of `in_amount` tokens. Refused as `sell` is, and
/// when the vault holds less than `amount` and the fee. The fee is paid
/// before the trade.
pub open spec fn s_sell_for_xrd_amount<C: CurveCalcsAdaptor>(v: BooksView, is_token: bool, amount: int, in_amount: int, tip: int, now: int) -> Result<(BooksView, TradeView), TxError> {
    match s_sell_checks(v, is_token, tip, now) {
        Err(e) => Err(e),
        Ok(v1) => {
            let fee = dec_mul(amount, v1.tx_fee_perc);
            let t = dec_add(amount, fee.unwrap());
            if fee is None || t is None {
                Err(TxError::Overflow)
            } else if t.unwrap() > v1.xrd_vault {
                Err(TxError::NotEnoughXrdForAmount)
            } else {
                match s_take(v1.xrd_vault, fee.unwrap()) {
                    Err(e) => Err(e),
                    Ok(xv1) => match lift(dec_add(v1.fee_vault, fee.unwrap())) {
                        Err(e) => Err(e),
                        Ok(fv) => {
                            let v2 = BooksView { xrd_vault: xv1, fee_vault: fv, ..v1 };
                            if amount > 0 {
                                match s_sell_for_xrd_trade::<C>(v2, amount, fee.unwrap(), in_amount) {
                                    Err(e) => Err(e),
                                    Ok((v3, change, tts)) => Ok((
                                        v3,
                                        TradeView {
                                            out_is_receipt: false,
                                            out_amount: amount,
                                            receipt_xrd: None,
                                            change,
                                            event: Some(trade_event(TradeSide::Sell, v3, tts, amount)),
                                            listing: None,
                                        },
                                    )),
                                }
                            } else {
                                Ok((v2, TradeView { out_is_receipt: false, out_amount: 0, receipt_xrd: None, change: in_amount, event: None, listing: None }))
                            }
                        },
                    },
                }
            }
        },
    }
}

/// Computes `s_sell_checks`.
fn sell_checks(b: Books, is_token: bool, tip: u16, now: i64) -> (r: Result<Books, TxError>)
    ensures
        match r {
            Ok(nb) => s_sell_checks(b@, is_token, tip as int, now as int) == Ok::<BooksView, TxError>(nb@),
            Err(e) => s_sell_checks(b@, is_token, tip as int, now as int) == Err::<BooksView, TxError>(e),
        },
{
    if tip != 0 {
        return Err(TxError::TipNotAllowed);
    }
    if !is_token {
        return Err(TxError::WrongResource);
    }
    let fair = fair_flag(&b, now)?;
    if fair {
        return Err(TxError::SellDuringFairLaunch);
    }
    Ok(Books { in_fair_launch_period: false, ..b })
}

/// Computes `s_sell_trade`.
#[verifier::rlimit(40)]
fn sell_trade<C: CurveCalcsAdaptor>(c: &C, b: Books, n: Dec) -> (r: Result<(Books, Dec), TxError>)
    ensures
        match r {
            Ok((nb, paid)) => s_sell_trade::<C>(b@, n.val()) == Ok::<(BooksView, int), TxError>((nb@, paid.val())),
            Err(e) => s_sell_trade::<C>(b@, n.val()) == Err::<(BooksView, int), TxError>(e),
        },
{
    let recv0 = match c.calculate_sell_price(n, b.current_supply, b.max_xrd_market_cap, b.max_token_supply_to_trade) {
        Some(v) => v,
        None => return Err(TxError::Overflow),
    };
    let d = minus(recv0, b.xrd_vault)?;
    if d.is_positive() && d.gt(&Dec::from_attos(10)) {
        return Err(TxError::NotEnoughXrdInComponent);
    }
    let recv = if d.is_positive() { b.xrd_vault } else { recv0 };
    let fee = times(recv, b.tx_fee_perc)?;
    let xv1 = take(b.xrd_vault, fee)?;
    let fv = plus(b.fee_vault, fee)?;
    let paid = minus(recv, fee)?;
    let total = minus(b.token_total_supply, n)?;
    let supply = minus(b.current_supply, n)?;
    let xv2 = take(xv1, paid)?;
    let price = match c.calculate_price(supply, b.max_xrd_market_cap, b.max_token_supply_to_trade) {
        Some(p) => p,
        None => return Err(TxError::Overflow),
    };
    let t1 = plus(b.xrd_traded, paid)?;
    let traded = plus(t1, fee)?;
    if b.no_txs == u32::MAX {
        return Err(TxError::Overflow);
    }
    let nb = Books {
        xrd_vault: xv2,
        fee_vault: fv,
        token_total_supply: total,
        current_supply: supply,
        last_price: price,
        xrd_traded: traded,
        no_txs: b.no_txs + 1,
        ..b
    };
    Ok((nb, paid))
}

/// Computes `s_sell_for_xrd_trade`.
#[verifier::rlimit(40)]
fn sell_for_xrd_trade<C: CurveCalcsAdaptor>(c: &C, b: Books, amount: Dec, fee: Dec, t: Dec, in_amount: Dec) -> (r: Result<(Books, Dec, Dec), TxError>)
    requires
        t.val() == amount.val() + fee.val(),
    ensures
        match r {
            Ok((nb, change, tts)) => s_sell_for_xrd_trade::<C>(b@, amount.val(), fee.val(), in_amount.val()) == Ok::<(BooksView, int, int), TxError>((nb@, change.val(), tts.val())),
            Err(e) => s_sell_for_xrd_trade::<C>(b@, amount.val(), fee.val(), in_amount.val()) == Err::<(BooksView, int, int), TxError>(e),
        },
{
    let tts0 = match c.calculate_tokens_to_sell(t, b.current_supply, b.max_xrd_market_cap, b.max_token_supply_to_trade) {
        Some(v) => v,
        None => return Err(TxError::Overflow),
    };
    if tts0.gt(&in_amount) {
        return Err(TxError::NotEnoughTokensSupplied);
    }
    let d = minus(tts0, b.current_supply)?;
    if d.is_positive() && d.gt(&Dec::from_attos(10)) {
        return Err(TxError::NotEnoughSupplyToSell);
    }
    let tts = if d.is_positive() { b.current_supply } else { tts0 };
    let in2 = take(in_amount, tts)?;
    let total = minus(b.token_total_supply, tts)?;
    let supply = minus(b.current_supply, tts)?;
    let xv2 = take(b.xrd_vault, amount)?;
    let price = match c.calculate_price(supply, b.max_xrd_market_cap, b.max_token_supply_to_trade) {
        Some(p) => p,
        None => return Err(TxError::Overflow),
    };
    let t1 = plus(b.xrd_traded, amount)?;
    let traded = plus(t1, fee)?;
    if b.no_txs == u32::MAX {
        return Err(TxError::Overflow);
    }
    let nb = Books {
        xrd_vault: xv2,
        token_total_supply: total,
        current_supply: supply,
        last_price: price,
        xrd_traded: traded,
        no_txs: b.no_txs + 1,
        ..b
    };
    Ok((nb, in2, tts))
}

// ---------------------------------------------------------------------------
// Vaults of other resources

/// The vaults of other resources as (resource, amount) pairs.
pub open spec fn others_seq(v: Seq<(Address, Dec)>) -> Seq<(Seq<u8>, int)> {
    v.map_values(|p: (Address, Dec)| (p.0@, p.1.val()))
}

/// No resource appears twice.
pub open spec fn keys_unique(s: Seq<(Seq<u8>, int)>) -> bool {
    forall|i: int, j: int| 0 <= i < s.len() && 0 <= j < s.len() && i != j ==> s[i].0 != s[j].0
}

/// The index of resource `r`'s vault, where there is one.
pub open spec fn key_index(s: Seq<(Seq<u8>, int)>, r: Seq<u8>) -> int {
    choose|i: int| 0 <= i < s.len() && s[i].0 == r
}

/// Puts `a` of resource `r` into the vaults: into its vault if there is one,
/// else into a new vault.
pub open spec fn s_insert_other(s: Seq<(Seq<u8>, int)>, r: Seq<u8>, a: int) -> Result<Seq<(Seq<u8>, int)>, TxError> {
    if exists|i: int| 0 <= i < s.len() && s[i].0 == r {
        let i = key_index(s, r);
        match lift(dec_add(s[i].1, a)) {
            Err(e) => Err(e),
            Ok(x) => Ok(s.update(i, (r, x))),
        }
    } else {
        Ok(s.push((r, a)))
    }
}

/// Puts buckets returned by the dex away: XRD into the XRD vault, the token
/// into the token vault, anything else into the vaults of other resources.
pub open spec fn s_absorb(xrd: Seq<u8>, token: Seq<u8>, v: BooksView, others: Seq<(Seq<u8>, int)>, buckets: Seq<(Seq<u8>, int)>) -> Result<(BooksView, Seq<(Seq<u8>, int)>), TxError>
    decreases buckets.len(),
{
    if buckets.len() == 0 {
        Ok((v, others))
    } else {
        let (r, a) = buckets[0];
        let step = if r == xrd {
            match lift(dec_add(v.xrd_vault, a)) {
                Err(e) => Err(e),
                Ok(x) => Ok((BooksView { xrd_vault: x, ..v }, others)),
            }
        } else if r == token {
            match lift(dec_add(v.token_vault, a)) {
                Err(e) => Err(e),
                Ok(x) => Ok((BooksView { token_vault: x, ..v }, others)),
            }
        } else {
            match s_insert_other(others, r, a) {
                Err(e) => Err(e),
                Ok(o) => Ok((v, o)),
            }
        };
        match step {
            Err(e) => Err(e),
            Ok((v1, o1)) => s_absorb(xrd, token, v1, o1, buckets.drop_first()),
        }
    }
}

/// A copy of the vaults of other resources.
fn copy_others(v: &Vec<(Address, Dec)>) -> (r: Vec<(Address, Dec)>)
    ensures
        others_seq(r@) == others_seq(v@),
{
    let mut out: Vec<(Address, Dec)> = Vec::new();
    let n = v.len();
    for i in 0..n
        invariant
            n == v.len(),
            out@.len() == i,
            forall|j: int| 0 <= j < i ==> out@[j].0@ == v@[j].0@ && out@[j].1 == v@[j].1,
    {
        let a = v[i].0.copy();
        out.push((a, v[i].1));
    }
    assert(others_seq(out@) =~= others_seq(v@));
    out
}

/// The index of resource `r`'s vault, if it has one.
fn find_other(others: &Vec<(Address, Dec)>, r: &Address) -> (res: Option<usize>)
    requires
        keys_unique(others_seq(others@)),
    ensures
        match res {
            Some(i) => i < others@.len() && (exists|k: int| 0 <= k < others_seq(others@).len() && others_seq(others@)[k].0 == r@)
                && key_index(others_seq(others@), r@) == i && others_seq(others@)[i as int].0 == r@,
            None => !(exists|k: int| 0 <= k < others_seq(others@).len() && others_seq(others@)[k].0 == r@),
        },
{
    let ghost s = others_seq(others@);
    let n = others.len();
    assert(s.len() == n);
    let mut i: usize = 0;
    while i < n
        invariant
            n == others.len(),
            0 <= i <= n,
            s.len() == n,
            s == others_seq(others@),
            keys_unique(s),
            forall|j: int| 0 <= j < i ==> s[j].0 != r@,
        decreases n - i,
    {
        if others[i].0.same(r) {
            assert(s[i as int].0 == r@);
            assert(exists|k: int| 0 <= k < s.len() && s[k].0 == r@);
            let ghost k = key_index(s, r@);
            assert(k == i);
            return Some(i);
        }
        i += 1;
    }
    None
}

/// `law_insert_other_adds_to_one_vault` for every other resource at once.
proof fn lemma_insert_other_law(s: Seq<(Seq<u8>, int)>, r: Seq<u8>, a: int)
    requires
        keys_unique(s),
        s_insert_other(s, r, a) is Ok,
    ensures
        ({
            let s2 = s_insert_other(s, r, a).unwrap();
            &&& holds_vault(s2, r)
            &&& vault_amount(s2, r) == vault_amount(s, r) + a
            &&& forall|r2: Seq<u8>| r2 != r ==> #[trigger] holds_vault(s2, r2) == holds_vault(s, r2)
            &&& forall|r2: Seq<u8>| r2 != r ==> #[trigger] vault_amount(s2, r2) == vault_amount(s, r2)
        }),
{
    let s2 = s_insert_other(s, r, a).unwrap();
    law_insert_other_adds_to_one_vault(s, r, a, r);
    assert forall|r2: Seq<u8>| r2 != r implies #[trigger] holds_vault(s2, r2) == holds_vault(s, r2) by {
        law_insert_other_adds_to_one_vault(s, r, a, r2);
    }
    assert forall|r2: Seq<u8>| r2 != r implies #[trigger] vault_amount(s2, r2) == vault_amount(s, r2) by {
        law_insert_other_adds_to_one_vault(s, r, a, r2);
    }
}

/// Puts `a` of `r` into the vaults of other resources (see `s_insert_other`):
/// it is added to the one vault of `r`, or opens that vault, and every other
/// vault keeps its amount. On refusal (an overflow) nothing changes.
fn insert_other(others: &mut Vec<(Address, Dec)>, r: Address, a: Dec) -> (res: Result<(), TxError>)
    requires
        keys_unique(others_seq(old(others)@)),
    ensures
        keys_unique(others_seq(final(others)@)),
        res is Ok ==> holds_vault(others_seq(final(others)@), r@)
            && vault_amount(others_seq(final(others)@), r@) == vault_amount(others_seq(old(others)@), r@) + a.val()
            && (forall|r2: Seq<u8>| r2 != r@ ==> #[trigger] holds_vault(others_seq(final(others)@), r2)
                == holds_vault(others_seq(old(others)@), r2))
            && (forall|r2: Seq<u8>| r2 != r@ ==> #[trigger] vault_amount(others_seq(final(others)@), r2)
                == vault_amount(others_seq(old(others)@), r2)),
        res is Err ==> res == Err::<(), TxError>(TxError::Overflow),
        match res {
            Ok(_) => s_insert_other(others_seq(old(others)@), r@, a.val()) == Ok::<Seq<(Seq<u8>, int)>, TxError>(others_seq(final(others)@)),
            Err(e) => s_insert_other(others_seq(old(others)@), r@, a.val()) == Err::<Seq<(Seq<u8>, int)>, TxError>(e)
                && others_seq(final(others)@) == others_seq(old(others)@),
        },
{
    let ghost s = others_seq(others@);
    match find_other(others, &r) {
        Some(i) => {
            let x = plus(others[i].1, a)?;
            others.set(i, (r, x));
            assert(others_seq(others@) =~= s.update(i as int, (r@, x.val())));
            proof {
                lemma_insert_other_law(s, r@, a.val());
            }
            Ok(())
        },
        None => {
            others.push((r, a));
            assert(others_seq(others@) =~= s.push((r@, a.val())));
            proof {
                lemma_insert_other_law(s, r@, a.val());
            }
            Ok(())
        },
    }
}

/// Puts returned buckets away (see `s_absorb`).
fn absorb(xrd: &Address, token: &Address, b: Books, others: &mut Vec<(Address, Dec)>, buckets: &Vec<(Address, Dec)>) -> (r: Result<Books, TxError>)
    requires
        keys_unique(others_seq(old(others)@)),
    ensures
        keys_unique(others_seq(final(others)@)),
        match r {
            Ok(nb) => s_absorb(xrd@, token@, b@, others_seq(old(others)@), others_seq(buckets@))
                == Ok::<(BooksView, Seq<(Seq<u8>, int)>), TxError>((nb@, others_seq(final(others)@))),
            Err(e) => s_absorb(xrd@, token@, b@, others_seq(old(others)@), others_seq(buckets@))
                == Err::<(BooksView, Seq<(Seq<u8>, int)>), TxError>(e),
        },
{
    let ghost bs = others_seq(buckets@);
    let ghost total = s_absorb(xrd@, token@, b@, others_seq(others@), bs);
    let mut cur = b;
    let n = buckets.len();
    let mut i: usize = 0;
    assert(bs.skip(0) == bs);
    while i < n
        invariant
            n == buckets.len(),
            bs == others_seq(buckets@),
            0 <= i <= n,
            keys_unique(others_seq(others@)),
            total == s_absorb(xrd@, token@, cur@, others_seq(others@), bs.skip(i as int)),
            total == s_absorb(xrd@, token@, b@, others_seq(old(others)@), bs),
        decreases n - i,
    {
        let ghost rest = bs.skip(i as int);
        assert(rest[0] == (buckets@[i as int].0@, buckets@[i as int].1.val()));
        assert(rest.drop_first() == bs.skip(i + 1));
        let r = &buckets[i].0;
        let a = buckets[i].1;
        if r.same(xrd) {
            let x = plus(cur.xrd_vault, a)?;
            cur = Books { xrd_vault: x, ..cur };
        } else if r.same(token) {
            let x = plus(cur.token_vault, a)?;
            cur = Books { token_vault: x, ..cur };
        } else {
            insert_other(others, r.copy(), a)?;
        }
        i += 1;
    }
    assert(bs.skip(n as int) =~= Seq::<(Seq<u8>, int)>::empty());
    Ok(cur)
}

/// The rest of a listing once the dex has answered: the pool units (`lr`,
/// `la`) go into the vaults of other resources, then the other returned
/// buckets are put away.
pub open spec fn s_complete_listing(xrd: Seq<u8>, token: Seq<u8>, v: BooksView, o: Seq<(Seq<u8>, int)>, lr: Seq<u8>, la: int, buckets: Seq<(Seq<u8>, int)>) -> Result<(BooksView, Seq<(Seq<u8>, int)>), TxError> {
    match s_insert_other(o, lr, la) {
        Err(e) => Err(e),
        Ok(o1) => s_absorb(xrd, token, v, o1, buckets),
    }
}

/// Taking the pool units out of their vault before removing the liquidity.
/// Refused when not listed, without a dex adaptor, or without a vault of the
/// pool units. Returns the vaults and the pool units taken.
pub open spec fn s_remove_listing(listed: bool, has_dex: bool, lta: Option<Seq<u8>>, o: Seq<(Seq<u8>, int)>) -> Result<(Seq<(Seq<u8>, int)>, int), TxError> {
    if !listed {
        Err(TxError::NotListed)
    } else if !has_dex {
        Err(TxError::NoDexAdaptor)
    } else if lta is None {
        Err(TxError::NoListingTokens)
    } else if !(exists|i: int| 0 <= i < o.len() && o[i].0 == lta.unwrap()) {
        Err(TxError::NoListingTokens)
    } else {
        let i = key_index(o, lta.unwrap());
        Ok((o.update(i, (lta.unwrap(), 0)), o[i].1))
    }
}

/// The rest of a delisting once the dex has answered: the token bucket into
/// the token vault, the XRD bucket into the XRD vault (each refused for
/// another resource), then the other returned buckets are put away.
pub open spec fn s_finish_remove_listing(xrd: Seq<u8>, token: Seq<u8>, v: BooksView, o: Seq<(Seq<u8>, int)>, tr: Seq<u8>, ta: int, xr: Seq<u8>, xa: int, buckets: Seq<(Seq<u8>, int)>) -> Result<(BooksView, Seq<(Seq<u8>, int)>), TxError> {
    if tr != token {
        Err(TxError::WrongResource)
    } else {
        match lift(dec_add(v.token_vault, ta)) {
            Err(e) => Err(e),
            Ok(tv) => if xr != xrd {
                Err(TxError::WrongResource)
            } else {
                match lift(dec_add(v.xrd_vault, xa)) {
                    Err(e) => Err(e),
                    Ok(xv) => s_absorb(xrd, token, BooksView { token_vault: tv, xrd_vault: xv, ..v }, o, buckets),
                }
            },
        }
    }
}

// ---------------------------------------------------------------------------
// The creator's first buy and the fair launch claims

/// What `first_buy` hands back: the tokens (none while they are locked), the
/// XRD left over, and the trade made.
#[derive(Clone, Copy, Debug)]
pub struct FirstBuy {
    pub tokens: Dec,
    pub xrd_change: Dec,
    pub trade: Option<Trade>,
}

/// `FirstBuy` as numbers.
pub struct FirstBuyView {
    pub tokens: int,
    pub xrd_change: int,
    pub trade: Option<TradeView>,
}

impl View for FirstBuy {
    type V = FirstBuyView;

    open spec fn view(&self) -> FirstBuyView {
        FirstBuyView {
            tokens: self.tokens.val(),
            xrd_change: self.xrd_change.val(),
            trade: match self.trade {
                Some(t) => Some(t@),
                None => None,
            },
        }
    }
}

/// `first_buy`: with a bucket (is it XRD, its amount), `buy_amount` of
/// `amount` tokens; the tokens go to the first buy vault when `lock_mins > 0`,
/// to the buyer otherwise. Fair launch receipts do not fit the token bucket
/// and vault, so a first buy during the fair launch period is refused.
/// Without a bucket nothing happens.
pub open spec fn s_first_buy<C: CurveCalcsAdaptor>(
    v: BooksView,
    listed: bool,
    has_dex: bool,
    bucket: Option<(bool, int)>,
    amount: int,
    lock_mins: int,
    tip: int,
    now: int,
) -> Result<(BooksView, FirstBuyView), TxError> {
    match bucket {
        None => Ok((v, FirstBuyView { tokens: 0, xrd_change: 0, trade: None })),
        Some((is_xrd, a)) => match s_buy_amount::<C>(v, listed, has_dex, is_xrd, amount, a, tip, now) {
            Err(e) => Err(e),
            Ok((v1, t)) => if t.out_is_receipt {
                Err(TxError::WrongResource)
            } else if lock_mins > 0 {
                match lift(dec_add(v1.first_buy_vault, t.out_amount)) {
                    Err(e) => Err(e),
                    Ok(f) => Ok((
                        BooksView { first_buy_vault: f, ..v1 },
                        FirstBuyView { tokens: 0, xrd_change: t.change, trade: Some(t) },
                    )),
                }
            } else {
                Ok((v1, FirstBuyView { tokens: t.out_amount, xrd_change: t.change, trade: Some(t) }))
            },
        },
    }
}

/// One fair launch receipt for `x` XRD claims its share of the fair launch
/// tokens, `tokens * x / xrd` (at most all of them). The state is (tokens,
/// unclaimed xrd, tokens handed out, xrd of the receipts).
pub open spec fn s_claim_step(st: (int, int, int, int), x: int) -> Result<(int, int, int, int), TxError> {
    let (flt, flx, out, total) = st;
    let total1 = dec_add(total, x);
    let p = dec_mul(flt, x);
    let claim0 = dec_div(p.unwrap(), flx);
    if total1 is None || p is None || claim0 is None {
        Err(TxError::Overflow)
    } else {
        let claim = if claim0.unwrap() > flt { flt } else { claim0.unwrap() };
        match s_take(flt, claim) {
            Err(e) => Err(e),
            Ok(flt1) => {
                let out1 = dec_add(out, claim);
                let flx1 = dec_sub(flx, x);
                if out1 is None || flx1 is None {
                    Err(TxError::Overflow)
                } else {
                    Ok((flt1, flx1.unwrap(), out1.unwrap(), total1.unwrap()))
                }
            },
        }
    }
}

/// The receipts claimed one after the other.
pub open spec fn s_claim_all(st: (int, int, int, int), receipts: Seq<int>) -> Result<(int, int, int, int), TxError>
    decreases receipts.len(),
{
    if receipts.len() == 0 {
        Ok(st)
    } else {
        match s_claim_step(st, receipts[0]) {
            Err(e) => Err(e),
            Ok(st1) => s_claim_all(st1, receipts.drop_first()),
        }
    }
}

/// `claim_fair_launch_tokens`: after the fair launch period, fair launch
/// receipts (given by the XRD each records) are exchanged for tokens and
/// burnt. Refused during the period and for a bucket of another resource.
/// Returns the books and (tokens handed out, XRD of the receipts).
pub open spec fn s_claim_fair_launch(v: BooksView, is_receipt: bool, receipts: Seq<int>, now: int) -> Result<(BooksView, (int, int)), TxError> {
    match s_fair_flag(v, now) {
        Err(e) => Err(e),
        Ok(fair) => if fair {
            Err(TxError::FairLaunchNotFinished)
        } else if !is_receipt {
            Err(TxError::WrongResource)
        } else {
            match s_claim_all((v.fair_launch_tokens, v.fair_launch_xrd, 0, 0), receipts) {
                Err(e) => Err(e),
                Ok((flt, flx, out, total)) => Ok((
                    BooksView { in_fair_launch_period: false, fair_launch_tokens: flt, fair_launch_xrd: flx, ..v },
                    (out, total),
                )),
            }
        },
    }
}

/// Computes `s_first_buy`.
fn first_buy_books<C: CurveCalcsAdaptor>(
    c: &C,
    b: Books,
    listed: bool,
    has_dex: bool,
    bucket: Option<(bool, Dec)>,
    amount: Dec,
    lock_mins: i64,
    tip: u16,
    now: i64,
) -> (r: Result<(Books, FirstBuy), TxError>)
    ensures
        ({
            let bk = match bucket {
                Some((x, a)) => Some((x, a.val())),
                None => None,
            };
            match r {
                Ok((nb, f)) => s_first_buy::<C>(b@, listed, has_dex, bk, amount.val(), lock_mins as int, tip as int, now as int)
                    == Ok::<(BooksView, FirstBuyView), TxError>((nb@, f@)),
                Err(e) => s_first_buy::<C>(b@, listed, has_dex, bk, amount.val(), lock_mins as int, tip as int, now as int)
                    == Err::<(BooksView, FirstBuyView), TxError>(e),
            }
        }),
{
    match bucket {
        None => Ok((b, FirstBuy { tokens: Dec::zero(), xrd_change: Dec::zero(), trade: None })),
        Some((is_xrd, a)) => {
            let (b1, t) = buy_amount_books(c, b, listed, has_dex, is_xrd, amount, a, tip, now)?;
            if t.out_is_receipt {
                return Err(TxError::WrongResource);
            }
            if lock_mins > 0 {
                let f = plus(b1.first_buy_vault, t.out_amount)?;
                Ok((Books { first_buy_vault: f, ..b1 }, FirstBuy { tokens: Dec::zero(), xrd_change: t.change, trade: Some(t) }))
            } else {
                Ok((b1, FirstBuy { tokens: t.out_amount, xrd_change: t.change, trade: Some(t) }))
            }
        },
    }
}

/// Computes `s_claim_step`.
fn claim_step(flt: Dec, flx: Dec, out: Dec, total: Dec, x: Dec) -> (r: Result<(Dec, Dec, Dec, Dec), TxError>)
    ensures
        match r {
            Ok((a, b, c, d)) => s_claim_step((flt.val(), flx.val(), out.val(), total.val()), x.val())
                == Ok::<(int, int, int, int), TxError>((a.val(), b.val(), c.val(), d.val())),
            Err(e) => s_claim_step((flt.val(), flx.val(), out.val(), total.val()), x.val())
                == Err::<(int, int, int, int), TxError>(e),
        },
{
    let total1 = plus(total, x)?;
    let p = times(flt, x)?;
    let claim0 = divide(p, flx)?;
    let claim = if claim0.gt(&flt) { flt } else { claim0 };
    let flt1 = take(flt, claim)?;
    let out1 = plus(out, claim)?;
    let flx1 = minus(flx, x)?;
    Ok((flt1, flx1, out1, total1))
}

/// Computes `s_claim_fair_launch`.
fn claim_fair_launch_books(b: Books, is_receipt: bool, receipts: &Vec<Dec>, now: i64) -> (r: Result<(Books, (Dec, Dec)), TxError>)
    ensures
        match r {
            Ok((nb, (out, total))) => s_claim_fair_launch(b@, is_receipt, receipts@.map_values(|d: Dec| d.val()), now as int)
                == Ok::<(BooksView, (int, int)), TxError>((nb@, (out.val(), total.val()))),
            Err(e) => s_claim_fair_launch(b@, is_receipt, receipts@.map_values(|d: Dec| d.val()), now as int)
                == Err::<(BooksView, (int, int)), TxError>(e),
        },
{
    let fair = fair_flag(&b, now)?;
    if fair {
        return Err(TxError::FairLaunchNotFinished);
    }
    if !is_receipt {
        return Err(TxError::WrongResource);
    }
    let ghost rs = receipts@.map_values(|d: Dec| d.val());
    let ghost whole = s_claim_all((b.fair_launch_tokens.val(), b.fair_launch_xrd.val(), 0, 0), rs);
    let mut flt = b.fair_launch_tokens;
    let mut flx = b.fair_launch_xrd;
    let mut out = Dec::zero();
    let mut total = Dec::zero();
    let n = receipts.len();
    let mut i: usize = 0;
    assert(rs.skip(0) == rs);
    while i < n
        invariant
            n == receipts.len(),
            rs == receipts@.map_values(|d: Dec| d.val()),
            0 <= i <= n,
            whole == s_claim_all((flt.val(), flx.val(), out.val(), total.val()), rs.skip(i as int)),
            whole == s_claim_all((b.fair_launch_tokens.val(), b.fair_launch_xrd.val(), 0, 0), rs),
            s_fair_flag(b@, now as int) == Ok::<bool, TxError>(false),
            is_receipt,
        decreases n - i,
    {
        let ghost rest = rs.skip(i as int);
        assert(rest[0] == receipts@[i as int].val());
        assert(rest.drop_first() == rs.skip(i + 1));
        let (a, bb, c, d) = claim_step(flt, flx, out, total, receipts[i])?;
        flt = a;
        flx = bb;
        out = c;
        total = d;
        i += 1;
    }
    assert(rs.skip(n as int) =~= Seq::<int>::empty());
    Ok((Books { in_fair_launch_period: false, fair_launch_tokens: flt, fair_launch_xrd: flx, ..b }, (out, total)))
}

// ---------------------------------------------------------------------------
// Creation

/// The books of a new component. Refused for a trade or listing fee of 1 or
/// more, and a virtual supply that is negative or not below the tradable
/// supply. The XRD the virtual supply would have cost is taken off the curve's
/// maximum XRD; the tokens to add on listing are the XRD for the pool priced
/// at the final market cap, and they must make 5% to 95% of the pool. The
/// fair launch period runs when it has a length; the first buy tokens unlock
/// `lock_mins` minutes after `now`.
pub open spec fn s_new_books<C: CurveCalcsAdaptor>(
    mts: int,
    mc: int,
    vs: int,
    txp: int,
    lp: int,
    cp: int,
    mins: int,
    lock_mins: int,
    now: int,
) -> Result<BooksView, TxError> {
    if !(txp < e18()) {
        Err(TxError::FeeTooHigh)
    } else if !(lp < e18()) {
        Err(TxError::FeeTooHigh)
    } else if !(vs >= 0 && vs < mts) {
        Err(TxError::InvalidVirtualSupply)
    } else {
        match lift(C::spec_buy_price(vs, 0, mc, mts)) {
            Err(e) => Err(e),
            Ok(vsx) => match lift(C::spec_max_xrd(mc, mts)) {
                Err(e) => Err(e),
                Ok(mx) => {
                    let max_xrd = dec_sub(mx, vsx);
                    let a = dec_add(max_xrd.unwrap(), vsx);
                    let b = dec_sub(e18(), lp);
                    let d = dec_sub(b.unwrap(), cp);
                    let dex_xrd = dec_mul(a.unwrap(), d.unwrap());
                    let t = dec_mul(dex_xrd.unwrap(), mts);
                    let dex_tokens = dec_div(t.unwrap(), mc);
                    let max_supply = dec_add(mts, dex_tokens.unwrap());
                    let sum = dec_add(dex_tokens.unwrap(), dex_xrd.unwrap());
                    let ratio = dec_div(dex_tokens.unwrap(), sum.unwrap());
                    if max_xrd is None || a is None || b is None || d is None || dex_xrd is None || t is None
                        || dex_tokens is None || max_supply is None || sum is None || ratio is None {
                        Err(TxError::Overflow)
                    } else if !(ratio.unwrap() <= 950000000000000000 && ratio.unwrap() >= 50000000000000000) {
                        Err(TxError::InvalidDexRatio)
                    } else {
                        match lift(C::spec_price(vs, mc, mts)) {
                            Err(e) => Err(e),
                            Ok(price) => if !in_i64(lock_mins * 60) || !in_i64(now + lock_mins * 60) {
                                Err(TxError::Overflow)
                            } else {
                                Ok(BooksView {
                                    max_token_supply: max_supply.unwrap(),
                                    max_token_supply_to_trade: mts,
                                    max_xrd_market_cap: mc,
                                    max_xrd: max_xrd.unwrap(),
                                    virtual_supply: vs,
                                    virtual_supply_xrd: vsx,
                                    tx_fee_perc: txp,
                                    listing_fee_perc: lp,
                                    creator_fee_perc: cp,
                                    xrd_vault: 0,
                                    token_vault: vs,
                                    fee_vault: 0,
                                    creator_fee_vault: 0,
                                    last_price: price,
                                    current_supply: vs,
                                    token_total_supply: vs,
                                    fair_launch_tokens: 0,
                                    fair_launch_xrd: 0,
                                    xrd_traded: 0,
                                    first_buy_vault: 0,
                                    fair_launch_period_mins: mins,
                                    in_fair_launch_period: mins > 0,
                                    time_created: now,
                                    target_reached: 0,
                                    no_txs: 0,
                                    first_buy_claim: now + lock_mins * 60,
                                })
                            },
                        }
                    }
                },
            },
        }
    }
}

/// Creating a component: its books, then the creator's first buy.
pub open spec fn s_new<C: CurveCalcsAdaptor>(
    mts: int,
    mc: int,
    vs: int,
    txp: int,
    lp: int,
    cp: int,
    mins: int,
    has_dex: bool,
    first_buy_amount: int,
    bucket: Option<(bool, int)>,
    lock_mins: int,
    tip: int,
    now: int,
) -> Result<(BooksView, FirstBuyView), TxError> {
    match s_new_books::<C>(mts, mc, vs, txp, lp, cp, mins, lock_mins, now) {
        Err(e) => Err(e),
        Ok(v) => s_first_buy::<C>(v, false, has_dex, bucket, first_buy_amount, lock_mins, tip, now),
    }
}

/// Computes `s_new_books`.
#[verifier::rlimit(40)]
fn new_books<C: CurveCalcsAdaptor>(
    c: &C,
    mts: Dec,
    mc: Dec,
    vs: Dec,
    txp: Dec,
    lp: Dec,
    cp: Dec,
    mins: u32,
    lock_mins: i64,
    now: i64,
) -> (r: Result<Books, TxError>)
    ensures
        match r {
            Ok(b) => s_new_books::<C>(mts.val(), mc.val(), vs.val(), txp.val(), lp.val(), cp.val(), mins as int, lock_mins as int, now as int)
                == Ok::<BooksView, TxError>(b@),
            Err(e) => s_new_books::<C>(mts.val(), mc.val(), vs.val(), txp.val(), lp.val(), cp.val(), mins as int, lock_mins as int, now as int)
                == Err::<BooksView, TxError>(e),
        },
{
    let one = Dec::one();
    if !txp.lt(&one) {
        return Err(TxError::FeeTooHigh);
    }
    if !lp.lt(&one) {
        return Err(TxError::FeeTooHigh);
    }
    if !(!vs.is_negative() && vs.lt(&mts)) {
        return Err(TxError::InvalidVirtualSupply);
    }
    let vsx = match c.calculate_buy_price(vs, Dec::zero(), mc, mts) {
        Some(v) => v,
        None => return Err(TxError::Overflow),
    };
    let mx = match c.calculate_max_xrd(mc, mts) {
        Some(v) => v,
        None => return Err(TxError::Overflow),
    };
    let max_xrd = minus(mx, vsx)?;
    let a = plus(max_xrd, vsx)?;
    let bb = minus(one, lp)?;
    let d = minus(bb, cp)?;
    let dex_xrd = times(a, d)?;
    let t = times(dex_xrd, mts)?;
    let dex_tokens = divide(t, mc)?;
    let max_supply = plus(mts, dex_tokens)?;
    let sum = plus(dex_tokens, dex_xrd)?;
    let ratio = divide(dex_tokens, sum)?;
    if !(ratio.le(&Dec::from_attos(950000000000000000)) && ratio.ge(&Dec::from_attos(50000000000000000))) {
        return Err(TxError::InvalidDexRatio);
    }
    let price = match c.calculate_price(vs, mc, mts) {
        Some(v) => v,
        None => return Err(TxError::Overflow),
    };
    let lock_secs = match lock_mins.checked_mul(60) {
        Some(v) => v,
        None => return Err(TxError::Overflow),
    };
    let claim = match now.checked_add(lock_secs) {
        Some(v) => v,
        None => return Err(TxError::Overflow),
    };
    let zero = Dec::zero();
    Ok(Books {
        max_token_supply: max_supply,
        max_token_supply_to_trade: mts,
        max_xrd_market_cap: mc,
        max_xrd,
        virtual_supply: vs,
        virtual_supply_xrd: vsx,
        tx_fee_perc: txp,
        listing_fee_perc: lp,
        creator_fee_perc: cp,
        xrd_vault: zero,
        token_vault: vs,
        fee_vault: zero,
        creator_fee_vault: zero,
        last_price: price,
        current_supply: vs,
        token_total_supply: vs,
        fair_launch_tokens: zero,
        fair_launch_xrd: zero,
        xrd_traded: zero,
        first_buy_vault: zero,
        fair_launch_period_mins: mins,
        in_fair_launch_period: mins > 0,
        time_created: now,
        target_reached: 0,
        no_txs: 0,
        first_buy_claim: claim,
    })
}

/// The addresses the ledger gives a new component and its resources.
pub struct CurveAddresses {
    /// The component.
    pub address: Address,
    /// The token's owner badge.
    pub owner_badge_address: Address,
    /// The component's dapp definition account.
    pub dapp_def_address: Address,
    /// The token.
    pub token_address: Address,
    /// The fair launch receipts.
    pub fair_launch_receipt_address: Address,
    /// XRD.
    pub xrd_address: Address,
}

// ---------------------------------------------------------------------------
// The component

/// A token's bonding-curve component.
pub struct RakoonFunTokenCurve<C: CurveCalcsAdaptor> {
    /// All amounts, parameters and counters.
    pub books: Books,
    /// The parent (launcher) component.
    pub parent_address: Address,
    /// This component.
    pub address: Address,
    /// The owner badge of the token.
    pub owner_badge_address: Address,
    /// The component's dapp definition account.
    pub dapp_def_address: Address,
    /// The token's resource.
    pub token_address: Address,
    /// The resource of fair launch receipts.
    pub fair_launch_receipt_address: Address,
    /// The XRD resource.
    pub xrd_address: Address,
    /// The curve calculator.
    pub curve_calcs: C,
    /// The dex adaptor used for listing, if one is set.
    pub dex_adaptor: Option<Address>,
    /// The dex pool of the listing, once listed.
    pub dex_listing_address: Option<Address>,
    /// The resource of the pool's units, once listed.
    pub listing_token_address: Option<Address>,
    /// Vaults of other resources returned by the dex, by resource.
    pub other_tokens: Vec<(Address, Dec)>,
}

impl<C: CurveCalcsAdaptor> RakoonFunTokenCurve<C> {
    /// No resource has two vaults.
    pub open spec fn wf(&self) -> bool {
        keys_unique(others_seq(self.other_tokens@))
    }

    /// The component, its parent and its resources are the same in `self`
    /// and `o`.
    pub open spec fn same_identity(&self, o: &Self) -> bool {
        &&& self.parent_address@ == o.parent_address@
        &&& self.address@ == o.address@
        &&& self.owner_badge_address@ == o.owner_badge_address@
        &&& self.dapp_def_address@ == o.dapp_def_address@
        &&& self.token_address@ == o.token_address@
        &&& self.fair_launch_receipt_address@ == o.fair_launch_receipt_address@
        &&& self.xrd_address@ == o.xrd_address@
    }

    /// Everything but the books is the same in `self` and `o`.
    pub open spec fn same_but_books(&self, o: &Self) -> bool {
        &&& self.same_identity(o)
        &&& self.curve_calcs == o.curve_calcs
        &&& opt_view(self.dex_adaptor) == opt_view(o.dex_adaptor)
        &&& opt_view(self.dex_listing_address) == opt_view(o.dex_listing_address)
        &&& opt_view(self.listing_token_address) == opt_view(o.listing_token_address)
        &&& self.other_tokens@ == o.other_tokens@
    }

    #[verifier::rlimit(60)]
    /// Buys tokens with a bucket of `in_amount` of `in_resource` (see `s_buy`).
    /// On refusal nothing changes.
    pub fn buy(&mut self, in_amount: Dec, in_resource: &Address, tip_percentage: u16, now: i64) -> (r: Result<Trade, TxError>)
        ensures
            final(self).same_but_books(old(self)),
            match r {
                Ok(t) => s_buy::<C>(old(self).books@, old(self).dex_listing_address is Some,
                    old(self).dex_adaptor is Some, in_resource@ == old(self).xrd_address@, in_amount.val(),
                    tip_percentage as int, now as int) == Ok::<(BooksView, TradeView), TxError>((final(self).books@, t@)),
                Err(e) => s_buy::<C>(old(self).books@, old(self).dex_listing_address is Some,
                    old(self).dex_adaptor is Some, in_resource@ == old(self).xrd_address@, in_amount.val(),
                    tip_percentage as int, now as int) == Err::<(BooksView, TradeView), TxError>(e)
                    && final(self).books == old(self).books,
            },
    {
        if tip_percentage != 0 {
            return Err(TxError::TipNotAllowed);
        }
        if !in_resource.same(&self.xrd_address) {
            return Err(TxError::WrongResource);
        }
        let fair = fair_flag(&self.books, now)?;
        let b1 = Books { in_fair_launch_period: fair, ..self.books };
        let available = minus(b1.max_xrd, b1.xrd_vault)?;
        let (fee, x, hit) = buy_split(in_amount, available, b1.tx_fee_perc)?;
        let b2 = if hit { Books { target_reached: now, ..b1 } } else { b1 };
        let in1 = take(in_amount, fee)?;
        let fv = plus(b2.fee_vault, fee)?;
        let b3 = Books { fee_vault: fv, ..b2 };
        let (b4, change, recv) = if x.is_positive() {
            buy_tokens(&self.curve_calcs, b3, in1, x)?
        } else {
            (b3, in1, Dec::zero())
        };
        let (b5, listing) = if b4.target_reached > 0 {
            let (b5, o) = list_prepare(b4, self.dex_listing_address.is_some(), self.dex_adaptor.is_some())?;
            (b5, Some(o))
        } else {
            (b4, None)
        };
        let traded = x.is_positive();
        let event = if traded {
            Some(TradeEvent {
                side: TradeSide::Buy,
                fair_launch_period: b4.in_fair_launch_period,
                token_amount: recv,
                xrd_amount: x,
                end_price: b4.last_price,
                total_xrd_traded: b4.xrd_traded,
                total_txs: b4.no_txs,
            })
        } else {
            None
        };
        let out_amount = if traded { if fair { Dec::one() } else { recv } } else { Dec::zero() };
        let receipt_xrd = if traded && fair { Some(x) } else { None };
        self.books = b5;
        Ok(Trade { out_is_receipt: fair, out_amount, receipt_xrd, change, event, listing })
    }
    /// Buys exactly `amount` tokens with a bucket of `in_amount` of
    /// `in_resource` (see `s_buy_amount`). On refusal nothing changes.
    pub fn buy_amount(&mut self, amount: Dec, in_amount: Dec, in_resource: &Address, tip_percentage: u16, now: i64) -> (r: Result<Trade, TxError>)
        ensures
            final(self).same_but_books(old(self)),
            match r {
                Ok(t) => s_buy_amount::<C>(old(self).books@, old(self).dex_listing_address is Some,
                    old(self).dex_adaptor is Some, in_resource@ == old(self).xrd_address@, amount.val(), in_amount.val(),
                    tip_percentage as int, now as int) == Ok::<(BooksView, TradeView), TxError>((final(self).books@, t@)),
                Err(e) => s_buy_amount::<C>(old(self).books@, old(self).dex_listing_address is Some,
                    old(self).dex_adaptor is Some, in_resource@ == old(self).xrd_address@, amount.val(), in_amount.val(),
                    tip_percentage as int, now as int) == Err::<(BooksView, TradeView), TxError>(e)
                    && final(self).books == old(self).books,
            },
    {
        let is_xrd = in_resource.same(&self.xrd_address);
        let (nb, t) = buy_amount_books(&self.curve_calcs, self.books, self.dex_listing_address.is_some(),
            self.dex_adaptor.is_some(), is_xrd, amount, in_amount, tip_percentage, now)?;
        self.books = nb;
        Ok(t)
    }
    /// Sells a bucket of `in_amount` of `in_resource` (see `s_sell`). On
    /// refusal nothing changes.
    pub fn sell(&mut self, in_amount: Dec, in_resource: &Address, tip_percentage: u16, now: i64) -> (r: Result<Trade, TxError>)
        ensures
            final(self).same_but_books(old(self)),
            match r {
                Ok(t) => s_sell::<C>(old(self).books@, in_resource@ == old(self).token_address@,
                    in_amount.val(), tip_percentage as int, now as int) == Ok::<(BooksView, TradeView), TxError>((final(self).books@, t@)),
                Err(e) => s_sell::<C>(old(self).books@, in_resource@ == old(self).token_address@,
                    in_amount.val(), tip_percentage as int, now as int) == Err::<(BooksView, TradeView), TxError>(e)
                    && final(self).books == old(self).books,
            },
    {
        let is_token = in_resource.same(&self.token_address);
        let b1 = sell_checks(self.books, is_token, tip_percentage, now)?;
        if in_amount.gt(&b1.current_supply) {
            return Err(TxError::SellMoreThanSupply);
        }
        if in_amount.is_positive() {
            let (b2, paid) = sell_trade(&self.curve_calcs, b1, in_amount)?;
            let event = TradeEvent {
                side: TradeSide::Sell,
                fair_launch_period: b2.in_fair_launch_period,
                token_amount: in_amount,
                xrd_amount: paid,
                end_price: b2.last_price,
                total_xrd_traded: b2.xrd_traded,
                total_txs: b2.no_txs,
            };
            self.books = b2;
            Ok(Trade { out_is_receipt: false, out_amount: paid, receipt_xrd: None, change: Dec::zero(), event: Some(event), listing: None })
        } else {
            self.books = b1;
            Ok(Trade { out_is_receipt: false, out_amount: Dec::zero(), receipt_xrd: None, change: in_amount, event: None, listing: None })
        }
    }

    /// Sells tokens for `amount` XRD out of a bucket of `in_amount` of
    /// `in_resource` (see `s_sell_for_xrd_amount`). On refusal nothing changes.
    #[verifier::rlimit(40)]
    pub fn sell_for_xrd_amount(&mut self, amount: Dec, in_amount: Dec, in_resource: &Address, tip_percentage: u16, now: i64) -> (r: Result<Trade, TxError>)
        ensures
            final(self).same_but_books(old(self)),
            match r {
                Ok(t) => s_sell_for_xrd_amount::<C>(old(self).books@, in_resource@ == old(self).token_address@,
                    amount.val(), in_amount.val(), tip_percentage as int, now as int) == Ok::<(BooksView, TradeView), TxError>((final(self).books@, t@)),
                Err(e) => s_sell_for_xrd_amount::<C>(old(self).books@, in_resource@ == old(self).token_address@,
                    amount.val(), in_amount.val(), tip_percentage as int, now as int) == Err::<(BooksView, TradeView), TxError>(e)
                    && final(self).books == old(self).books,
            },
    {
        let is_token = in_resource.same(&self.token_address);
        let b1 = sell_checks(self.books, is_token, tip_percentage, now)?;
        let fee = times(amount, b1.tx_fee_perc)?;
        let t = plus(amount, fee)?;
        if t.gt(&b1.xrd_vault) {
            return Err(TxError::NotEnoughXrdForAmount);
        }
        let xv1 = take(b1.xrd_vault, fee)?;
        let fv = plus(b1.fee_vault, fee)?;
        let b2 = Books { xrd_vault: xv1, fee_vault: fv, ..b1 };
        if amount.is_positive() {
            let (b3, change, tts) = sell_for_xrd_trade(&self.curve_calcs, b2, amount, fee, t, in_amount)?;
            let event = TradeEvent {
                side: TradeSide::Sell,
                fair_launch_period: b3.in_fair_launch_period,
                token_amount: tts,
                xrd_amount: amount,
                end_price: b3.last_price,
                total_xrd_traded: b3.xrd_traded,
                total_txs: b3.no_txs,
            };
            self.books = b3;
            Ok(Trade { out_is_receipt: false, out_amount: amount, receipt_xrd: None, change, event: Some(event), listing: None })
        } else {
            self.books = b2;
            Ok(Trade { out_is_receipt: false, out_amount: Dec::zero(), receipt_xrd: None, change: in_amount, event: None, listing: None })
        }
    }
    /// Brings the fair launch period up to date at `now`.
    pub fn check_in_fair_launch_period(&mut self, now: i64) -> (r: Result<(), TxError>)
        ensures
            final(self).same_but_books(old(self)),
            match r {
                Ok(_) => s_fair_flag(old(self).books@, now as int) == Ok::<bool, TxError>(final(self).books.in_fair_launch_period)
                    && final(self).books == (Books { in_fair_launch_period: final(self).books.in_fair_launch_period, ..old(self).books }),
                Err(e) => s_fair_flag(old(self).books@, now as int) == Err::<bool, TxError>(e) && final(self).books == old(self).books,
            },
    {
        let fair = fair_flag(&self.books, now)?;
        if self.books.in_fair_launch_period && !fair {
            self.end_fair_launch_period();
        } else {
            self.books = Books { in_fair_launch_period: fair, ..self.books };
        }
        Ok(())
    }

    /// Ends the fair launch period.
    pub fn end_fair_launch_period(&mut self)
        ensures
            final(self).same_but_books(old(self)),
            final(self).books == (Books { in_fair_launch_period: false, ..old(self).books }),
    {
        self.books = Books { in_fair_launch_period: false, ..self.books };
    }

    /// Hands out the creator's first buy tokens once `now` is past the lock.
    pub fn claim_first_buy_tokens(&mut self, now: i64) -> (r: Result<Dec, TxError>)
        ensures
            final(self).same_but_books(old(self)),
            match r {
                Ok(out) => now > old(self).books.first_buy_claim && out == old(self).books.first_buy_vault
                    && final(self).books == (Books { first_buy_vault: Dec { d0: 0, d1: 0, d2: 0 }, ..old(self).books }),
                Err(e) => e == TxError::FirstBuyLocked && now <= old(self).books.first_buy_claim && final(self).books == old(self).books,
            },
    {
        if !(now > self.books.first_buy_claim) {
            return Err(TxError::FirstBuyLocked);
        }
        let out = self.books.first_buy_vault;
        self.books = Books { first_buy_vault: Dec::zero(), ..self.books };
        Ok(out)
    }

    /// Hands out the creator's fees. The event reports the amount of the
    /// component's fee vault (the first element), the bucket holds the
    /// creator's (the second).
    pub fn claim_creator_fees(&mut self) -> (r: (Dec, Dec))
        ensures
            final(self).same_but_books(old(self)),
            r.0 == old(self).books.fee_vault,
            r.1 == old(self).books.creator_fee_vault,
            final(self).books == (Books { creator_fee_vault: Dec { d0: 0, d1: 0, d2: 0 }, ..old(self).books }),
    {
        let reported = self.books.fee_vault;
        let out = self.books.creator_fee_vault;
        self.books = Books { creator_fee_vault: Dec::zero(), ..self.books };
        (reported, out)
    }

    /// Hands out the component's fees, which the event reports too.
    pub fn claim_fees(&mut self) -> (r: Dec)
        ensures
            final(self).same_but_books(old(self)),
            r == old(self).books.fee_vault,
            final(self).books == (Books { fee_vault: Dec { d0: 0, d1: 0, d2: 0 }, ..old(self).books }),
    {
        let out = self.books.fee_vault;
        self.books = Books { fee_vault: Dec::zero(), ..self.books };
        out
    }

    /// Replaces the curve calculator; returns the old and the new calculator's
    /// addresses for the event.
    pub fn change_curve_calcs(&mut self, new_calcs: C) -> (r: (Address, Address))
        ensures
            r.0@ == old(self).curve_calcs.spec_address(),
            r.1@ == new_calcs.spec_address(),
            final(self).curve_calcs == new_calcs,
            final(self).books == old(self).books,
            final(self).same_identity(old(self)),
            opt_view(final(self).dex_adaptor) == opt_view(old(self).dex_adaptor),
            opt_view(final(self).dex_listing_address) == opt_view(old(self).dex_listing_address),
            opt_view(final(self).listing_token_address) == opt_view(old(self).listing_token_address),
            final(self).other_tokens@ == old(self).other_tokens@,
    {
        let old_address = self.curve_calcs.address();
        let new_address = new_calcs.address();
        self.curve_calcs = new_calcs;
        (old_address, new_address)
    }

    /// Sets the dex adaptor; refused once listed. Returns the old adaptor for
    /// the event.
    pub fn set_dex_adaptor(&mut self, dex_adaptor_address: Address) -> (r: Result<Option<Address>, TxError>)
        ensures
            final(self).books == old(self).books,
            final(self).curve_calcs == old(self).curve_calcs,
            final(self).same_identity(old(self)),
            opt_view(final(self).dex_listing_address) == opt_view(old(self).dex_listing_address),
            opt_view(final(self).listing_token_address) == opt_view(old(self).listing_token_address),
            final(self).other_tokens@ == old(self).other_tokens@,
            match r {
                Ok(prev) => old(self).dex_listing_address is None && opt_view(prev) == opt_view(old(self).dex_adaptor)
                    && opt_view(final(self).dex_adaptor) == Some(dex_adaptor_address@),
                Err(e) => e == TxError::AlreadyListed && old(self).dex_listing_address is Some
                    && opt_view(final(self).dex_adaptor) == opt_view(old(self).dex_adaptor),
            },
    {
        if self.dex_listing_address.is_some() {
            return Err(TxError::AlreadyListed);
        }
        let prev = copy_opt(&self.dex_adaptor);
        self.dex_adaptor = Some(dex_adaptor_address);
        Ok(prev)
    }

    /// Pays the listing fees and mints the pool's tokens; returns what to hand
    /// to the dex adaptor (see `s_list_prepare`). On refusal nothing changes.
    pub fn list_token(&mut self) -> (r: Result<ListingOrder, TxError>)
        ensures
            final(self).same_but_books(old(self)),
            match r {
                Ok(o) => s_list_prepare(old(self).books@, old(self).dex_listing_address is Some, old(self).dex_adaptor is Some)
                    == Ok::<(BooksView, (int, int)), TxError>((final(self).books@, (o.tokens.val(), o.xrd.val()))),
                Err(e) => s_list_prepare(old(self).books@, old(self).dex_listing_address is Some, old(self).dex_adaptor is Some)
                    == Err::<(BooksView, (int, int)), TxError>(e) && final(self).books == old(self).books,
            },
    {
        let (nb, o) = list_prepare(self.books, self.dex_listing_address.is_some(), self.dex_adaptor.is_some())?;
        self.books = nb;
        Ok(o)
    }
    /// Completes a listing with what the dex adaptor returned: the pool, its
    /// units (`listing_resource`, `listing_amount`) and other buckets (see
    /// `s_complete_listing`). On refusal nothing changes.
    pub fn complete_listing(&mut self, listing_address: Address, listing_resource: Address, listing_amount: Dec, returned: &Vec<(Address, Dec)>) -> (r: Result<(), TxError>)
        requires
            old(self).wf(),
        ensures
            final(self).wf(),
            match r {
                Ok(_) => s_complete_listing(old(self).xrd_address@, old(self).token_address@, old(self).books@,
                    others_seq(old(self).other_tokens@), listing_resource@, listing_amount.val(), others_seq(returned@))
                    == Ok::<(BooksView, Seq<(Seq<u8>, int)>), TxError>((final(self).books@, others_seq(final(self).other_tokens@)))
                    && opt_view(final(self).dex_listing_address) == Some(listing_address@)
                    && opt_view(final(self).listing_token_address) == Some(listing_resource@),
                Err(e) => s_complete_listing(old(self).xrd_address@, old(self).token_address@, old(self).books@,
                    others_seq(old(self).other_tokens@), listing_resource@, listing_amount.val(), others_seq(returned@))
                    == Err::<(BooksView, Seq<(Seq<u8>, int)>), TxError>(e)
                    && final(self).books == old(self).books
                    && others_seq(final(self).other_tokens@) == others_seq(old(self).other_tokens@)
                    && opt_view(final(self).dex_listing_address) == opt_view(old(self).dex_listing_address)
                    && opt_view(final(self).listing_token_address) == opt_view(old(self).listing_token_address),
            },
            final(self).curve_calcs == old(self).curve_calcs,
            final(self).same_identity(old(self)),
            opt_view(final(self).dex_adaptor) == opt_view(old(self).dex_adaptor),
    {
        let mut work = copy_others(&self.other_tokens);
        insert_other(&mut work, listing_resource.copy(), listing_amount)?;
        let nb = absorb(&self.xrd_address, &self.token_address, self.books, &mut work, returned)?;
        self.books = nb;
        self.other_tokens = work;
        self.dex_listing_address = Some(listing_address);
        self.listing_token_address = Some(listing_resource);
        Ok(())
    }

    /// Takes the pool units out of their vault to remove the liquidity (see
    /// `s_remove_listing`); returns the pool and the units. On refusal nothing
    /// changes.
    pub fn remove_listing(&mut self) -> (r: Result<(Address, Dec), TxError>)
        requires
            old(self).wf(),
        ensures
            final(self).wf(),
            final(self).books == old(self).books,
            final(self).curve_calcs == old(self).curve_calcs,
            final(self).same_identity(old(self)),
            opt_view(final(self).dex_adaptor) == opt_view(old(self).dex_adaptor),
            opt_view(final(self).dex_listing_address) == opt_view(old(self).dex_listing_address),
            opt_view(final(self).listing_token_address) == opt_view(old(self).listing_token_address),
            match r {
                Ok((pool, units)) => s_remove_listing(old(self).dex_listing_address is Some, old(self).dex_adaptor is Some,
                    opt_view(old(self).listing_token_address), others_seq(old(self).other_tokens@))
                    == Ok::<(Seq<(Seq<u8>, int)>, int), TxError>((others_seq(final(self).other_tokens@), units.val()))
                    && opt_view(old(self).dex_listing_address) == Some(pool@),
                Err(e) => s_remove_listing(old(self).dex_listing_address is Some, old(self).dex_adaptor is Some,
                    opt_view(old(self).listing_token_address), others_seq(old(self).other_tokens@))
                    == Err::<(Seq<(Seq<u8>, int)>, int), TxError>(e)
                    && others_seq(final(self).other_tokens@) == others_seq(old(self).other_tokens@),
            },
    {
        let pool = match &self.dex_listing_address {
            Some(p) => p.copy(),
            None => return Err(TxError::NotListed),
        };
        if self.dex_adaptor.is_none() {
            return Err(TxError::NoDexAdaptor);
        }
        let lta = match &self.listing_token_address {
            Some(a) => a.copy(),
            None => return Err(TxError::NoListingTokens),
        };
        let ghost s = others_seq(self.other_tokens@);
        match find_other(&self.other_tokens, &lta) {
            Some(i) => {
                let units = self.other_tokens[i].1;
                self.other_tokens.set(i, (lta, Dec::zero()));
                assert(others_seq(self.other_tokens@) =~= s.update(i as int, (lta@, 0)));
                return Ok((pool, units));
            },
            None => {},
        }
        Err(TxError::NoListingTokens)
    }

    /// Completes a delisting with what the dex adaptor returned (see
    /// `s_finish_remove_listing`); the token is no longer listed. Returns the
    /// old pool for the event. Refused when not listed. On refusal nothing
    /// changes.
    pub fn finish_remove_listing(&mut self, token_bucket: (Address, Dec), xrd_bucket: (Address, Dec), returned: &Vec<(Address, Dec)>) -> (r: Result<Address, TxError>)
        requires
            old(self).wf(),
        ensures
            final(self).wf(),
            match r {
                Ok(pool) => s_finish_remove_listing(old(self).xrd_address@, old(self).token_address@, old(self).books@,
                    others_seq(old(self).other_tokens@), token_bucket.0@, token_bucket.1.val(), xrd_bucket.0@,
                    xrd_bucket.1.val(), others_seq(returned@))
                    == Ok::<(BooksView, Seq<(Seq<u8>, int)>), TxError>((final(self).books@, others_seq(final(self).other_tokens@)))
                    && opt_view(old(self).dex_listing_address) == Some(pool@)
                    && final(self).dex_listing_address is None,
                Err(e) => (old(self).dex_listing_address is None && e == TxError::NotListed
                    || old(self).dex_listing_address is Some && s_finish_remove_listing(old(self).xrd_address@,
                    old(self).token_address@, old(self).books@, others_seq(old(self).other_tokens@), token_bucket.0@,
                    token_bucket.1.val(), xrd_bucket.0@, xrd_bucket.1.val(), others_seq(returned@))
                    == Err::<(BooksView, Seq<(Seq<u8>, int)>), TxError>(e))
                    && final(self).books == old(self).books
                    && others_seq(final(self).other_tokens@) == others_seq(old(self).other_tokens@)
                    && opt_view(final(self).dex_listing_address) == opt_view(old(self).dex_listing_address),
            },
            final(self).curve_calcs == old(self).curve_calcs,
            final(self).same_identity(old(self)),
            opt_view(final(self).dex_adaptor) == opt_view(old(self).dex_adaptor),
            opt_view(final(self).listing_token_address) == opt_view(old(self).listing_token_address),
    {
        let pool = match &self.dex_listing_address {
            Some(p) => p.copy(),
            None => return Err(TxError::NotListed),
        };
        if !token_bucket.0.same(&self.token_address) {
            return Err(TxError::WrongResource);
        }
        let tv = plus(self.books.token_vault, token_bucket.1)?;
        if !xrd_bucket.0.same(&self.xrd_address) {
            return Err(TxError::WrongResource);
        }
        let xv = plus(self.books.xrd_vault, xrd_bucket.1)?;
        let b1 = Books { token_vault: tv, xrd_vault: xv, ..self.books };
        let mut work = copy_others(&self.other_tokens);
        let nb = absorb(&self.xrd_address, &self.token_address, b1, &mut work, returned)?;
        self.books = nb;
        self.other_tokens = work;
        self.dex_listing_address = None;
        Ok(pool)
    }
    /// The creator's first buy (see `s_first_buy`). `bucket` is the XRD
    /// bucket, if any, as (resource, amount). On refusal nothing changes.
    pub fn first_buy(&mut self, amount: Dec, bucket: Option<(Address, Dec)>, lock_mins: i64, tip_percentage: u16, now: i64) -> (r: Result<FirstBuy, TxError>)
        ensures
            final(self).same_but_books(old(self)),
            ({
                let bk = match bucket {
                    Some((res, a)) => Some((res@ == old(self).xrd_address@, a.val())),
                    None => None,
                };
                match r {
                    Ok(f) => s_first_buy::<C>(old(self).books@, old(self).dex_listing_address is Some,
                        old(self).dex_adaptor is Some, bk, amount.val(), lock_mins as int, tip_percentage as int, now as int)
                        == Ok::<(BooksView, FirstBuyView), TxError>((final(self).books@, f@)),
                    Err(e) => s_first_buy::<C>(old(self).books@, old(self).dex_listing_address is Some,
                        old(self).dex_adaptor is Some, bk, amount.val(), lock_mins as int, tip_percentage as int, now as int)
                        == Err::<(BooksView, FirstBuyView), TxError>(e) && final(self).books == old(self).books,
                }
            }),
    {
        let bk = match &bucket {
            Some((res, a)) => Some((res.same(&self.xrd_address), *a)),
            None => None,
        };
        let (nb, f) = first_buy_books(&self.curve_calcs, self.books, self.dex_listing_address.is_some(),
            self.dex_adaptor.is_some(), bk, amount, lock_mins, tip_percentage, now)?;
        self.books = nb;
        Ok(f)
    }

    /// Exchanges fair launch receipts, a bucket of `receipts_resource` whose
    /// receipts record the XRD amounts `receipts`, for tokens (see
    /// `s_claim_fair_launch`); returns (tokens, XRD of the receipts). On
    /// refusal nothing changes.
    pub fn claim_fair_launch_tokens(&mut self, receipts_resource: &Address, receipts: &Vec<Dec>, now: i64) -> (r: Result<(Dec, Dec), TxError>)
        ensures
            final(self).same_but_books(old(self)),
            match r {
                Ok((out, total)) => s_claim_fair_launch(old(self).books@, receipts_resource@ == old(self).fair_launch_receipt_address@,
                    receipts@.map_values(|d: Dec| d.val()), now as int)
                    == Ok::<(BooksView, (int, int)), TxError>((final(self).books@, (out.val(), total.val()))),
                Err(e) => s_claim_fair_launch(old(self).books@, receipts_resource@ == old(self).fair_launch_receipt_address@,
                    receipts@.map_values(|d: Dec| d.val()), now as int)
                    == Err::<(BooksView, (int, int)), TxError>(e) && final(self).books == old(self).books,
            },
    {
        let is_receipt = receipts_resource.same(&self.fair_launch_receipt_address);
        let (nb, res) = claim_fair_launch_books(self.books, is_receipt, receipts, now)?;
        self.books = nb;
        Ok(res)
    }
    /// Creates a component and makes the creator's first buy (see `s_new`).
    /// The ledger's part (resources, metadata, the dapp definition) is the
    /// caller's, which passes the addresses it got in `addresses`.
    pub fn new(
        max_token_supply_to_trade: Dec,
        max_xrd_market_cap: Dec,
        virtual_supply: Dec,
        tx_fee_perc: Dec,
        listing_fee_perc: Dec,
        creator_fee_perc: Dec,
        fair_launch_period_mins: u32,
        parent_address: Address,
        curve_calcs: C,
        dex_adaptor: Option<Address>,
        first_buy_amount: Dec,
        first_buy_bucket: Option<(Address, Dec)>,
        first_buy_lock_mins: i64,
        addresses: CurveAddresses,
        tip_percentage: u16,
        now: i64,
    ) -> (r: Result<(RakoonFunTokenCurve<C>, FirstBuy), TxError>)
        ensures
            ({
                let bk = match first_buy_bucket {
                    Some((res, a)) => Some((res@ == addresses.xrd_address@, a.val())),
                    None => None,
                };
                let s = s_new::<C>(max_token_supply_to_trade.val(), max_xrd_market_cap.val(), virtual_supply.val(),
                    tx_fee_perc.val(), listing_fee_perc.val(), creator_fee_perc.val(), fair_launch_period_mins as int,
                    dex_adaptor is Some, first_buy_amount.val(), bk, first_buy_lock_mins as int, tip_percentage as int, now as int);
                match r {
                    Ok((tc, f)) => s == Ok::<(BooksView, FirstBuyView), TxError>((tc.books@, f@))
                        && tc.wf()
                        && tc.curve_calcs == curve_calcs
                        && opt_view(tc.dex_adaptor) == opt_view(dex_adaptor)
                        && tc.dex_listing_address is None
                        && tc.listing_token_address is None
                        && tc.other_tokens@.len() == 0
                        && tc.parent_address@ == parent_address@
                        && tc.address@ == addresses.address@
                        && tc.owner_badge_address@ == addresses.owner_badge_address@
                        && tc.dapp_def_address@ == addresses.dapp_def_address@
                        && tc.token_address@ == addresses.token_address@
                        && tc.fair_launch_receipt_address@ == addresses.fair_launch_receipt_address@
                        && tc.xrd_address@ == addresses.xrd_address@,
                    Err(e) => s == Err::<(BooksView, FirstBuyView), TxError>(e),
                }
            }),
    {
        let books = new_books(&curve_calcs, max_token_supply_to_trade, max_xrd_market_cap, virtual_supply, tx_fee_perc,
            listing_fee_perc, creator_fee_perc, fair_launch_period_mins, first_buy_lock_mins, now)?;
        let bk = match &first_buy_bucket {
            Some((res, a)) => Some((res.same(&addresses.xrd_address), *a)),
            None => None,
        };
        let (nb, f) = first_buy_books(&curve_calcs, books, false, dex_adaptor.is_some(), bk, first_buy_amount,
            first_buy_lock_mins, tip_percentage, now)?;
        let tc = RakoonFunTokenCurve {
            books: nb,
            parent_address,
            address: addresses.address,
            owner_badge_address: addresses.owner_badge_address,
            dapp_def_address: addresses.dapp_def_address,
            token_address: addresses.token_address,
            fair_launch_receipt_address: addresses.fair_launch_receipt_address,
            xrd_address: addresses.xrd_address,
            curve_calcs,
            dex_adaptor,
            dex_listing_address: None,
            listing_token_address: None,
            other_tokens: Vec::new(),
        };
        assert(others_seq(tc.other_tokens@) =~= Seq::<(Seq<u8>, int)>::empty());
        Ok((tc, f))
    }
}

} // verus!
