use rakoonfun::address::Address;
use rakoonfun::curve::CurveCs2Calcs;
use rakoonfun::decimal::Dec;
use rakoonfun::launcher::{RakoonFunMain, TokenInfo};
use rakoonfun::ledger::TxError;
use rakoonfun::token_curve::{CurveAddresses, RakoonFunTokenCurve, TradeSide};

const T0: i64 = 1_700_000_000;

fn td(s: &str) -> Dec {
    Dec::parse(s).unwrap()
}

fn ta(b: u8) -> Address {
    Address::new(vec![7, b])
}

fn txrd() -> Address {
    ta(3)
}

fn ttoken() -> Address {
    ta(13)
}

fn treceipt() -> Address {
    ta(14)
}

fn tinfo() -> TokenInfo {
    TokenInfo {
        name: String::from("Test"),
        symbol: String::from("TST"),
        description: String::new(),
        icon_url: String::new(),
        telegram_url: String::new(),
        x_url: String::new(),
        website_url: String::new(),
    }
}

fn taddresses() -> CurveAddresses {
    CurveAddresses {
        address: ta(10),
        owner_badge_address: ta(11),
        dapp_def_address: ta(12),
        token_address: ttoken(),
        fair_launch_receipt_address: treceipt(),
        xrd_address: txrd(),
    }
}

/// A launcher (supply and market cap of a million) with the given fees and
/// fair launch period, a dex adaptor "ociswap", and one token on it, launched
/// at `T0` with or without the adaptor.
fn launch(tx: &str, lp: &str, cp: &str, mins: u32, with_dex: bool) -> (RakoonFunMain, RakoonFunTokenCurve<CurveCs2Calcs>) {
    let mut parent = RakoonFunMain::new(
        td("1000000"),
        td("1000000"),
        Dec::zero(),
        mins,
        td(tx),
        td(lp),
        td(cp),
        Dec::zero(),
        Dec::zero(),
        0,
        ta(1),
        ta(2),
        txrd(),
        ta(4),
    );
    parent.update_dexs(String::from("ociswap"), ta(20)).unwrap();
    let dex = if with_dex { String::from("ociswap") } else { String::new() };
    let (token, _, _) = parent
        .new_token_curve_simple::<CurveCs2Calcs>(tinfo(), String::from("cs2"), dex, Dec::zero(), None, (txrd(), Dec::zero()), taddresses(), 0, T0)
        .expect("launch");
    (parent, token)
}

#[test]
fn curve_buy_takes_the_trade_fee() {
    let (_, mut tc) = launch("0.01", "0.05", "0.05", 0, true);
    let t = tc.buy(td("100"), &txrd(), 0, T0).unwrap();
    let b = tc.books;
    assert_eq!(b.fee_vault.to_text(), "1");
    assert_eq!(b.xrd_vault.to_text(), "99");
    assert_eq!(t.out_amount.to_text(), "66719.402717079465634961");
    assert!(t.change.is_zero() && !t.out_is_receipt && t.listing.is_none());
    assert_eq!(b.current_supply.to_text(), "66719.402717079465634961");
    assert_eq!(b.token_total_supply.to_text(), "66719.402717079465634961");
    assert_eq!(b.last_price.to_text(), "0.00445147869892383");
    let e = t.event.unwrap();
    assert!(e.side == TradeSide::Buy && e.xrd_amount == td("99") && e.total_txs == 1);
    assert_eq!(b.no_txs, 1);
}

#[test]
fn curve_sell_takes_the_trade_fee() {
    let (_, mut tc) = launch("0.01", "0.05", "0.05", 0, true);
    let bought = tc.buy(td("100"), &txrd(), 0, T0).unwrap().out_amount;
    let t = tc.sell(bought, &ttoken(), 0, T0).unwrap();
    assert_eq!(t.out_amount.to_text(), "98.01");
    let b = tc.books;
    assert!(b.xrd_vault.is_zero() && b.current_supply.is_zero() && b.token_total_supply.is_zero());
    assert_eq!(b.fee_vault.to_text(), "1.99");
    assert_eq!(b.xrd_traded.to_text(), "198");
    assert_eq!(b.no_txs, 2);
    assert!(t.event.unwrap().side == TradeSide::Sell);
}

#[test]
fn curve_trades_keep_the_xrd() {
    // what the component holds and what went out make what it held and what came in
    let (_, mut tc) = launch("0.01", "0.05", "0.05", 0, true);
    let t = tc.buy(td("250"), &txrd(), 0, T0).unwrap();
    let b = tc.books;
    let held = rakoonfun::ledger::plus(b.xrd_vault, b.fee_vault).unwrap();
    assert_eq!(rakoonfun::ledger::plus(held, t.change).unwrap().to_text(), "250");
    let t2 = tc.sell_for_xrd_amount(td("10"), t.out_amount, &ttoken(), 0, T0).unwrap();
    let b2 = tc.books;
    let held2 = rakoonfun::ledger::plus(b2.xrd_vault, b2.fee_vault).unwrap();
    assert_eq!(rakoonfun::ledger::plus(held2, t2.out_amount).unwrap().to_text(), "250");
    assert_eq!(b2.fee_vault.to_text(), "2.6");
    // the tokens burnt and the tokens handed back make the bucket
    let burnt = rakoonfun::ledger::minus(b.current_supply, b2.current_supply).unwrap();
    assert!(rakoonfun::ledger::plus(burnt, t2.change).unwrap() == t.out_amount);
}

#[test]
fn curve_trade_refusals() {
    let (_, mut tc) = launch("0", "0.05", "0.05", 0, true);
    assert_eq!(tc.buy(td("100"), &txrd(), 1, T0).unwrap_err(), TxError::TipNotAllowed);
    assert_eq!(tc.buy(td("100"), &ttoken(), 0, T0).unwrap_err(), TxError::WrongResource);
    assert_eq!(tc.sell(td("1"), &txrd(), 0, T0).unwrap_err(), TxError::WrongResource);
    assert_eq!(tc.sell(td("1"), &ttoken(), 0, T0).unwrap_err(), TxError::SellMoreThanSupply);
    assert_eq!(tc.buy_amount(td("1000001"), td("100"), &txrd(), 0, T0).unwrap_err(), TxError::NotEnoughSupplyLeft);
    assert_eq!(tc.buy_amount(td("66943.295008216952188266"), td("99"), &txrd(), 0, T0).unwrap_err(), TxError::NotEnoughXrdSent);
    tc.buy(td("100"), &txrd(), 0, T0).unwrap();
    assert_eq!(tc.sell_for_xrd_amount(td("101"), td("66943"), &ttoken(), 0, T0).unwrap_err(), TxError::NotEnoughXrdForAmount);
    assert_eq!(tc.sell_for_xrd_amount(td("50"), td("1"), &ttoken(), 0, T0).unwrap_err(), TxError::NotEnoughTokensSupplied);
    assert_eq!(tc.sell_for_xrd_amount(td("50"), td("1"), &ttoken(), 2, T0).unwrap_err(), TxError::TipNotAllowed);
    // refused trades change nothing
    assert_eq!(tc.books.current_supply.to_text(), "66943.295008216952188266");
    assert_eq!(tc.books.xrd_vault.to_text(), "100");
    assert_eq!(tc.books.no_txs, 1);
}

#[test]
fn curve_sell_of_virtual_supply_needs_xrd() {
    let mut parent = RakoonFunMain::new(
        td("1000000"), td("1000000"), td("100000"), 0, Dec::zero(), Dec::zero(), Dec::zero(), Dec::zero(), Dec::zero(), 0,
        ta(1), ta(2), txrd(), ta(4),
    );
    let (mut tc, _, _) = parent
        .new_token_curve_simple::<CurveCs2Calcs>(tinfo(), String::from("cs2"), String::new(), Dec::zero(), None, (txrd(), Dec::zero()), taddresses(), 0, T0)
        .expect("launch");
    assert_eq!(tc.sell(td("50000"), &ttoken(), 0, T0).unwrap_err(), TxError::NotEnoughXrdInComponent);
}

#[test]
fn curve_zero_amounts_trade_nothing() {
    let (_, mut tc) = launch("0.01", "0.05", "0.05", 0, true);
    let t = tc.buy_amount(Dec::zero(), td("5"), &txrd(), 0, T0).unwrap();
    assert!(t.event.is_none() && t.out_amount.is_zero() && t.change == td("5"));
    let t2 = tc.sell(Dec::zero(), &ttoken(), 0, T0).unwrap();
    assert!(t2.event.is_none() && t2.out_amount.is_zero());
    assert_eq!(tc.books.no_txs, 0);
}

#[test]
fn curve_fair_launch_receipts_and_claims() {
    let (_, mut tc) = launch("0", "0.05", "0.05", 10, true);
    assert!(tc.books.in_fair_launch_period);
    let t1 = tc.buy(td("50"), &txrd(), 0, T0 + 60).unwrap();
    assert!(t1.out_is_receipt && t1.out_amount == Dec::one() && t1.receipt_xrd == Some(td("50")));
    let t2 = tc.buy_amount(td("13810.366549086398885879"), td("60"), &txrd(), 0, T0 + 120).unwrap();
    assert!(t2.out_is_receipt && t2.receipt_xrd == Some(td("50")));
    assert_eq!(t2.change.to_text(), "10");
    assert_eq!(tc.books.fair_launch_tokens.to_text(), "66943.295008216952188266");
    assert_eq!(tc.books.fair_launch_xrd.to_text(), "100");
    assert_eq!(tc.sell(td("1"), &ttoken(), 0, T0 + 600).unwrap_err(), TxError::SellDuringFairLaunch);
    let receipts = vec![td("50"), td("50")];
    assert_eq!(tc.claim_fair_launch_tokens(&treceipt(), &receipts, T0 + 600).unwrap_err(), TxError::FairLaunchNotFinished);
    assert_eq!(tc.claim_fair_launch_tokens(&ttoken(), &receipts, T0 + 601).unwrap_err(), TxError::WrongResource);
    let (out, total) = tc.claim_fair_launch_tokens(&treceipt(), &receipts, T0 + 601).unwrap();
    assert_eq!(out.to_text(), "66943.295008216952188266");
    assert_eq!(total.to_text(), "100");
    assert!(tc.books.fair_launch_tokens.is_zero() && tc.books.fair_launch_xrd.is_zero());
    assert!(!tc.books.in_fair_launch_period);
}

#[test]
fn curve_fair_launch_period_ends_on_time() {
    let (_, mut tc) = launch("0", "0.05", "0.05", 10, true);
    tc.check_in_fair_launch_period(T0 + 600).unwrap();
    assert!(tc.books.in_fair_launch_period);
    tc.check_in_fair_launch_period(T0 + 601).unwrap();
    assert!(!tc.books.in_fair_launch_period);
}

#[test]
fn curve_listing_when_the_target_is_reached() {
    let (_, mut tc) = launch("0.01", "0.05", "0.05", 0, true);
    assert_eq!(tc.list_token().unwrap_err(), TxError::TargetNotReached);
    assert_eq!(tc.remove_listing().unwrap_err(), TxError::NotListed);
    let t = tc.buy(td("500000"), &txrd(), 0, T0).unwrap();
    assert_eq!(t.out_amount.to_text(), "1000000");
    assert_eq!(t.change.to_text(), "163333.333333333333333334");
    let order = t.listing.unwrap();
    assert_eq!(order.xrd.to_text(), "299999.999999999999999999");
    assert_eq!(order.tokens.to_text(), "299999.999999999999999999");
    let b = tc.books;
    assert!(b.xrd_vault.is_zero() && b.token_vault.is_zero());
    assert_eq!(b.fee_vault.to_text(), "20000.000000000000000007");
    assert_eq!(b.creator_fee_vault.to_text(), "16666.66666666666666666");
    assert_eq!(b.current_supply.to_text(), "1299999.999999999999999999");
    assert_eq!(b.target_reached, T0);

    let returned = vec![(txrd(), td("1")), (ta(32), td("7"))];
    tc.complete_listing(ta(30), ta(31), td("500"), &returned).unwrap();
    assert!(tc.dex_listing_address.as_ref().unwrap().same(&ta(30)));
    assert_eq!(tc.books.xrd_vault.to_text(), "1");
    assert_eq!(tc.other_tokens.len(), 2);
    assert!(tc.other_tokens[0].0.same(&ta(31)) && tc.other_tokens[0].1 == td("500"));
    assert!(tc.other_tokens[1].0.same(&ta(32)) && tc.other_tokens[1].1 == td("7"));
    assert_eq!(tc.set_dex_adaptor(ta(21)).unwrap_err(), TxError::AlreadyListed);
    assert_eq!(tc.list_token().unwrap_err(), TxError::AlreadyListed);

    let (pool, units) = tc.remove_listing().unwrap();
    assert!(pool.same(&ta(30)) && units == td("500"));
    assert!(tc.other_tokens[0].1.is_zero());
    let done = tc.finish_remove_listing((ttoken(), td("1000")), (txrd(), td("2000")), &vec![]).unwrap();
    assert!(done.same(&ta(30)));
    assert!(tc.dex_listing_address.is_none());
    assert_eq!(tc.books.token_vault.to_text(), "1000");
    assert_eq!(tc.books.xrd_vault.to_text(), "2001");
}

#[test]
fn curve_target_without_adaptor_is_refused() {
    let (_, mut tc) = launch("0.01", "0.05", "0.05", 0, false);
    // reaching the target lists the token, which needs a dex adaptor
    assert_eq!(tc.buy(td("500000"), &txrd(), 0, T0).unwrap_err(), TxError::NoDexAdaptor);
    assert_eq!(
        tc.buy_amount(td("1000000"), td("500000"), &txrd(), 0, T0).unwrap_err(),
        TxError::NoDexAdaptor
    );
    assert!(tc.books.xrd_vault.is_zero() && tc.books.current_supply.is_zero());
    assert_eq!(tc.books.target_reached, 0);
    // with the clock at 0 buy_amount's target time is 0, so listing is refused
    assert_eq!(
        tc.buy_amount(td("1000000"), td("500000"), &txrd(), 0, 0).unwrap_err(),
        TxError::TargetNotReached
    );
    // with the clock at 0 buy's target time stays 0 and nothing is listed
    let t = tc.buy(td("500000"), &txrd(), 0, 0).unwrap();
    assert!(t.listing.is_none());
    assert_eq!(tc.books.xrd_vault.to_text(), "333333.333333333333333333");
    assert!(tc.books.xrd_vault == tc.books.max_xrd);
    assert_eq!(tc.books.current_supply.to_text(), "1000000");
    assert!(tc.books.current_supply == tc.books.max_token_supply_to_trade);
    assert_eq!(tc.list_token().unwrap_err(), TxError::TargetNotReached);
    // past the target a buy takes nothing and hands the XRD back
    let again = tc.buy(td("10"), &txrd(), 0, 0).unwrap();
    assert!(again.event.is_none() && again.out_amount.is_zero() && again.change == td("10"));
    assert!(tc.books.xrd_vault == tc.books.max_xrd);
}

#[test]
fn curve_fee_claims_empty_the_vaults() {
    let (_, mut tc) = launch("0.01", "0.05", "0.05", 0, true);
    tc.buy(td("100"), &txrd(), 0, T0).unwrap();
    let (reported, creator) = tc.claim_creator_fees();
    assert!(reported == Dec::one() && creator.is_zero());
    assert_eq!(tc.claim_fees().to_text(), "1");
    assert!(tc.books.fee_vault.is_zero());
    assert!(tc.claim_fees().is_zero());
}

#[test]
fn curve_change_of_calculator_reports_both() {
    let (_, mut tc) = launch("0", "0.05", "0.05", 0, true);
    let (old, new) = tc.change_curve_calcs(CurveCs2Calcs::new(ta(40)));
    assert!(old.same(&ta(4)) && new.same(&ta(40)));
}

#[test]
fn curve_sale_beyond_the_supply_is_refused() {
    // XRD handed back by a dex can leave the vault holding more than the
    // curve is worth; a sale for it would need more tokens than exist.
    let (_, mut tc) = launch("0.01", "0.05", "0.05", 0, true);
    tc.buy(td("500000"), &txrd(), 0, T0).unwrap();
    let returned = vec![(txrd(), td("10000000"))];
    tc.complete_listing(ta(30), ta(31), td("500"), &returned).unwrap();
    assert_eq!(tc.books.xrd_vault.to_text(), "10000000");
    assert_eq!(
        tc.sell_for_xrd_amount(td("5000000"), td("10000000"), &ttoken(), 0, T0).unwrap_err(),
        TxError::NotEnoughSupplyToSell
    );
}

#[test]
fn curve_refusals_of_inconsistent_books() {
    // books set by hand into states the curve's answers do not fit
    let (_, mut tc) = launch("0", "0.05", "0.05", 0, true);
    tc.books.current_supply = td("999999");
    assert_eq!(tc.buy(td("100"), &txrd(), 0, T0).unwrap_err(), TxError::ReceiveTokensCalcError);

    let (_, mut tc) = launch("0", "0.05", "0.05", 0, true);
    tc.books.xrd_vault = rakoonfun::ledger::minus(tc.books.max_xrd, td("1")).unwrap();
    assert_eq!(
        tc.buy_amount(td("66943.295008216952188266"), td("200"), &txrd(), 0, T0).unwrap_err(),
        TxError::MaxXrdExceeded
    );

    let (_, mut tc) = launch("0", "0.05", "0.05", 0, true);
    tc.books.max_xrd_market_cap = td("1000000000000000000000");
    tc.books.max_token_supply_to_trade = td("0.000001");
    tc.books.current_supply = td("0.000000000000000005");
    assert_eq!(tc.buy(td("0.000000000000000001"), &txrd(), 0, T0).unwrap_err(), TxError::InvalidMintAmount);

    let (_, mut tc) = launch("0.01", "0.05", "0.05", 0, true);
    tc.buy(td("500000"), &txrd(), 0, T0).unwrap();
    tc.complete_listing(ta(30), ta(31), td("500"), &vec![]).unwrap();
    tc.listing_token_address = Some(ta(33));
    assert_eq!(tc.remove_listing().unwrap_err(), TxError::NoListingTokens);
}
