use rakoonfun::address::Address;
use rakoonfun::curve::CurveCs2Calcs;
use rakoonfun::decimal::Dec;
use rakoonfun::dex::DexOciswapAdaptor;
use rakoonfun::launcher::{RakoonFunMain, TokenInfo};
use rakoonfun::ledger::TxError;
use rakoonfun::token_curve::{CurveAddresses, FirstBuy, RakoonFunTokenCurve};

const L0: i64 = 1_700_000_000;

fn ld(s: &str) -> Dec {
    Dec::parse(s).unwrap()
}

fn la(b: u8) -> Address {
    Address::new(vec![9, b])
}

fn lxrd() -> Address {
    la(3)
}

fn linfo(name: &str, symbol: &str) -> TokenInfo {
    TokenInfo {
        name: String::from(name),
        symbol: String::from(symbol),
        description: String::new(),
        icon_url: String::new(),
        telegram_url: String::new(),
        x_url: String::new(),
        website_url: String::new(),
    }
}

fn laddresses(component: u8) -> CurveAddresses {
    CurveAddresses {
        address: la(component),
        owner_badge_address: la(component + 1),
        dapp_def_address: la(component + 2),
        token_address: la(component + 3),
        fair_launch_receipt_address: la(component + 4),
        xrd_address: lxrd(),
    }
}

/// A launcher (supply and market cap of a million) with the given trade fee,
/// creation fee and first buy limits.
fn lparent(tx: &str, creation_fee: &str, first_buy_max: &str, lock: i64) -> RakoonFunMain {
    RakoonFunMain::new(
        ld("1000000"),
        ld("1000000"),
        Dec::zero(),
        0,
        ld(tx),
        ld("0.05"),
        ld("0.05"),
        ld(creation_fee),
        ld(first_buy_max),
        lock,
        la(1),
        la(2),
        lxrd(),
        la(4),
    )
}

type Launch = Result<(RakoonFunTokenCurve<CurveCs2Calcs>, FirstBuy, Dec), TxError>;

fn refusal(r: Launch) -> TxError {
    match r {
        Err(e) => e,
        Ok(_) => panic!("the launch was expected to be refused"),
    }
}

fn simple(p: &mut RakoonFunMain, info: TokenInfo, curve: &str, dex: &str, fee: (Address, Dec), component: u8) -> Launch {
    p.new_token_curve_simple::<CurveCs2Calcs>(info, String::from(curve), String::from(dex), Dec::zero(), None, fee, laddresses(component), 0, L0)
}

fn advanced(p: &mut RakoonFunMain, mts: &str, mc: &str, vs: &str, amount: &str, bucket: Option<(Address, Dec)>, lock: i64) -> Launch {
    p.new_token_curve_advanced::<CurveCs2Calcs>(
        linfo("Adv", "ADV"),
        String::from("cs2"),
        String::new(),
        ld(mts),
        ld(mc),
        ld(vs),
        ld("0.05"),
        0,
        ld(amount),
        bucket,
        lock,
        (lxrd(), Dec::zero()),
        laddresses(50),
        0,
        L0,
    )
}

#[test]
fn launcher_new_keeps_the_defaults() {
    let p = lparent("0.01", "0", "0.1", 10);
    assert_eq!(p.defaults.tx_fee_perc.to_text(), "0.01");
    assert_eq!(p.defaults.default_curve, "cs2");
    assert!(p.curve_calcs.get(&String::from("cs2")).unwrap().same(&la(4)));
    assert!(p.fees_vault.is_zero());
}

#[test]
fn launcher_records_the_launched_token() {
    let mut p = lparent("0", "0", "0", 0);
    let (tc, first, rest) = simple(&mut p, linfo("A", "A"), "cs2", "", (lxrd(), Dec::zero()), 10).unwrap();
    assert!(first.trade.is_none() && first.tokens.is_zero() && rest.is_zero());
    assert!(p.tokens.get(&la(10)).unwrap().same(&la(13)));
    assert!(tc.parent_address.same(&la(2)) && tc.token_address.same(&la(13)));
    assert!(tc.dex_adaptor.is_none());
}

#[test]
fn launcher_creation_fee() {
    let mut p = lparent("0", "100", "0", 0);
    assert_eq!(refusal(simple(&mut p, linfo("A", "A"), "cs2", "", (la(99), ld("150")), 10)), TxError::WrongResource);
    assert_eq!(refusal(simple(&mut p, linfo("A", "A"), "cs2", "", (lxrd(), ld("50")), 10)), TxError::InsufficientResource);
    assert!(p.fees_vault.is_zero());
    assert!(p.tokens.get(&la(10)).is_none());
    let (_, _, rest) = simple(&mut p, linfo("A", "A"), "cs2", "", (lxrd(), ld("150")), 10).unwrap();
    assert_eq!(rest.to_text(), "50");
    assert_eq!(p.fees_vault.to_text(), "100");
}

#[test]
fn launcher_launch_refusals() {
    let mut p = lparent("0", "0", "0.1", 10);
    assert_eq!(refusal(simple(&mut p, linfo("A", "A"), "nope", "", (lxrd(), Dec::zero()), 10)), TxError::UnknownCurve);
    assert_eq!(refusal(simple(&mut p, linfo("A", "A"), "cs2", "nope", (lxrd(), Dec::zero()), 10)), TxError::UnknownDex);
    assert_eq!(refusal(simple(&mut p, linfo("", "A"), "cs2", "", (lxrd(), Dec::zero()), 10)), TxError::MissingNameOrSymbol);
    assert_eq!(refusal(simple(&mut p, linfo("A", ""), "cs2", "", (lxrd(), Dec::zero()), 10)), TxError::MissingNameOrSymbol);
    assert_eq!(refusal(advanced(&mut p, "1000000", "1000000", "1000000", "0", None, 10)), TxError::InvalidVirtualSupply);
    assert_eq!(refusal(advanced(&mut p, "1000000", "1000000", "-1", "0", None, 10)), TxError::InvalidVirtualSupply);
    assert_eq!(refusal(advanced(&mut p, "1000000", "1000", "0", "0", None, 10)), TxError::InvalidDexRatio);
    assert_eq!(refusal(advanced(&mut p, "1000000", "1000000", "0", "100001", Some((lxrd(), ld("100"))), 10)), TxError::FirstBuyTooHigh);
    assert_eq!(refusal(advanced(&mut p, "1000000", "1000000", "0", "1000", Some((lxrd(), ld("100"))), 5)), TxError::LockPeriodTooShort);
    let mut high = lparent("1", "0", "0", 0);
    assert_eq!(refusal(simple(&mut high, linfo("A", "A"), "cs2", "", (lxrd(), Dec::zero()), 10)), TxError::FeeTooHigh);
    assert!(p.tokens.get(&la(10)).is_none() && p.tokens.get(&la(50)).is_none());
}

#[test]
fn launcher_first_buy_is_locked() {
    let mut p = lparent("0", "0", "0.1", 10);
    let (mut tc, first, rest) = advanced(&mut p, "1000000", "1000000", "0", "1000", Some((lxrd(), ld("100"))), 10).unwrap();
    assert!(first.tokens.is_zero());
    assert_eq!(first.xrd_change.to_text(), "99.999666666666666667");
    assert_eq!(rest.to_text(), "99.999666666666666667");
    assert_eq!(tc.books.first_buy_vault.to_text(), "1000");
    assert_eq!(tc.books.current_supply.to_text(), "1000");
    assert_eq!(tc.books.xrd_vault.to_text(), "0.000333333333333333");
    assert_eq!(tc.claim_first_buy_tokens(L0 + 600).unwrap_err(), TxError::FirstBuyLocked);
    assert_eq!(tc.claim_first_buy_tokens(L0 + 601).unwrap().to_text(), "1000");
    assert!(tc.books.first_buy_vault.is_zero());
}

#[test]
fn launcher_first_buy_without_lock_is_handed_out() {
    let mut p = lparent("0", "0", "0.1", 0);
    let (tc, first, _) = advanced(&mut p, "1000000", "1000000", "0", "1000", Some((lxrd(), ld("100"))), 0).unwrap();
    assert_eq!(first.tokens.to_text(), "1000");
    assert!(tc.books.first_buy_vault.is_zero());
    assert!(first.trade.unwrap().event.is_some());
}

#[test]
fn launcher_fee_vault() {
    let mut p = lparent("0", "0", "0", 0);
    assert_eq!(p.claim_fee_amount(ld("1")).unwrap_err(), TxError::NotEnoughFees);
    assert_eq!(p.transfer_fees(&la(99), ld("10")).unwrap_err(), TxError::WrongResource);
    p.transfer_fees(&lxrd(), ld("10")).unwrap();
    assert_eq!(p.fees_vault.to_text(), "10");
    assert_eq!(p.claim_fee_amount(ld("4")).unwrap().to_text(), "4");
    assert_eq!(p.fees_vault.to_text(), "6");
    assert_eq!(p.claim_all_fees().to_text(), "6");
    assert!(p.fees_vault.is_zero());
}

#[test]
fn launcher_dex_registry_reads_back_writes() {
    let mut p = lparent("0", "0", "0", 0);
    assert_eq!(p.update_dexs(String::new(), la(20)).unwrap_err(), TxError::MissingDexName);
    assert_eq!(p.get_dex_adaptor(String::from("ociswap")).unwrap_err(), TxError::UnknownDex);
    p.update_dexs(String::from("ociswap"), la(20)).unwrap();
    assert!(p.get_dex_adaptor(String::from("ociswap")).unwrap().same(&la(20)));
    p.update_dexs(String::from("ociswap"), la(21)).unwrap();
    assert!(p.get_dex_adaptor(String::from("ociswap")).unwrap().same(&la(21)));
    p.update_dexs(String::from("other"), la(22)).unwrap();
    p.delete_dex(String::from("ociswap"));
    assert_eq!(p.get_dex_adaptor(String::from("ociswap")).unwrap_err(), TxError::UnknownDex);
    assert!(p.get_dex_adaptor(String::from("other")).unwrap().same(&la(22)));
    let (tc, _, _) = simple(&mut p, linfo("A", "A"), "cs2", "other", (lxrd(), Dec::zero()), 10).unwrap();
    assert!(tc.dex_adaptor.unwrap().same(&la(22)));
}

#[test]
fn launcher_curve_registry_reads_back_writes() {
    let mut p = lparent("0", "0", "0", 0);
    p.update_curve_calc(String::from("cs3"), la(41));
    assert!(p.curve_calcs.get(&String::from("cs3")).unwrap().same(&la(41)));
    let (tc, _, _) = simple(&mut p, linfo("A", "A"), "cs3", "", (lxrd(), Dec::zero()), 10).unwrap();
    assert!(tc.curve_calcs.address.same(&la(41)));
    p.delete_curve_calc(String::from("cs3"));
    assert!(p.curve_calcs.get(&String::from("cs3")).is_none());
    assert_eq!(refusal(simple(&mut p, linfo("A", "A"), "cs3", "", (lxrd(), Dec::zero()), 20)), TxError::UnknownCurve);
}

#[test]
fn launcher_change_default_parameter() {
    let mut p = lparent("0", "0", "0", 0);
    let ev = p.change_default_parameter(String::from("tx_fee_perc"), String::from("0.02")).unwrap();
    assert_eq!((ev.field_name.as_str(), ev.old_value.as_str(), ev.new_value.as_str()), ("tx_fee_perc", "0", "0.02"));
    assert_eq!(p.defaults.tx_fee_perc.to_text(), "0.02");
    let (tc, _, _) = simple(&mut p, linfo("A", "A"), "cs2", "", (lxrd(), Dec::zero()), 10).unwrap();
    assert_eq!(tc.books.tx_fee_perc.to_text(), "0.02");
    let ev = p.change_default_parameter(String::from("fair_launch_period_mins"), String::from("15")).unwrap();
    assert_eq!(ev.old_value, "0");
    assert_eq!(p.defaults.fair_launch_period_mins, 15);
    let ev = p.change_default_parameter(String::from("fair_launch_period_mins"), String::from("20")).unwrap();
    assert_eq!(ev.old_value, "15");
    let ev = p.change_default_parameter(String::from("first_buy_lock_mins"), String::from("-3")).unwrap();
    assert_eq!(ev.old_value, "0");
    assert_eq!(p.defaults.first_buy_lock_mins, -3);
    let ev = p.change_default_parameter(String::from("first_buy_lock_mins"), String::from("4")).unwrap();
    assert_eq!(ev.old_value, "-3");
    let ev = p.change_default_parameter(String::from("max_xrd_market_cap"), String::from("2000000")).unwrap();
    assert_eq!(ev.old_value, "1000000");
    let ev = p.change_default_parameter(String::from("default_curve"), String::from("cs2")).unwrap();
    assert_eq!(ev.old_value, "cs2");
}

#[test]
fn launcher_change_default_parameter_refusals() {
    let mut p = lparent("0.01", "0", "0", 0);
    assert_eq!(p.change_default_parameter(String::from("nope"), String::from("1")).err().unwrap(), TxError::UnknownParameter);
    assert_eq!(p.change_default_parameter(String::from("tx_fee_perc"), String::from("abc")).err().unwrap(), TxError::InvalidParameterValue);
    assert_eq!(p.change_default_parameter(String::from("fair_launch_period_mins"), String::from("-1")).err().unwrap(), TxError::InvalidParameterValue);
    assert_eq!(p.change_default_parameter(String::from("first_buy_lock_mins"), String::from("x")).err().unwrap(), TxError::InvalidParameterValue);
    assert_eq!(p.change_default_parameter(String::from("default_curve"), String::from("nope")).err().unwrap(), TxError::UnknownCurve);
    assert_eq!(p.defaults.tx_fee_perc.to_text(), "0.01");
    assert_eq!(p.defaults.default_curve, "cs2");
}

#[test]
fn launcher_change_default_parameters_all_or_none() {
    let mut p = lparent("0.01", "0", "0", 0);
    let bad = vec![(String::from("tx_fee_perc"), String::from("0.03")), (String::from("nope"), String::from("1"))];
    assert_eq!(p.change_default_parameters(bad).err().unwrap(), TxError::UnknownParameter);
    assert_eq!(p.defaults.tx_fee_perc.to_text(), "0.01");
    let good = vec![(String::from("virtual_supply"), String::from("10")), (String::from("listing_fee_perc"), String::from("0.1"))];
    let evs = p.change_default_parameters(good).unwrap();
    assert_eq!(evs.len(), 2);
    assert_eq!((evs[0].field_name.as_str(), evs[0].old_value.as_str()), ("virtual_supply", "0"));
    assert_eq!((evs[1].field_name.as_str(), evs[1].old_value.as_str()), ("listing_fee_perc", "0.05"));
    assert_eq!(p.defaults.virtual_supply.to_text(), "10");
    assert_eq!(p.defaults.listing_fee_perc.to_text(), "0.1");
}

#[test]
fn dex_adaptor_describes_itself() {
    let d = DexOciswapAdaptor::new(String::from("ociswap"), la(20));
    assert_eq!(d.name(), "ociswap");
    assert!(d.address().same(&la(20)));
    let s = d.listing_pool_settings();
    assert_eq!(s.input_fee_rate.to_text(), "0.003");
    assert_eq!(s.flash_loan_fee_rate.to_text(), "0.0009");
    assert_eq!(s.a_share.to_text(), "0.5");
    assert_eq!(DexOciswapAdaptor::extra_returns(Some(5u8)), vec![5u8]);
    assert!(DexOciswapAdaptor::extra_returns::<u8>(None).is_empty());
}
