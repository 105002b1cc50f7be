use rakoonfun::address::Address;
use rakoonfun::curve::{calculate_multiplier, CurveCalcsAdaptor, CurveCs2Calcs};
use rakoonfun::decimal::Dec;

fn cd(s: &str) -> Dec {
    Dec::parse(s).unwrap()
}

fn cs2() -> CurveCs2Calcs {
    CurveCs2Calcs::new(Address::new(vec![4, 4]))
}

fn million() -> Dec {
    cd("1000000")
}

#[test]
fn cs2_new_is_named_cs2() {
    let c = cs2();
    assert_eq!(c.name, "cs2");
    assert!(c.address().same(&Address::new(vec![4, 4])));
    let c2 = CurveCs2Calcs::from_address(Address::new(vec![9]));
    assert!(c2.address().same(&Address::new(vec![9])));
}

#[test]
fn cs2_multiplier_is_market_cap_over_cubed_supply() {
    // 10^6 / (10^6)^3 = 10^-12, that is 10^24 units of 10^-36.
    let m = calculate_multiplier(million(), million()).unwrap();
    assert_eq!((m.d0, m.d1, m.d2, m.d3), (2003764205206896640, 54210, 0, 0));
    assert!(calculate_multiplier(million(), Dec::zero()).is_none());
}

#[test]
fn cs2_price_is_multiplier_times_supply_squared() {
    let c = cs2();
    assert_eq!(c.calculate_price(cd("66943.295008216952188266"), million(), million()).unwrap().to_text(), "0.004481404746557164");
    assert_eq!(c.calculate_price(cd("500000"), million(), million()).unwrap().to_text(), "0.25");
    assert_eq!(c.calculate_price(million(), million(), million()).unwrap().to_text(), "1");
    assert!(c.calculate_price(Dec::zero(), million(), million()).unwrap().is_zero());
    assert!(c.calculate_price(Dec::one(), million(), Dec::zero()).is_none());
}

#[test]
fn cs2_tokens_received_and_buy_price() {
    let c = cs2();
    assert_eq!(c.calculate_tokens_received(cd("100"), Dec::zero(), million(), million()).unwrap().to_text(), "66943.295008216952188266");
    assert_eq!(c.calculate_tokens_received(cd("50"), Dec::zero(), million(), million()).unwrap().to_text(), "53132.928459130553302387");
    assert_eq!(c.calculate_buy_price(cd("66943.295008216952188266"), Dec::zero(), million(), million()).unwrap().to_text(), "100");
    assert_eq!(c.calculate_buy_price(cd("1000"), Dec::zero(), million(), million()).unwrap().to_text(), "0.000333333333333333");
}

#[test]
fn cs2_sell_price_and_tokens_to_sell() {
    let c = cs2();
    let s = cd("66943.295008216952188266");
    assert_eq!(c.calculate_sell_price(s, s, million(), million()).unwrap().to_text(), "100");
    assert_eq!(c.calculate_tokens_to_sell(cd("50"), s, million(), million()).unwrap().to_text(), "13810.366549086398885879");
}

#[test]
fn cs2_max_xrd_is_a_third_of_the_market_cap() {
    let c = cs2();
    assert_eq!(c.calculate_max_xrd(million(), million()).unwrap().to_text(), "333333.333333333333333333");
    assert!(c.calculate_max_xrd(million(), Dec::zero()).is_none());
}

#[test]
fn cs2_non_positive_amounts_cost_nothing() {
    let c = cs2();
    let s = cd("5000");
    assert!(c.calculate_buy_price(Dec::zero(), s, million(), million()).unwrap().is_zero());
    assert!(c.calculate_sell_price(cd("-1"), s, million(), million()).unwrap().is_zero());
    assert!(c.calculate_tokens_received(Dec::zero(), s, million(), million()).unwrap().is_zero());
    assert!(c.calculate_tokens_to_sell(cd("-5"), s, million(), million()).unwrap().is_zero());
}

#[test]
fn cs2_selling_what_was_bought_returns_its_price() {
    let c = cs2();
    let n = cd("1234.5");
    let s = cd("5000");
    let bought = c.calculate_buy_price(n, s, million(), million()).unwrap();
    let sold = c.calculate_sell_price(n, cd("6234.5"), million(), million()).unwrap();
    assert_eq!(bought.to_text(), "0.039109573237875");
    assert!(bought == sold);
}

#[test]
fn cs2_tiny_purchase_on_a_steep_curve_is_negative() {
    // a multiplier of 10^39 per token: one atto of XRD at a supply of five
    // attos rounds to minus five attos of tokens
    let c = cs2();
    let r = c.calculate_tokens_received(cd("0.000000000000000001"), cd("0.000000000000000005"), cd("1000000000000000000000"), cd("0.000001"));
    assert_eq!(r.unwrap().to_text(), "-0.000000000000000005");
}
