use rakoonfun::address::Address;
use rakoonfun::curve::CurveCs2Calcs;
use rakoonfun::decimal::Dec;
use rakoonfun::launcher::{RakoonFunMain, TokenInfo};
use rakoonfun::ledger::{minus, plus};
use rakoonfun::token_curve::{CurveAddresses, RakoonFunTokenCurve, Trade};

/// The ledger's clock in the scenarios: the test ledger starts at 0.
const NOW: i64 = 0;

fn dec(s: &str) -> Dec {
    Dec::parse(s).unwrap()
}

fn addr(b: u8) -> Address {
    Address::new(vec![b, 0x5a, b])
}

fn xrd() -> Address {
    addr(3)
}

fn token_res() -> Address {
    addr(13)
}

/// A launcher with the given tradable supply (also the market cap) and
/// virtual supply and no fees, one token launched on the cs2 curve, and an
/// account holding 10000 XRD.
struct TestEnv {
    parent: RakoonFunMain,
    token: RakoonFunTokenCurve<CurveCs2Calcs>,
    wallet_xrd: Dec,
    wallet_tokens: Dec,
}

fn setup_test_env(max_supply: &str, virtual_supply: &str) -> TestEnv {
    let zero = Dec::zero();
    let mut parent = RakoonFunMain::new(
        dec(max_supply),
        dec(max_supply),
        dec(virtual_supply),
        0,
        zero,
        zero,
        zero,
        zero,
        zero,
        0,
        addr(1),
        addr(2),
        xrd(),
        addr(4),
    );
    let info = TokenInfo {
        name: String::from("First Token"),
        symbol: String::from("FIRST"),
        description: String::from("The first token on Rakoon.fun"),
        icon_url: String::from("https://rakoon.fun/rakoonfun-OG-image.png"),
        telegram_url: String::from(""),
        x_url: String::from(""),
        website_url: String::from("https://rakoon.fun"),
    };
    let addresses = CurveAddresses {
        address: addr(10),
        owner_badge_address: addr(11),
        dapp_def_address: addr(12),
        token_address: token_res(),
        fair_launch_receipt_address: addr(14),
        xrd_address: xrd(),
    };
    let (token, first, remaining) = parent
        .new_token_curve_simple::<CurveCs2Calcs>(
            info,
            String::from("cs2"),
            String::new(),
            zero,
            None,
            (xrd(), zero),
            addresses,
            0,
            NOW,
        )
        .unwrap();
    assert!(first.tokens.is_zero() && remaining.is_zero());
    TestEnv { parent, token, wallet_xrd: dec("10000"), wallet_tokens: zero }
}

fn component_xrd(env: &TestEnv) -> Dec {
    let b = &env.token.books;
    plus(plus(b.xrd_vault, b.fee_vault).unwrap(), b.creator_fee_vault).unwrap()
}

fn token_buy(env: &mut TestEnv, xrd_to_send: &str) -> Trade {
    let sent = dec(xrd_to_send);
    env.wallet_xrd = minus(env.wallet_xrd, sent).unwrap();
    let t = env.token.buy(sent, &xrd(), 0, NOW).expect("Problem with token buy tx!");
    env.wallet_xrd = plus(env.wallet_xrd, t.change).unwrap();
    env.wallet_tokens = plus(env.wallet_tokens, t.out_amount).unwrap();
    t
}

fn token_buy_amount(env: &mut TestEnv, amount: &str, xrd_to_send: &str) -> Trade {
    let sent = dec(xrd_to_send);
    env.wallet_xrd = minus(env.wallet_xrd, sent).unwrap();
    let t = env.token.buy_amount(dec(amount), sent, &xrd(), 0, NOW).expect("Problem with token buy amount tx!");
    env.wallet_xrd = plus(env.wallet_xrd, t.change).unwrap();
    env.wallet_tokens = plus(env.wallet_tokens, t.out_amount).unwrap();
    t
}

fn token_sell(env: &mut TestEnv, tokens_to_send: &str) -> Trade {
    let sent = dec(tokens_to_send);
    env.wallet_tokens = minus(env.wallet_tokens, sent).unwrap();
    let t = env.token.sell(sent, &token_res(), 0, NOW).expect("Problem with token sell tx!");
    env.wallet_tokens = plus(env.wallet_tokens, t.change).unwrap();
    env.wallet_xrd = plus(env.wallet_xrd, t.out_amount).unwrap();
    t
}

fn token_sell_for_xrd_amount(env: &mut TestEnv, xrd_to_receive: &str, tokens_to_send: &str) -> Trade {
    let sent = dec(tokens_to_send);
    env.wallet_tokens = minus(env.wallet_tokens, sent).unwrap();
    let t = env
        .token
        .sell_for_xrd_amount(dec(xrd_to_receive), sent, &token_res(), 0, NOW)
        .expect("Problem with token sell for xrd tx!");
    env.wallet_tokens = plus(env.wallet_tokens, t.change).unwrap();
    env.wallet_xrd = plus(env.wallet_xrd, t.out_amount).unwrap();
    t
}

fn check_state(env: &TestEnv, price: &str, supply: &str, component: &str, tokens: &str, wallet: &str, when: &str) {
    let b = &env.token.books;
    assert!(b.last_price == dec(price), "Incorrect price {}. {}", when, b.last_price.to_text());
    assert!(b.current_supply == dec(supply), "Incorrect supply {}. {}", when, b.current_supply.to_text());
    assert!(component_xrd(env) == dec(component), "Incorrect XRD in component {}. {}", when, component_xrd(env).to_text());
    assert!(env.wallet_tokens == dec(tokens), "Incorrect token Balance in account {}. {}", when, env.wallet_tokens.to_text());
    assert!(env.wallet_xrd == dec(wallet), "Incorrect XRD Balance in account {}. {}", when, env.wallet_xrd.to_text());
}

#[test]
fn basic_tests_setup_env_test() {
    let env = setup_test_env("1000000", "0");
    let b = &env.token.books;
    assert!(b.current_supply.is_zero());
    assert!(b.last_price.is_zero());
    assert!(b.max_token_supply_to_trade == dec("1000000"));
    assert!(b.max_xrd_market_cap == dec("1000000"));
    assert!(!b.in_fair_launch_period);
    assert!(env.parent.tokens.get(&addr(10)).unwrap().same(&token_res()));
}

#[test]
fn basic_tests_simple_buy_sell_tests() {
    let mut env = setup_test_env("1000000", "0");
    token_buy(&mut env, "100");
    check_state(&env, "0.004481404746557164", "66943.295008216952188266", "100", "66943.295008216952188266", "9900", "after first buy");

    token_sell(&mut env, "66943.295008216952188266");
    check_state(&env, "0", "0", "0", "0", "10000", "after first sell");

    token_buy_amount(&mut env, "66943.295008216952188266", "100");
    check_state(&env, "0.004481404746557164", "66943.295008216952188266", "100", "66943.295008216952188266", "9900", "after 2nd buy");

    token_sell_for_xrd_amount(&mut env, "50", "66943.295008216952188265");
    check_state(&env, "0.002823108086643085", "53132.928459130553302387", "50", "53132.928459130553302387", "9950", "after sell for xrd amount");

    token_sell(&mut env, "53132.928459130553302387");
    check_state(&env, "0", "0", "0", "0", "10000", "after last sell");
}

#[test]
fn basic_tests_buy_sell_all_tokens_tests() {
    let mut env = setup_test_env("1000000", "0");
    env.wallet_xrd = plus(env.wallet_xrd, dec("500000")).unwrap();
    token_buy(&mut env, "500000");
    check_state(&env, "1", "1000000", "333333.333333333333333333", "1000000", "176666.666666666666666667", "after first buy");

    token_sell_for_xrd_amount(&mut env, "333333.333333333333333333", "1000000");
    check_state(&env, "0.0000000000000001", "0.01", "0", "0.01", "510000", "after first sell");
}

#[test]
fn basic_tests_with_vs_setup_env_test() {
    let env = setup_test_env("1000000", "100000");
    let b = &env.token.books;
    assert!(b.current_supply == dec("100000"));
    assert!(b.token_vault == dec("100000"));
    assert!(b.last_price == dec("0.01"));
    assert!(b.virtual_supply == dec("100000"));
}

#[test]
fn basic_tests_with_vs_simple_buy_sell_tests() {
    let mut env = setup_test_env("1000000", "100000");
    token_buy(&mut env, "100");
    check_state(&env, "0.011911384251964326", "109139.288306110584511913", "100", "9139.288306110584511913", "9900", "after first buy");

    token_sell(&mut env, "9139.288306110584511913");
    check_state(&env, "0.01", "100000", "0", "0", "10000", "after first sell");

    token_buy_amount(&mut env, "9139.288306110584511913", "100");
    check_state(&env, "0.011911384251964326", "109139.288306110584511913", "100", "9139.288306110584511913", "9900", "after 2nd buy");

    token_sell_for_xrd_amount(&mut env, "50", "4370.332988945930");
    check_state(&env, "0.010976533998250059", "104768.955317164729069559", "50", "4768.955317164729069559", "9950", "after sell for xrd amount");

    token_sell(&mut env, "4768.955317164729069559");
    check_state(&env, "0.01", "100000", "0", "0", "10000", "after last sell");
}

#[test]
fn basic_tests_with_vs_buy_sell_all_tokens_tests() {
    let mut env = setup_test_env("1000000", "100000");
    env.wallet_xrd = plus(env.wallet_xrd, dec("500000")).unwrap();
    token_buy(&mut env, "500000");
    check_state(&env, "1", "1000000", "333000", "900000", "177000", "after first buy");

    token_sell_for_xrd_amount(&mut env, "333000", "900000");
    check_state(&env, "0.01", "100000", "0", "0", "510000", "after first sell");
}
