use rakoonfun::decimal::Dec;
use rakoonfun::ledger::{divide, minus, plus, take, times, TxError};

fn d(s: &str) -> Dec {
    Dec::parse(s).unwrap()
}

#[test]
fn decimal_parse_reads_attos() {
    assert!(d("1.5").eq_val(&Dec::from_attos(1_500_000_000_000_000_000)));
    assert!(d("0.000000000000000001").eq_val(&Dec::from_attos(1)));
    assert!(d("1").eq_val(&Dec::one()));
    assert!(d("0").is_zero());
    assert!(d("-0.1").is_negative());
}

#[test]
fn decimal_parse_rejects_bad_text() {
    assert!(Dec::parse("abc").is_none());
    assert!(Dec::parse("1.2.3").is_none());
    assert!(Dec::parse(".5").is_none());
    assert!(Dec::parse("0.0000000000000000001").is_none());
    assert!(Dec::parse("").is_none());
}

#[test]
fn decimal_text_is_the_engine_text() {
    assert_eq!(d("1.5").to_text(), "1.5");
    assert_eq!(d("-0.1").to_text(), "-0.1");
    assert_eq!(Dec::zero().to_text(), "0");
    assert_eq!(d("66943.295008216952188266").to_text(), "66943.295008216952188266");
    assert_eq!(d("1000000.000").to_text(), "1000000");
}

#[test]
fn decimal_comparisons() {
    let a = d("-2.5");
    let b = d("1.25");
    assert!(a.lt(&b) && !b.lt(&a));
    assert!(b.gt(&a) && !a.gt(&b));
    assert!(a.le(&a) && a.ge(&a) && a.eq_val(&a));
    assert!(!a.eq_val(&b));
    assert!(b.is_positive() && !a.is_positive() && !Dec::zero().is_positive());
    assert!(d("-100").lt(&d("-99.999999999999999999")));
}

#[test]
fn decimal_arithmetic_is_exact_or_truncates() {
    assert_eq!(plus(d("1.5"), d("2.25")).unwrap().to_text(), "3.75");
    assert_eq!(minus(d("1.5"), d("2.25")).unwrap().to_text(), "-0.75");
    assert_eq!(times(d("0.1"), d("0.3")).unwrap().to_text(), "0.03");
    assert!(times(d("0.000000000000000001"), d("0.5")).unwrap().is_zero());
    assert_eq!(divide(d("1"), d("3")).unwrap().to_text(), "0.333333333333333333");
    assert_eq!(divide(d("-1"), d("3")).unwrap().to_text(), "-0.333333333333333333");
    assert_eq!(divide(d("2"), d("3")).unwrap().to_text(), "0.666666666666666666");
}

#[test]
fn decimal_arithmetic_overflow_is_refused() {
    let max = d("3138550867693340381917894711603833208051.177722232017256447");
    assert_eq!(plus(max, d("0.000000000000000001")).unwrap_err(), TxError::Overflow);
    assert_eq!(times(max, d("2")).unwrap_err(), TxError::Overflow);
    assert_eq!(divide(d("1"), Dec::zero()).unwrap_err(), TxError::Overflow);
    let min = d("-3138550867693340381917894711603833208051.177722232017256448");
    assert_eq!(minus(min, d("0.000000000000000001")).unwrap_err(), TxError::Overflow);
}

#[test]
fn decimal_take_from_a_holding() {
    assert_eq!(take(d("2"), d("0.5")).unwrap().to_text(), "1.5");
    assert!(take(d("2"), d("2")).unwrap().is_zero());
    assert_eq!(take(d("1"), d("2")).unwrap_err(), TxError::InsufficientResource);
    assert_eq!(take(d("1"), d("-1")).unwrap_err(), TxError::InsufficientResource);
}
