use crab::amount::Amount;

#[test]
fn verify_precision() {
    let mut a = Amount::zero();
    let tick = Amount::from_units(1);
    for _ in 0..10_000 {
        a = a.checked_add(tick).unwrap();
    }
    assert_eq!(a, Amount::from_units(10_000));
    for _ in 0..10_000 {
        a = a.checked_sub(tick).unwrap();
    }
    assert_eq!(a, Amount::from_units(0));
}

#[test]
fn checked_add_detects_overflow() {
    let max = Amount::max_value();
    assert_eq!(max.checked_add(Amount::from_units(1)), None);
    assert_eq!(max.checked_add(Amount::zero()), Some(max));
}

#[test]
fn checked_sub_detects_underflow() {
    let min = Amount::from_units(i64::MIN);
    assert_eq!(min.checked_sub(Amount::from_units(1)), None);
    assert_eq!(
        Amount::zero().checked_sub(Amount::from_units(1)),
        Some(Amount::from_units(-1))
    );
}

#[test]
fn ordering_and_sign() {
    assert!(Amount::from_units(-1).is_negative());
    assert!(!Amount::zero().is_negative());
    assert!(Amount::from_units(3).lt(Amount::from_units(4)));
    assert!(!Amount::from_units(4).lt(Amount::from_units(4)));
}
