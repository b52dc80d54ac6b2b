//! The timeout value type and its total order.

use pipemux::Timeout;

#[test]
fn ordering_chain_instant_finite_infinite() {
    assert!(Timeout::instant() < Timeout::secs(1).unwrap());
    assert!(Timeout::secs(1).unwrap() < Timeout::secs(5).unwrap());
    assert!(Timeout::secs(5).unwrap() < Timeout::infinite());
    assert!(Timeout::instant() < Timeout::infinite());
}

#[test]
fn infinite_compares_equal_to_infinite() {
    let a = Timeout::infinite();
    let b = Timeout::infinite();
    assert_eq!(a.partial_cmp(&b), Some(std::cmp::Ordering::Equal));
    assert!(!(a < b));
    assert!(!(a > b));
}

#[test]
fn infinite_is_greater_than_every_finite_sample() {
    for s in [0i32, 1, 2, 100, i32::MAX] {
        let fin = Timeout::secs(s).unwrap();
        assert!(fin < Timeout::infinite());
        assert!(Timeout::infinite() > fin);
    }
}

#[test]
fn accessors_follow_the_value() {
    let z = Timeout::instant();
    assert!(z.is_instant());
    assert!(!z.is_infinite());
    assert_eq!(z.as_secs(), Some(0));

    let five = Timeout::secs(5).unwrap();
    assert!(!five.is_instant());
    assert!(!five.is_infinite());
    assert_eq!(five.as_secs(), Some(5));

    let inf = Timeout::infinite();
    assert!(inf.is_infinite());
    assert!(!inf.is_instant());
    assert_eq!(inf.as_secs(), None);
}

#[test]
fn negative_second_counts_are_rejected() {
    assert!(Timeout::secs(-1).is_none());
    assert!(Timeout::secs(i32::MIN).is_none());
    assert_eq!(Timeout::secs(0), Some(Timeout::instant()));
}
