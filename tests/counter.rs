use dark_toggle::ClickCounter;

#[test]
fn counter_starts_at_zero() {
    assert_eq!(ClickCounter::new().count(), 0);
}

#[test]
fn each_activation_adds_one() {
    let mut c = ClickCounter::new();
    for i in 1..=1000u64 {
        c.increment();
        assert_eq!(c.count(), i);
    }
}
