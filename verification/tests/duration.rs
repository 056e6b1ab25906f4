use platform_runtime::duration::Duration;

#[test]
fn from_nanos_round_trips() {
    assert_eq!(Duration::from_nanos(0).as_nanos(), 0);
    assert_eq!(Duration::from_nanos(1).as_nanos(), 1);
    assert_eq!(Duration::from_nanos(u64::MAX).as_nanos(), u64::MAX);
}

#[test]
fn unit_constructors_scale() {
    assert_eq!(Duration::from_micros(3).as_nanos(), 3_000);
    assert_eq!(Duration::from_millis(7).as_nanos(), 7_000_000);
    assert_eq!(Duration::from_secs(2).as_nanos(), 2_000_000_000);
    assert_eq!(Duration::from_secs(0).as_nanos(), 0);
}

#[test]
fn zero_detection() {
    assert!(Duration::from_nanos(0).is_zero());
    assert!(Duration::from_millis(0).is_zero());
    assert!(!Duration::from_nanos(1).is_zero());
}

#[test]
fn durations_compare_by_value() {
    assert!(Duration::from_micros(1) == Duration::from_nanos(1_000));
    assert!(Duration::from_nanos(5) != Duration::from_nanos(6));
}
