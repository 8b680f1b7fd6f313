use platform_09_26::time::{Duration, SystemTime};

#[test]
fn milliseconds_are_carried_into_seconds() {
    assert_eq!(Duration::from_millis(1500).parts(), (1, 500_000_000));
    assert_eq!(Duration::from_millis(0).parts(), (0, 0));
    assert_eq!(
        Duration::from_millis(u64::MAX).parts(),
        (18_446_744_073_709_551, 615_000_000)
    );
    assert_eq!(Duration::from_millis(2000), Duration::from_secs(2));
}

#[test]
fn fractions_of_a_millisecond_are_dropped() {
    assert_eq!(Duration::new(2, 999_999).as_millis(), 2000);
    assert_eq!(Duration::new(2, 1_000_000).as_millis(), 2001);
    assert_eq!(Duration::new(0, 999_999).as_millis(), 0);
    assert_eq!(
        Duration::from_secs(u64::MAX).as_millis(),
        18_446_744_073_709_551_615_000
    );
}

#[test]
fn only_a_span_without_length_is_zero() {
    assert!(Duration::from_secs(0).is_zero());
    assert!(!Duration::new(0, 1).is_zero());
    assert!(!Duration::from_secs(1).is_zero());
}

#[test]
fn nanoseconds_are_carried_into_seconds() {
    let start = SystemTime::from_parts(10, 600_000_000);
    let end = start.checked_add(Duration::new(1, 500_000_000)).unwrap();
    assert_eq!(end.parts(), (12, 100_000_000));
    let before_epoch = SystemTime::from_parts(-2, 999_999_999);
    assert_eq!(
        before_epoch.checked_add(Duration::new(1, 1)).unwrap(),
        SystemTime::unix_epoch()
    );
}

#[test]
fn there_is_a_latest_point_in_time() {
    let latest = SystemTime::from_parts(i64::MAX, 999_999_999);
    assert_eq!(latest.checked_add(Duration::from_secs(0)), Some(latest));
    assert_eq!(latest.checked_add(Duration::new(0, 1)), None);
    assert_eq!(
        SystemTime::unix_epoch().checked_add(Duration::from_secs(u64::MAX)),
        None
    );
    assert_eq!(
        SystemTime::from_parts(i64::MIN, 0).checked_add(Duration::from_secs(u64::MAX)),
        Some(SystemTime::from_parts(i64::MAX, 0))
    );
}

#[test]
fn points_in_time_are_ordered() {
    let earlier = SystemTime::from_parts(-1, 999_999_999);
    let later = SystemTime::unix_epoch();
    assert!(earlier.is_before(&later));
    assert!(!later.is_before(&earlier));
    assert!(!later.is_before(&later));
    assert!(SystemTime::from_parts(0, 1).is_before(&SystemTime::from_parts(0, 2)));
    assert!(earlier < later);
}

#[test]
fn an_addition_stops_at_its_limit() {
    let start = SystemTime::from_parts(10, 0);
    let limit = SystemTime::from_parts(20, 0);
    let sum = |secs: u64| start.add_up_to(Duration::from_secs(secs), limit);
    assert_eq!(sum(5), SystemTime::from_parts(15, 0));
    assert_eq!(sum(10), limit);
    assert_eq!(sum(11), limit);
    assert_eq!(sum(u64::MAX), limit);
    assert_eq!(
        limit.add_up_to(Duration::from_secs(1), start),
        start
    );
}
