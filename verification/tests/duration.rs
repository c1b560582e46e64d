use frp::time::{as_duration, from_duration, is_timeout, Duration};

#[test]
fn from_millis_splits_seconds_and_nanos() {
    let d = Duration::from_millis(2500);
    assert_eq!(d.as_secs(), 2);
    assert_eq!(d.subsec_nanos(), 500_000_000);
    assert_eq!(d.as_millis(), 2500);
}

#[test]
fn new_carries_whole_seconds() {
    let d = Duration::new(1, 2_500_000_000);
    assert_eq!(d.as_secs(), 3);
    assert_eq!(d.subsec_nanos(), 500_000_000);
}

#[test]
fn as_millis_drops_sub_millisecond_part() {
    let d = Duration::new(0, 1_999_999);
    assert_eq!(d.as_millis(), 1);
}

#[test]
fn configured_millis_round_trip() {
    for ms in [0u64, 1, 999, 1000, 30_000, u64::MAX] {
        assert_eq!(as_duration(&from_duration(ms)), ms);
    }
}

#[test]
fn as_duration_truncates_to_64_bits() {
    let d = Duration::new(u64::MAX, 0);
    let whole: u128 = (u64::MAX as u128) * 1000;
    assert_eq!(as_duration(&d), whole as u64);
}

#[test]
fn timeout_is_strictly_longer() {
    let limit = Duration::from_millis(3000);
    assert!(!is_timeout(&Duration::from_millis(3000), &limit));
    assert!(is_timeout(&Duration::new(3, 1), &limit));
    assert!(!is_timeout(&Duration::new(2, 999_999_999), &limit));
    assert!(is_timeout(&Duration::new(4, 0), &limit));
}
