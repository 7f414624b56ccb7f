use chrono::{DateTime, Utc};
use easyvault::clock::{MAX_UTC_NANOS, MAX_UTC_SECS, MIN_UTC_NANOS, MIN_UTC_SECS, clock_now, now_rfc3339};

#[test]
fn bounds_match_chrono() {
    let max = DateTime::<Utc>::MAX_UTC;
    let min = DateTime::<Utc>::MIN_UTC;
    assert_eq!(MAX_UTC_SECS, max.timestamp());
    assert_eq!(MIN_UTC_SECS, min.timestamp());
    assert_eq!(MAX_UTC_NANOS, max.timestamp() as i128 * 1_000_000_000 + max.timestamp_subsec_nanos() as i128);
    assert_eq!(MIN_UTC_NANOS, min.timestamp() as i128 * 1_000_000_000 + min.timestamp_subsec_nanos() as i128);
    assert!(DateTime::from_timestamp(MAX_UTC_SECS, 999_999_999).is_some());
    assert!(DateTime::from_timestamp(MIN_UTC_SECS, 0).is_some());
}

#[test]
fn clock_reads_now() {
    let (s, n) = clock_now().unwrap();
    assert!(s > 1_600_000_000 && n < 1_000_000_000);
    let t = now_rfc3339().unwrap();
    assert!(t.ends_with("+00:00") && t.contains('T'));
}
