use fitr::time::{Timestamp, MAX_SECONDS, NANOS_PER_SECOND};

fn at(seconds: i64, nanoseconds: u32) -> Timestamp {
    Timestamp::new(seconds, nanoseconds).unwrap()
}

#[test]
fn timestamp_keeps_its_parts() {
    let t = at(1_556_700_000, 250_000_000);
    assert_eq!(t.seconds(), 1_556_700_000);
    assert_eq!(t.nanoseconds(), 250_000_000);
    let before_epoch = at(-5, 999_999_999);
    assert_eq!(before_epoch.seconds(), -5);
    assert_eq!(before_epoch.nanoseconds(), 999_999_999);
}

#[test]
fn timestamp_refuses_parts_out_of_range() {
    assert!(Timestamp::new(0, NANOS_PER_SECOND).is_none());
    assert!(Timestamp::new(0, u32::MAX).is_none());
    assert!(Timestamp::new(MAX_SECONDS + 1, 0).is_none());
    assert!(Timestamp::new(-MAX_SECONDS - 1, 0).is_none());
    assert!(Timestamp::new(i64::MIN, 0).is_none());
    assert!(Timestamp::new(i64::MAX, 0).is_none());
}

#[test]
fn timestamp_takes_the_ends_of_its_range() {
    assert!(Timestamp::new(MAX_SECONDS, NANOS_PER_SECOND - 1).is_some());
    assert!(Timestamp::new(-MAX_SECONDS, 0).is_some());
    assert!(Timestamp::new(0, 0).is_some());
}

#[test]
fn whole_seconds_between_whole_instants() {
    assert_eq!(at(100, 0).whole_seconds_since(&at(40, 0)), 60);
    assert_eq!(at(40, 0).whole_seconds_since(&at(100, 0)), -60);
    assert_eq!(at(7, 0).whole_seconds_since(&at(7, 0)), 0);
}

#[test]
fn whole_seconds_round_toward_zero() {
    // 1.2 s and -1.2 s
    assert_eq!(at(12, 100_000_000).whole_seconds_since(&at(10, 900_000_000)), 1);
    assert_eq!(at(10, 900_000_000).whole_seconds_since(&at(12, 100_000_000)), -1);
    // 0.5 s and -0.5 s
    assert_eq!(at(1, 0).whole_seconds_since(&at(0, 500_000_000)), 0);
    assert_eq!(at(0, 500_000_000).whole_seconds_since(&at(1, 0)), 0);
    // 1.999999999 s and -1.999999999 s
    assert_eq!(at(2, 999_999_999).whole_seconds_since(&at(1, 0)), 1);
    assert_eq!(at(1, 0).whole_seconds_since(&at(2, 999_999_999)), -1);
    // 2.5 s and -2.5 s across the epoch
    assert_eq!(at(1, 0).whole_seconds_since(&at(-2, 500_000_000)), 2);
    assert_eq!(at(-2, 500_000_000).whole_seconds_since(&at(1, 0)), -2);
}

#[test]
fn whole_seconds_across_the_whole_range() {
    let first = at(-MAX_SECONDS, 0);
    let last = at(MAX_SECONDS, NANOS_PER_SECOND - 1);
    assert_eq!(last.whole_seconds_since(&first), 2 * MAX_SECONDS);
    assert_eq!(first.whole_seconds_since(&last), -2 * MAX_SECONDS);
}
