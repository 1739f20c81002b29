use block_metrics::duration::{Duration, MAX_SECS, MAX_SECS_NANOS, MIN_SECS, MIN_SECS_NANOS};

#[test]
fn whole_seconds_are_kept() {
    assert_eq!(Duration::new(60, 0), Some(Duration { seconds: 60, subsec_nanos: 0 }));
    assert_eq!(Duration::new(-60, 0), Some(Duration { seconds: -60, subsec_nanos: 0 }));
    assert_eq!(Duration::new(0, 0), Some(Duration { seconds: 0, subsec_nanos: 0 }));
}

#[test]
fn nanoseconds_follow_non_negative_seconds() {
    assert_eq!(Duration::new(5, 1), Some(Duration { seconds: 5, subsec_nanos: 1 }));
    assert_eq!(
        Duration::new(0, 999_999_999),
        Some(Duration { seconds: 0, subsec_nanos: 999_999_999 })
    );
}

#[test]
fn nanoseconds_count_forward_from_negative_seconds() {
    assert_eq!(
        Duration::new(-1, 500_000_000),
        Some(Duration { seconds: 0, subsec_nanos: -500_000_000 })
    );
    assert_eq!(Duration::new(-3, 1), Some(Duration { seconds: -2, subsec_nanos: -999_999_999 }));
}

#[test]
fn a_second_of_nanoseconds_is_refused() {
    assert_eq!(Duration::new(0, 1_000_000_000), None);
    assert_eq!(Duration::new(0, u32::MAX), None);
}

#[test]
fn the_upper_bound_is_i64_max_milliseconds() {
    assert_eq!(MAX_SECS, i64::MAX / 1000);
    assert_eq!(MAX_SECS_NANOS as i64, (i64::MAX % 1000) * 1_000_000);
    assert_eq!(
        Duration::new(MAX_SECS, MAX_SECS_NANOS),
        Some(Duration { seconds: MAX_SECS, subsec_nanos: 807_000_000 })
    );
    assert_eq!(Duration::new(MAX_SECS, MAX_SECS_NANOS + 1), None);
    assert_eq!(Duration::new(MAX_SECS + 1, 0), None);
    assert_eq!(Duration::new(i64::MAX, 0), None);
}

#[test]
fn the_lower_bound_is_minus_i64_max_milliseconds() {
    assert_eq!(MIN_SECS, -(i64::MAX / 1000) - 1);
    assert_eq!(MIN_SECS_NANOS as i64, 1_000_000_000 - (i64::MAX % 1000) * 1_000_000);
    assert_eq!(
        Duration::new(MIN_SECS, MIN_SECS_NANOS),
        Some(Duration { seconds: MIN_SECS + 1, subsec_nanos: -807_000_000 })
    );
    assert_eq!(Duration::new(MIN_SECS, MIN_SECS_NANOS - 1), None);
    assert_eq!(Duration::new(MIN_SECS, 0), None);
    assert_eq!(Duration::new(MIN_SECS - 1, 999_999_999), None);
    assert_eq!(Duration::new(i64::MIN, 0), None);
}

#[test]
fn new_agrees_with_chrono() {
    let cases: Vec<(i64, u32)> = vec![
        (60, 0),
        (-60, 0),
        (-1, 1),
        (12, 345_678_901),
        (-12, 345_678_901),
        (MAX_SECS, 0),
        (MIN_SECS + 1, 0),
    ];
    for (secs, nanos) in cases {
        let ours = Duration::new(secs, nanos).unwrap();
        let theirs = chrono::TimeDelta::new(secs, nanos).unwrap();
        assert_eq!(ours.seconds, theirs.num_seconds());
        assert_eq!(ours.subsec_nanos, theirs.subsec_nanos());
        assert_eq!(
            chrono::TimeDelta::seconds(ours.seconds)
                + chrono::TimeDelta::nanoseconds(ours.subsec_nanos as i64),
            theirs
        );
    }
}
