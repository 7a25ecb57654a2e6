use chrono::duration::Duration;
use chrono::time::{TimeZ, Timelike};

fn hmsm(hour: usize, min: usize, sec: usize, millis: usize) -> TimeZ {
    TimeZ::from_hms_milli(hour, min, sec, millis).unwrap()
}

fn check_add(lhs: TimeZ, rhs: Duration, sum: TimeZ) {
    assert_eq!(lhs.add(&rhs), sum);
}

fn check_sub(lhs: TimeZ, rhs: TimeZ, diff: Duration) {
    // `time1 - time2 = duration` is equivalent to `time2 - time1 = -duration`
    assert_eq!(lhs.sub(&rhs), diff);
    assert_eq!(rhs.sub(&lhs), diff.neg());
}

#[test]
fn test_time_add() {
    check_add(hmsm(3, 5, 7, 900), Duration::zero(), hmsm(3, 5, 7, 900));
    check_add(hmsm(3, 5, 7, 900), Duration::milliseconds(100), hmsm(3, 5, 8, 0));
    check_add(hmsm(3, 5, 7, 1_300), Duration::milliseconds(800), hmsm(3, 5, 8, 100));
    check_add(hmsm(3, 5, 7, 900), Duration::seconds(86399), hmsm(3, 5, 6, 900)); // overwrap
    check_add(hmsm(3, 5, 7, 900), Duration::seconds(-86399), hmsm(3, 5, 8, 900));
    check_add(hmsm(3, 5, 7, 900), Duration::days(12345), hmsm(3, 5, 7, 900));
}

#[test]
fn test_time_sub() {
    check_sub(hmsm(3, 5, 7, 900), hmsm(3, 5, 7, 900), Duration::zero());
    check_sub(hmsm(3, 5, 7, 900), hmsm(3, 5, 7, 600), Duration::milliseconds(300));
    check_sub(hmsm(3, 5, 7, 200), hmsm(2, 4, 6, 200), Duration::seconds(3600 + 60 + 1));
    check_sub(
        hmsm(3, 5, 7, 200),
        hmsm(2, 4, 6, 300),
        Duration::seconds(3600 + 60).add(&Duration::milliseconds(900)),
    );

    // treats the leap second as if it coincides with the prior non-leap second,
    // as required by `time1 - time2 = duration` and `time2 - time1 = -duration` equivalence.
    check_sub(hmsm(3, 5, 7, 200), hmsm(3, 5, 6, 1_800), Duration::milliseconds(400));
    check_sub(hmsm(3, 5, 7, 1_200), hmsm(3, 5, 6, 1_800), Duration::milliseconds(400));
    check_sub(hmsm(3, 5, 7, 1_200), hmsm(3, 5, 6, 800), Duration::milliseconds(400));

    // additional equality: `time1 + duration = time2` is equivalent to
    // `time2 - time1 = duration` if and only if `time2` represents a non-leap second.
    assert_eq!(hmsm(3, 5, 6, 800).add(&Duration::milliseconds(400)), hmsm(3, 5, 7, 200));
    assert_eq!(hmsm(3, 5, 6, 1_800).add(&Duration::milliseconds(400)), hmsm(3, 5, 7, 200));
}

#[test]
fn test_time_fmt() {
    assert_eq!(hmsm(23, 59, 59, 999).to_string(), "23:59:59,999");
    assert_eq!(hmsm(23, 59, 59, 1_000).to_string(), "23:59:60");
    assert_eq!(hmsm(23, 59, 59, 1_001).to_string(), "23:59:60,001");
    assert_eq!(TimeZ::from_hms_micro(0, 0, 0, 43210).unwrap().to_string(), "00:00:00,043210");
    assert_eq!(TimeZ::from_hms_nano(0, 0, 0, 6543210).unwrap().to_string(), "00:00:00,006543210");
}

#[test]
fn from_fields_accepts_exactly_the_ranges() {
    assert!(TimeZ::from_hms_nano(0, 0, 0, 0).is_some());
    assert!(TimeZ::from_hms_nano(23, 59, 59, 1_999_999_999).is_some());
    assert!(TimeZ::from_hms_nano(24, 0, 0, 0).is_none());
    assert!(TimeZ::from_hms_nano(0, 60, 0, 0).is_none());
    assert!(TimeZ::from_hms_nano(0, 0, 60, 0).is_none());
    assert!(TimeZ::from_hms_nano(0, 0, 0, 2_000_000_000).is_none());
    assert!(TimeZ::from_hms(23, 59, 59).is_some());
    assert!(TimeZ::from_hms(23, 59, 60).is_none());
}

#[test]
fn scaled_constructors_allow_the_leap_second() {
    let t = TimeZ::from_hms_milli(1, 2, 3, 1_999).unwrap();
    assert_eq!(t.nanosecond(), 1_999_000_000);
    assert!(TimeZ::from_hms_milli(1, 2, 3, 2_000).is_none());
    assert!(TimeZ::from_hms_milli(1, 2, 3, usize::MAX).is_none());
    let u = TimeZ::from_hms_micro(1, 2, 3, 1_999_999).unwrap();
    assert_eq!(u.nanosecond(), 1_999_999_000);
    assert!(TimeZ::from_hms_micro(1, 2, 3, 2_000_000).is_none());
}

#[test]
fn accessors_return_stored_fields() {
    let t = TimeZ::from_hms_nano(13, 45, 6, 1_500_000_000).unwrap();
    assert_eq!(t.hour(), 13);
    assert_eq!(t.minute(), 45);
    assert_eq!(t.second(), 6);
    assert_eq!(t.nanosecond(), 1_500_000_000);
    assert_eq!(t.nseconds_from_midnight(), 13 * 3600 + 45 * 60 + 6);
}

#[test]
fn hour12_folds_the_day() {
    assert_eq!(TimeZ::from_hms(0, 0, 0).unwrap().hour12(), (false, 12));
    assert_eq!(TimeZ::from_hms(1, 0, 0).unwrap().hour12(), (false, 1));
    assert_eq!(TimeZ::from_hms(11, 0, 0).unwrap().hour12(), (false, 11));
    assert_eq!(TimeZ::from_hms(12, 0, 0).unwrap().hour12(), (true, 12));
    assert_eq!(TimeZ::from_hms(23, 0, 0).unwrap().hour12(), (true, 11));
}

#[test]
fn with_mutators_replace_one_field() {
    let t = hmsm(3, 5, 7, 1_300);
    assert_eq!(t.with_hour(23), Some(hmsm(23, 5, 7, 1_300)));
    assert_eq!(t.with_hour(24), None);
    assert_eq!(t.with_minute(59), Some(hmsm(3, 59, 7, 1_300)));
    assert_eq!(t.with_minute(60), None);
    assert_eq!(t.with_second(0), Some(hmsm(3, 5, 0, 1_300)));
    assert_eq!(t.with_second(60), None);
    assert_eq!(t.with_nanosecond(1_999_999_999), TimeZ::from_hms_nano(3, 5, 7, 1_999_999_999));
    assert_eq!(t.with_nanosecond(2_000_000_000), None);
}

#[test]
fn add_zero_is_identity() {
    for t in [hmsm(0, 0, 0, 0), hmsm(23, 59, 59, 1_999), hmsm(12, 30, 15, 250)] {
        assert_eq!(t.add(&Duration::zero()), t);
    }
}

#[test]
fn add_wraps_at_midnight() {
    assert_eq!(hmsm(23, 59, 59, 500).add(&Duration::milliseconds(500)), hmsm(0, 0, 0, 0));
    assert_eq!(hmsm(0, 0, 0, 0).add(&Duration::nanoseconds(-1)), TimeZ::from_hms_nano(23, 59, 59, 999_999_999).unwrap());
    assert_eq!(hmsm(0, 0, 0, 0).add(&Duration::days(-3)), hmsm(0, 0, 0, 0));
}

#[test]
fn add_carry_threshold_depends_on_leap_second() {
    assert_eq!(hmsm(3, 5, 7, 900).add(&Duration::milliseconds(100)), hmsm(3, 5, 8, 0));
    assert_eq!(hmsm(3, 5, 7, 1_300).add(&Duration::milliseconds(800)), hmsm(3, 5, 8, 100));
    assert_eq!(hmsm(3, 5, 7, 1_300).add(&Duration::milliseconds(600)), hmsm(3, 5, 7, 1_900));
}

#[test]
fn sub_is_antisymmetric() {
    let times = [hmsm(0, 0, 0, 0), hmsm(3, 5, 6, 1_800), hmsm(23, 59, 59, 999), hmsm(12, 0, 1, 1_000)];
    for a in times {
        for b in times {
            assert_eq!(a.sub(&b), b.sub(&a).neg());
        }
    }
}

#[test]
fn sub_then_add_round_trips_off_leap_seconds() {
    let times = [hmsm(0, 0, 0, 0), hmsm(3, 5, 6, 800), hmsm(23, 59, 59, 999), hmsm(12, 0, 1, 1)];
    for t1 in times {
        for t2 in times {
            assert_eq!(t2.add(&t1.sub(&t2)), t1);
        }
    }
    // a leap second on the left does not come back
    let t1 = hmsm(3, 5, 7, 1_200);
    let t2 = hmsm(3, 5, 6, 800);
    assert_eq!(t2.add(&t1.sub(&t2)), hmsm(3, 5, 7, 200));
}

#[test]
fn fmt_precision_and_padding() {
    assert_eq!(TimeZ::from_hms(0, 0, 0).unwrap().to_string(), "00:00:00");
    assert_eq!(TimeZ::from_hms(9, 8, 7).unwrap().to_string(), "09:08:07");
    assert_eq!(TimeZ::from_hms_nano(1, 2, 3, 1).unwrap().to_string(), "01:02:03,000000001");
    assert_eq!(TimeZ::from_hms_nano(1, 2, 3, 1_999_999_999).unwrap().to_string(), "01:02:04,999999999");
    assert_eq!(TimeZ::from_hms_micro(1, 2, 3, 1_000_001).unwrap().to_string(), "01:02:04,000001");
}

#[test]
fn duration_parts_round_toward_negative_infinity() {
    let d = Duration::milliseconds(-1_500);
    assert_eq!(d.num_seconds(), -2);
    assert_eq!(d.subsec_nanos(), 500_000_000);
    assert_eq!(Duration::nanoseconds(1_000_000_001).num_seconds(), 1);
    assert_eq!(Duration::nanoseconds(1_000_000_001).subsec_nanos(), 1);
    assert_eq!(Duration::microseconds(-1).subsec_nanos(), 999_999_000);
    assert_eq!(Duration::days(2), Duration::seconds(172_800));
    assert_eq!(Duration::days(-1).num_seconds(), -86_400);
}

#[test]
fn duration_add_and_neg() {
    assert_eq!(Duration::milliseconds(700).add(&Duration::milliseconds(600)), Duration::milliseconds(1_300));
    assert_eq!(Duration::milliseconds(-700).add(&Duration::milliseconds(200)), Duration::milliseconds(-500));
    assert_eq!(Duration::milliseconds(1_300).neg(), Duration::milliseconds(-1_300));
    assert_eq!(Duration::seconds(5).neg(), Duration::seconds(-5));
    assert_eq!(Duration::zero().neg(), Duration::zero());
    assert_eq!(Duration::seconds(i64::MAX).neg(), Duration::seconds(-i64::MAX));
}
