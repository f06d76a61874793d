use video_decode::time::{rescale_ts, Rational, Timestamp};

fn tb(numerator: i32, denominator: i32) -> Rational {
    Rational::new(numerator, denominator)
}

#[test]
fn rescale_exact() {
    // 100 ticks of 1/25 s = 4 s = 360000 ticks of 1/90000 s
    assert_eq!(rescale_ts(Some(100), tb(1, 25), tb(1, 90000)), Some(360000));
}

#[test]
fn rescale_negative_exact() {
    assert_eq!(rescale_ts(Some(-100), tb(1, 25), tb(1, 90000)), Some(-360000));
}

#[test]
fn rescale_missing_stays_missing() {
    assert_eq!(rescale_ts(None, tb(1, 25), tb(1, 90000)), None);
}

#[test]
fn rescale_identity() {
    assert_eq!(rescale_ts(Some(12345), tb(1, 25), tb(1, 25)), Some(12345));
}

#[test]
fn rescale_rounds_to_nearest() {
    // 1 tick of 1/3 s is 1/3 tick of 1 s: rounds down to 0
    assert_eq!(rescale_ts(Some(1), tb(1, 3), tb(1, 1)), Some(0));
    // 2 ticks of 1/3 s is 2/3 tick of 1 s: rounds up to 1
    assert_eq!(rescale_ts(Some(2), tb(1, 3), tb(1, 1)), Some(1));
}

#[test]
fn rescale_ties_away_from_zero() {
    assert_eq!(rescale_ts(Some(1), tb(1, 2), tb(1, 1)), Some(1));
    assert_eq!(rescale_ts(Some(-1), tb(1, 2), tb(1, 1)), Some(-1));
}

#[test]
fn rescale_out_of_range_dropped() {
    // i64::MAX ticks of 1000 s each do not fit the tick range in 1 s ticks
    assert_eq!(rescale_ts(Some(i64::MAX), tb(1000, 1), tb(1, 1)), None);
    assert_eq!(rescale_ts(Some(i64::MIN), tb(1000, 1), tb(1, 1)), None);
}

#[test]
fn rescale_extreme_in_range() {
    assert_eq!(rescale_ts(Some(i64::MIN), tb(1, 1), tb(1, 1)), Some(i64::MIN));
    assert_eq!(rescale_ts(Some(i64::MAX), tb(1, 1), tb(1, 1)), Some(i64::MAX));
}

#[test]
fn timestamp_holds_ticks_and_base() {
    let ts = Timestamp::new(Some(42), tb(1, 90000));
    assert_eq!(ts.ticks, Some(42));
    assert_eq!(ts.time_base, tb(1, 90000));
}
