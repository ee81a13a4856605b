use rnode::utils::{floor_div, parse_duration, IntervalManager, PeriodTracker};

#[test]
fn test_parse_freq() {
    assert_eq!(parse_duration("1s").unwrap() / 1000, 1);
    assert_eq!(parse_duration("5m").unwrap() / 60_000, 5);
    assert_eq!(parse_duration("1h").unwrap() / 3_600_000, 1);
    assert_eq!(parse_duration("1D").unwrap() / 86_400_000, 1);
    assert!(parse_duration("invalid").is_none());
}

#[test]
fn parse_duration_gives_milliseconds() {
    assert_eq!(parse_duration("1s"), Some(1_000));
    assert_eq!(parse_duration("5m"), Some(300_000));
    assert_eq!(parse_duration("1h"), Some(3_600_000));
    assert_eq!(parse_duration("1d"), Some(86_400_000));
    assert_eq!(parse_duration("15s"), Some(15_000));
    assert_eq!(parse_duration("+5m"), Some(300_000));
    assert_eq!(parse_duration("-5s"), Some(-5_000));
    assert_eq!(parse_duration("0s"), Some(0));
    assert_eq!(parse_duration("007s"), Some(7_000));
}

#[test]
fn parse_duration_rejects_other_text() {
    assert_eq!(parse_duration(""), None);
    assert_eq!(parse_duration("s"), None);
    assert_eq!(parse_duration("5"), None);
    assert_eq!(parse_duration("5x"), None);
    assert_eq!(parse_duration("5 s"), None);
    assert_eq!(parse_duration("1.5s"), None);
    assert_eq!(parse_duration("-s"), None);
    assert_eq!(parse_duration("5S"), None);
    assert_eq!(parse_duration("5é"), None);
}

#[test]
fn parse_duration_rejects_what_does_not_fit() {
    assert_eq!(parse_duration("9223372036854775807s"), None);
    assert_eq!(parse_duration("9223372036854775808s"), None);
    assert_eq!(parse_duration("9223372036854775s"), Some(9_223_372_036_854_775_000));
    assert_eq!(parse_duration("9223372036854776s"), None);
    assert_eq!(parse_duration("99999999999999999999999999d"), None);
}

#[test]
fn floor_div_rounds_down() {
    assert_eq!(floor_div(7, 2), 3);
    assert_eq!(floor_div(-7, 2), -4);
    assert_eq!(floor_div(-8, 2), -4);
    assert_eq!(floor_div(-1, 1000), -1);
    assert_eq!(floor_div(0, 1000), 0);
    assert_eq!(floor_div(i64::MIN, 1), i64::MIN);
    assert_eq!(floor_div(i64::MAX, 1), i64::MAX);
}

#[test]
fn interval_manager_starts_in_the_period_of_the_clock() {
    let manager = IntervalManager::new("5m", 1_000_000).unwrap();
    assert_eq!(manager.get_current_period(), 3);
    assert_eq!(manager.get_current_interval(), (900_000, 1_200_000));
    assert_eq!(manager.get_duration(), 300_000);
}

#[test]
fn interval_manager_detects_the_boundary() {
    let mut manager = IntervalManager::new("1s", 5_250).unwrap();
    assert_eq!(manager.get_current_interval(), (5_000, 6_000));
    assert!(!manager.should_advance(5_999));
    assert!(manager.should_advance(6_000));
    assert!(manager.should_advance(60_000));
    assert!(manager.can_advance());
    manager.advance();
    assert_eq!(manager.get_current_period(), 6);
    assert_eq!(manager.get_current_interval(), (6_000, 7_000));
    assert!(!manager.should_advance(6_000));
}

#[test]
fn period_id_does_not_depend_on_the_open_period() {
    let mut manager = IntervalManager::new("1s", 5_250).unwrap();
    assert_eq!(manager.get_period_id(0), 0);
    assert_eq!(manager.get_period_id(999), 0);
    assert_eq!(manager.get_period_id(1_000), 1);
    assert_eq!(manager.get_period_id(-1), -1);
    assert_eq!(manager.get_period_id(-1_000), -1);
    assert_eq!(manager.get_period_id(-1_001), -2);
    manager.advance();
    assert_eq!(manager.get_period_id(999), 0);
    assert_eq!(manager.get_period_id(123_456), 123);
}

#[test]
fn interval_manager_needs_a_positive_length() {
    assert!(IntervalManager::new("0s", 1_000).is_none());
    assert!(IntervalManager::new("-1s", 1_000).is_none());
    assert!(IntervalManager::new("bad", 1_000).is_none());
    assert!(IntervalManager::with_duration(0, 0).is_none());
    assert!(IntervalManager::with_duration(1, i64::MAX).is_none());
    assert!(IntervalManager::with_duration(1_000, i64::MIN).is_none());
    assert!(IntervalManager::with_duration(1, i64::MAX - 1).is_some());
}

#[test]
fn interval_manager_knows_the_last_window() {
    let manager = IntervalManager::with_duration(1, i64::MAX - 1).unwrap();
    assert_eq!(manager.get_current_interval(), (i64::MAX - 1, i64::MAX));
    assert!(!manager.can_advance());
}

#[test]
fn tracker_closes_each_period_once() {
    let mut tracker = PeriodTracker::new("1s", 5_250).unwrap();
    assert_eq!(tracker.close_period(5_999), None);
    assert_eq!(tracker.close_period(6_000), Some(5));
    assert_eq!(tracker.gate.last_emitted(), 5);
    assert_eq!(tracker.manager.get_current_period(), 6);
    assert_eq!(tracker.close_period(6_000), None);
    assert_eq!(tracker.close_period(7_500), Some(6));
    assert_eq!(tracker.close_period(7_500), None);
}

#[test]
fn tracker_does_not_close_period_zero() {
    let mut tracker = PeriodTracker::new("1s", 100).unwrap();
    assert_eq!(tracker.manager.get_current_period(), 0);
    assert_eq!(tracker.close_period(5_000), None);
    assert_eq!(tracker.manager.get_current_period(), 0);
    assert!(tracker.skip_period(5_000));
    assert_eq!(tracker.manager.get_current_period(), 1);
    assert_eq!(tracker.close_period(5_000), Some(1));
}
