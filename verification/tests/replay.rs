use rnode::replay::{clamp, floor_div_wide, MasterClock, ReplayConfig};
use rnode::types::AMOUNT_SCALE;
use rnode::utils::IntervalManager;
use rnode::ws_client::WsClient;

#[test]
fn clock_starts_at_the_start_time() {
    let clock = MasterClock::new(1_000, 2 * AMOUNT_SCALE, 500);
    assert_eq!(clock.get_current_time(), 1_000);
}

#[test]
fn clock_runs_at_its_speed() {
    let mut clock = MasterClock::new(1_000, 5 * AMOUNT_SCALE / 2, 500);
    clock.update_time(900);
    assert_eq!(clock.get_current_time(), 2_000);
    clock.update_time(501);
    assert_eq!(clock.get_current_time(), 1_002);
    clock.update_time(500);
    assert_eq!(clock.get_current_time(), 1_000);
}

#[test]
fn clock_reads_only_after_a_refresh() {
    let mut clock = MasterClock::new(0, AMOUNT_SCALE, 0);
    assert_eq!(clock.get_current_time(), 0);
    clock.update_time(70);
    assert_eq!(clock.get_current_time(), 70);
}

#[test]
fn clock_rounds_down() {
    let mut clock = MasterClock::new(0, AMOUNT_SCALE / 3, 0);
    clock.update_time(10);
    assert_eq!(clock.get_current_time(), 3);
    clock.update_time(-10);
    assert_eq!(clock.get_current_time(), -4);
}

#[test]
fn clock_stays_in_range() {
    let mut clock = MasterClock::new(i64::MAX - 5, AMOUNT_SCALE, 0);
    clock.update_time(100);
    assert_eq!(clock.get_current_time(), i64::MAX);
    let mut fast = MasterClock::new(0, i64::MAX, i64::MIN);
    fast.update_time(i64::MAX);
    assert_eq!(fast.get_current_time(), i64::MAX);
    let mut back = MasterClock::new(0, i64::MIN, i64::MIN);
    back.update_time(i64::MAX);
    assert_eq!(back.get_current_time(), i64::MIN);
}

#[test]
fn replays_with_the_same_timing_cross_the_same_periods() {
    let readings: [i64; 6] = [0, 15, 400, 401, 1_238, 90_000];
    let mut a = MasterClock::new(1_700_000_000_000, 10 * AMOUNT_SCALE, 5_000);
    let mut b = MasterClock::new(1_700_000_000_000, 10 * AMOUNT_SCALE, 77_000_123);
    let periods = IntervalManager::new("1s", 0).unwrap();
    let mut seen_a: Vec<i64> = Vec::new();
    let mut seen_b: Vec<i64> = Vec::new();
    for elapsed in readings {
        a.update_time(5_000 + elapsed);
        b.update_time(77_000_123 + elapsed);
        seen_a.push(periods.get_period_id(a.get_current_time()));
        seen_b.push(periods.get_period_id(b.get_current_time()));
    }
    assert_eq!(seen_a, seen_b);
    assert_eq!(
        seen_a,
        vec![1_700_000_000, 1_700_000_000, 1_700_000_004, 1_700_000_004, 1_700_000_012, 1_700_000_900]
    );
}

#[test]
fn clamp_limits_to_64_bits() {
    assert_eq!(clamp(0), 0);
    assert_eq!(clamp(i64::MAX as i128 + 1), i64::MAX);
    assert_eq!(clamp(i64::MIN as i128 - 1), i64::MIN);
    assert_eq!(clamp(-17), -17);
}

#[test]
fn wide_floor_division_rounds_down() {
    assert_eq!(floor_div_wide(-1, 100_000_000), -1);
    assert_eq!(floor_div_wide(-100_000_000, 100_000_000), -1);
    assert_eq!(floor_div_wide(-100_000_001, 100_000_000), -2);
    assert_eq!(floor_div_wide(199_999_999, 100_000_000), 1);
}

#[test]
fn replay_config_keeps_its_fields() {
    let config = ReplayConfig::new(1, 2, 3, 4, 5);
    assert_eq!(config.start_time, 1);
    assert_eq!(config.end_time, 2);
    assert_eq!(config.speed_multiplier, 3);
    assert_eq!(config.replay_window, 4);
    assert_eq!(config.x_cur_time, 5);
}

#[test]
fn transport_reads_the_replay_clock() {
    let mut client = WsClient::with_replay(
        "ws://feed".to_string(),
        10_000,
        20_000,
        2 * AMOUNT_SCALE,
        60,
        10_000,
        1_000,
    );
    assert_eq!(client.get_current_time(999_999), 10_000);
    client.update_time(1_250);
    assert_eq!(client.get_current_time(999_999), 10_500);
}

#[test]
fn transport_reads_the_real_clock_without_replay() {
    let mut client = WsClient::new("ws://feed".to_string());
    assert_eq!(client.get_current_time(4_242), 4_242);
    client.update_time(5_000);
    assert_eq!(client.get_current_time(4_243), 4_243);
}

#[test]
fn replay_parameters_as_json() {
    let config = ReplayConfig::new(1_000, 2_000, 5 * AMOUNT_SCALE / 2, 60, -1);
    let text = config.to_subscription_params();
    assert_eq!(
        text,
        r#"{"end_time":2000,"replay_window":60,"speed_multiplier":2.50000000,"start_time":1000,"x-cur-time":-1}"#
    );
    let value: serde_json::Value = serde_json::from_str(&text).unwrap();
    assert_eq!(value["start_time"], 1_000);
    assert_eq!(value["end_time"], 2_000);
    assert_eq!(value["speed_multiplier"], 2.5);
    assert_eq!(value["replay_window"], 60);
    assert_eq!(value["x-cur-time"], -1);
}
