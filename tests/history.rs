use aranet4_server::history::{arrange_history, default_limit, history_threshold, query_threshold};
use aranet4_server::reading::{SensorReading, Status};

fn at(ts: u64) -> SensorReading {
    SensorReading { co2: 400, temperature_raw: 420, humidity: 35, pressure: 1012, battery: 80, timestamp: ts, status: Status::Yellow }
}

fn stamps(v: &[SensorReading]) -> Vec<u64> {
    v.iter().map(|r| r.timestamp).collect()
}

#[test]
fn default_limit_is_ten_thousand() {
    assert_eq!(default_limit(), 10000);
}

#[test]
fn threshold_is_hours_back_from_now() {
    assert_eq!(history_threshold(1_000_000, 2), 1_000_000 - 7200);
    assert_eq!(history_threshold(100, 0), 100);
    assert_eq!(history_threshold(0, -1), 3600);
    assert_eq!(query_threshold(50_000, Some(1)), Some(46_400));
    assert_eq!(query_threshold(50_000, None), None);
}

#[test]
fn threshold_saturates() {
    assert_eq!(history_threshold(0, i64::MAX), i64::MIN);
    assert_eq!(history_threshold(i64::MAX, i64::MIN), i64::MAX);
    assert_eq!(history_threshold(i64::MIN, 1), i64::MIN);
}

#[test]
fn count_query_is_turned_round() {
    let newest_first = vec![at(30), at(20), at(10)];
    assert_eq!(stamps(&arrange_history(newest_first, None)), vec![10, 20, 30]);
    assert!(arrange_history(Vec::new(), None).is_empty());
}

#[test]
fn window_query_keeps_order() {
    let oldest_first = vec![at(10), at(20), at(30)];
    assert_eq!(stamps(&arrange_history(oldest_first, Some(5))), vec![10, 20, 30]);
}
