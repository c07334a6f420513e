use green_gauge::engine::Engine;
use green_gauge::errors::TelemetryError;
use green_gauge::principal::PrincipalId;

fn p(raw: u64) -> PrincipalId {
    PrincipalId { raw }
}

const DAY: u64 = 24 * 60 * 60 * 1_000_000_000;

#[test]
fn add_data_point_validations() {
    let mut e = Engine::new();
    assert_eq!(e.add_data_point(p(1), "m0".to_string(), -1, 5, 0), Err(TelemetryError::NegativeValue));
    assert_eq!(e.add_data_point(p(1), "m0".to_string(), 5, -1, 0), Err(TelemetryError::NegativeValue));
    assert_eq!(e.add_data_point(p(1), "m0".to_string(), 5, 5, 0), Err(TelemetryError::NotFound));
}

#[test]
fn add_data_point_records_and_updates_account() {
    let mut e = Engine::new();
    e.register_user(p(1), 0).unwrap();
    let id = e.add_data_point(p(1), "meter-a".to_string(), 12, 7, 50).unwrap();
    assert_eq!(id, 0);
    let points = e.get_all_data(p(1));
    assert_eq!(points.len(), 1);
    assert_eq!(points[0].device_id, "meter-a".to_string());
    assert_eq!(points[0].energy_consumption, 12);
    assert_eq!(points[0].carbon_emitted, 7);
    assert_eq!(points[0].timestamp, 50);
    let profile = e.get_user_profile(p(1)).unwrap();
    assert_eq!(profile.carbon_emitted, 7);
    assert_eq!(profile.last_activity, 50);
}

#[test]
fn add_data_point_bypasses_allowance_check() {
    // The telemetry path adds carbon without the allowance check that
    // record_emission enforces; the cumulative emission may pass the
    // allowance here.
    let mut e = Engine::new();
    e.register_user(p(1), 0).unwrap();
    e.add_data_point(p(1), "m".to_string(), 0, 1500, 1).unwrap();
    let profile = e.get_user_profile(p(1)).unwrap();
    assert_eq!(profile.carbon_emitted, 1500);
    assert_eq!(profile.carbon_allowance, 1000);
}

#[test]
fn three_records_grow_history_in_order() {
    // Each call appends exactly one emission point, in submission order.
    let mut e = Engine::new();
    e.register_user(p(1), 0).unwrap();
    e.add_data_point(p(1), "m".to_string(), 1, 10, 100).unwrap();
    assert_eq!(e.get_emission_history(p(1), 0, u64::MAX).len(), 1);
    e.add_data_point(p(1), "m".to_string(), 2, 20, 200).unwrap();
    assert_eq!(e.get_emission_history(p(1), 0, u64::MAX).len(), 2);
    e.add_data_point(p(1), "m".to_string(), 3, 30, 300).unwrap();
    let history = e.get_emission_history(p(1), 0, u64::MAX);
    assert_eq!(history.len(), 3);
    assert_eq!((history[0].timestamp, history[0].amount), (100, 10));
    assert_eq!((history[1].timestamp, history[1].amount), (200, 20));
    assert_eq!((history[2].timestamp, history[2].amount), (300, 30));
}

#[test]
fn get_all_data_filters_by_user() {
    let mut e = Engine::new();
    e.register_user(p(1), 0).unwrap();
    e.register_user(p(2), 0).unwrap();
    e.add_data_point(p(1), "a".to_string(), 1, 1, 1).unwrap();
    e.add_data_point(p(2), "b".to_string(), 2, 2, 2).unwrap();
    e.add_data_point(p(1), "c".to_string(), 3, 3, 3).unwrap();
    let mine = e.get_all_data(p(1));
    assert_eq!(mine.len(), 2);
    assert_eq!(mine[0].device_id, "a".to_string());
    assert_eq!(mine[1].device_id, "c".to_string());
}

#[test]
fn emission_history_range_bounds_inclusive() {
    let mut e = Engine::new();
    e.register_user(p(1), 0).unwrap();
    e.add_data_point(p(1), "m".to_string(), 0, 1, 100).unwrap();
    e.add_data_point(p(1), "m".to_string(), 0, 2, 200).unwrap();
    e.add_data_point(p(1), "m".to_string(), 0, 3, 300).unwrap();
    let slice = e.get_emission_history(p(1), 100, 200);
    assert_eq!(slice.len(), 2);
    assert_eq!(slice[0].amount, 1);
    assert_eq!(slice[1].amount, 2);
    assert_eq!(e.get_emission_history(p(1), 101, 199).len(), 0);
    assert_eq!(e.get_emission_history(p(9), 0, u64::MAX).len(), 0);
}

#[test]
fn token_history_range_bounds_inclusive() {
    let mut e = Engine::new();
    e.register_user(p(1), 10).unwrap();
    e.reward_tokens(p(1), 5, 20).unwrap();
    e.reward_tokens(p(1), 5, 30).unwrap();
    let slice = e.get_token_balance_history(p(1), 10, 20);
    assert_eq!(slice.len(), 2);
    assert_eq!(slice[0].balance, 100);
    assert_eq!(slice[1].balance, 105);
    assert_eq!(e.get_token_balance_history(p(9), 0, u64::MAX).len(), 0);
}

#[test]
fn efficiency_metrics_group_by_day_sorted() {
    let mut e = Engine::new();
    e.register_user(p(1), 0).unwrap();
    let now = 10 * DAY;
    // Two samples on day 8, one on day 9, one foreign, one out of window.
    e.add_data_point(p(1), "m".to_string(), 120, 30, 8 * DAY + 5).unwrap();
    e.add_data_point(p(1), "m".to_string(), 80, 20, 8 * DAY + 9).unwrap();
    e.add_data_point(p(1), "m".to_string(), 40, 50, 9 * DAY + 1).unwrap();
    e.register_user(p(2), 0).unwrap();
    e.add_data_point(p(2), "m".to_string(), 999, 999, 9 * DAY + 2).unwrap();
    e.add_data_point(p(1), "m".to_string(), 7, 7, DAY).unwrap();

    let metrics = e.get_efficiency_metrics(p(1), 7, now);
    assert_eq!(metrics.len(), 2);
    assert_eq!(metrics[0].day, 8);
    assert_eq!(metrics[0].consumption, 200);
    assert_eq!(metrics[0].carbon_emitted, 50);
    // score = 100 * (200 - 50) / 200 = 75.
    assert_eq!(metrics[0].efficiency_score, 75);
    assert_eq!(metrics[1].day, 9);
    assert_eq!(metrics[1].consumption, 40);
    assert_eq!(metrics[1].carbon_emitted, 50);
    // Carbon above consumption floors the score at zero.
    assert_eq!(metrics[1].efficiency_score, 0);
}

#[test]
fn efficiency_metrics_zero_consumption_scores_zero() {
    let mut e = Engine::new();
    e.register_user(p(1), 0).unwrap();
    e.add_data_point(p(1), "m".to_string(), 0, 5, 2 * DAY).unwrap();
    let metrics = e.get_efficiency_metrics(p(1), 7, 3 * DAY);
    assert_eq!(metrics.len(), 1);
    assert_eq!(metrics[0].consumption, 0);
    assert_eq!(metrics[0].efficiency_score, 0);
}

#[test]
fn efficiency_metrics_empty_without_samples() {
    let mut e = Engine::new();
    e.register_user(p(1), 0).unwrap();
    assert_eq!(e.get_efficiency_metrics(p(1), 7, 10 * DAY).len(), 0);
}
