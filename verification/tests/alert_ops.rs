use green_gauge::engine::Engine;
use green_gauge::errors::AlertError;
use green_gauge::principal::PrincipalId;
use green_gauge::types::AlertKind;
use green_gauge::types::AlertStatus;
use green_gauge::types::Severity;

fn p(raw: u64) -> PrincipalId {
    PrincipalId { raw }
}

const DAY: u64 = 24 * 60 * 60 * 1_000_000_000;

#[test]
fn sample_thresholds_raise_alerts() {
    let mut e = Engine::new();
    e.register_user(p(1), 0).unwrap();
    // Both thresholds crossed: one high-severity alert.
    e.add_data_point(p(1), "m".to_string(), 1001, 101, 10).unwrap();
    // Energy alone: medium.
    e.add_data_point(p(1), "m".to_string(), 1001, 100, 11).unwrap();
    // Carbon alone: medium.
    e.add_data_point(p(1), "m".to_string(), 1000, 101, 12).unwrap();
    // Neither: nothing.
    e.add_data_point(p(1), "m".to_string(), 1000, 100, 13).unwrap();

    let alerts = e.get_alerts(p(1));
    assert_eq!(alerts.len(), 3);
    assert_eq!(alerts[0].kind, AlertKind::HighConsumptionAndEmission);
    assert_eq!(alerts[0].severity, Severity::High);
    assert_eq!(alerts[0].status, AlertStatus::New);
    assert_eq!(alerts[0].timestamp, 10);
    assert_eq!(alerts[1].kind, AlertKind::HighConsumption);
    assert_eq!(alerts[1].severity, Severity::Medium);
    assert_eq!(alerts[2].kind, AlertKind::HighEmission);
    assert_eq!(alerts[2].severity, Severity::Medium);
}

#[test]
fn alert_kinds_carry_fixed_messages() {
    assert_eq!(
        AlertKind::HighConsumption.message_text(),
        "Warning: high energy consumption".to_string()
    );
    assert_eq!(
        AlertKind::DailyEmissionExceeded.message_text(),
        "Daily carbon emission exceeds the recommended threshold".to_string()
    );
}

#[test]
fn alert_queries_filter_by_owner_and_status() {
    let mut e = Engine::new();
    e.register_user(p(1), 0).unwrap();
    e.register_user(p(2), 0).unwrap();
    let a1 = e.create_alert(p(1), AlertKind::HighEmission, Severity::Medium, 1).unwrap();
    let _a2 = e.create_alert(p(2), AlertKind::HighConsumption, Severity::Medium, 2).unwrap();
    let a3 = e.create_alert(p(1), AlertKind::HighConsumption, Severity::Medium, 3).unwrap();

    assert_eq!(e.get_alerts(p(1)).len(), 2);
    e.update_alert_status(p(1), a1, AlertStatus::Resolved).unwrap();
    let latest = e.get_latest_alerts(p(1));
    assert_eq!(latest.len(), 1);
    assert_eq!(latest[0].id, a3);
    let resolved = e.filter_alerts(p(1), AlertStatus::Resolved);
    assert_eq!(resolved.len(), 1);
    assert_eq!(resolved[0].id, a1);
    assert_eq!(e.filter_alerts(p(2), AlertStatus::New).len(), 1);
}

#[test]
fn status_walk_respects_state_machine() {
    let mut e = Engine::new();
    e.register_user(p(1), 0).unwrap();
    let id = e.create_alert(p(1), AlertKind::HighEmission, Severity::Medium, 1).unwrap();

    // The requested status must be Read or Resolved.
    assert_eq!(e.update_alert_status(p(1), id, AlertStatus::New), Err(AlertError::InvalidStatus));
    // New -> Read -> Resolved walks through.
    assert_eq!(e.update_alert_status(p(1), id, AlertStatus::Read), Ok(id));
    assert_eq!(e.filter_alerts(p(1), AlertStatus::Read).len(), 1);
    // Read -> Read is no listed transition.
    assert_eq!(e.update_alert_status(p(1), id, AlertStatus::Read), Err(AlertError::InvalidStatus));
    assert_eq!(e.update_alert_status(p(1), id, AlertStatus::Resolved), Ok(id));
    // Resolved is terminal.
    assert_eq!(
        e.update_alert_status(p(1), id, AlertStatus::Resolved),
        Err(AlertError::InvalidStatus)
    );
    assert_eq!(e.update_alert_status(p(1), id, AlertStatus::Read), Err(AlertError::InvalidStatus));
}

#[test]
fn foreign_alert_is_not_found_and_unchanged() {
    // Acting on an alert not owned by the caller fails with the
    // not-found/forbidden error and leaves the alert's status unchanged.
    let mut e = Engine::new();
    e.register_user(p(1), 0).unwrap();
    e.register_user(p(2), 0).unwrap();
    let id = e.create_alert(p(1), AlertKind::HighEmission, Severity::Medium, 1).unwrap();

    assert_eq!(
        e.update_alert_status(p(2), id, AlertStatus::Read),
        Err(AlertError::NotFoundOrForbidden)
    );
    assert_eq!(e.remove_alert(p(2), id), Err(AlertError::NotFoundOrForbidden));
    let alerts = e.get_alerts(p(1));
    assert_eq!(alerts.len(), 1);
    assert_eq!(alerts[0].status, AlertStatus::New);
}

#[test]
fn remove_alert_deletes_own_alert() {
    let mut e = Engine::new();
    e.register_user(p(1), 0).unwrap();
    let a1 = e.create_alert(p(1), AlertKind::HighEmission, Severity::Medium, 1).unwrap();
    let a2 = e.create_alert(p(1), AlertKind::HighConsumption, Severity::Medium, 2).unwrap();
    assert_eq!(e.remove_alert(p(1), a1), Ok(a1));
    let alerts = e.get_alerts(p(1));
    assert_eq!(alerts.len(), 1);
    assert_eq!(alerts[0].id, a2);
    assert_eq!(e.remove_alert(p(1), a1), Err(AlertError::NotFoundOrForbidden));
}

#[test]
fn daily_scan_raises_per_threshold() {
    let mut e = Engine::new();
    e.register_user(p(1), 0).unwrap();
    e.register_user(p(2), 0).unwrap();
    e.register_user(p(3), 0).unwrap();
    let now = 5 * DAY;
    // p1: consumption 51 (> 50), carbon 2: one medium alert.
    e.add_data_point(p(1), "m".to_string(), 30, 1, now - 10).unwrap();
    e.add_data_point(p(1), "m".to_string(), 21, 1, now - 5).unwrap();
    // p2: consumption 10, carbon 6 (> 5): one high alert.
    e.add_data_point(p(2), "m".to_string(), 10, 6, now - 7).unwrap();
    // p3: old samples outside the last day count for nothing.
    e.add_data_point(p(3), "m".to_string(), 500, 500, now - DAY - 1).unwrap();

    let raised = e.generate_alerts(now).unwrap();
    assert_eq!(raised, 2);
    let first = e.get_alerts(p(1));
    // p3's old sample raised a per-sample alert at submission; the scan
    // added nothing for it.
    let scan_alerts_p1: Vec<_> = first
        .iter()
        .filter(|a| a.kind == AlertKind::DailyConsumptionExceeded)
        .collect();
    assert_eq!(scan_alerts_p1.len(), 1);
    assert_eq!(scan_alerts_p1[0].severity, Severity::Medium);
    assert_eq!(scan_alerts_p1[0].timestamp, now);
    let second = e.get_alerts(p(2));
    let scan_alerts_p2: Vec<_> = second
        .iter()
        .filter(|a| a.kind == AlertKind::DailyEmissionExceeded)
        .collect();
    assert_eq!(scan_alerts_p2.len(), 1);
    assert_eq!(scan_alerts_p2[0].severity, Severity::High);
    assert_eq!(e.get_alerts(p(3)).iter().filter(|a| a.timestamp == now).count(), 0);
}

#[test]
fn daily_scan_can_raise_two_for_one_user() {
    let mut e = Engine::new();
    e.register_user(p(1), 0).unwrap();
    let now = 5 * DAY;
    e.add_data_point(p(1), "m".to_string(), 60, 10, now - 1).unwrap();
    let raised = e.generate_alerts(now).unwrap();
    assert_eq!(raised, 2);
    let kinds: Vec<AlertKind> = e
        .get_alerts(p(1))
        .iter()
        .filter(|a| a.timestamp == now)
        .map(|a| a.kind)
        .collect();
    assert_eq!(kinds, vec![AlertKind::DailyConsumptionExceeded, AlertKind::DailyEmissionExceeded]);
}
