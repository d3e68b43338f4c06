use fuel_canary_watchtower::check::{Check, Comparison};
use fuel_canary_watchtower::event::{Event, EventKind, HealthState, IdempotencyKey, Severity};
use fuel_canary_watchtower::orchestrator::{
    build_transaction, connectivity, find_action, route, shutdown_step, validate_checks,
    BootstrapError, ConfigError, MitigationAction, ShutdownStep,
};

fn check(id: u64) -> Check {
    Check {
        id,
        name: format!("check-{}", id),
        comparison: Comparison::Above,
        threshold: 100,
        interval: 5,
        breach_confirmations: 2,
        recovery_confirmations: 2,
        stale_intervals: 4,
        severity: Severity::Critical,
        action: Some(11),
        key_window: 30,
    }
}

fn event(kind: EventKind, severity: Severity) -> Event {
    Event {
        check_id: 1,
        kind,
        previous: HealthState::Breaching,
        current: HealthState::Breached,
        severity,
        value: Some(500),
        timestamp: 10,
        key: IdempotencyKey { check_id: 1, kind, bucket: 0 },
    }
}

#[test]
fn routes_only_confirmed_breaches_to_responder() {
    let c = check(1);
    let r = route(&event(EventKind::Breached, Severity::Critical), &c, Severity::Critical);
    assert!(r.notify);
    assert_eq!(r.action, Some(11));
    let r = route(&event(EventKind::Breached, Severity::Warning), &c, Severity::Critical);
    assert_eq!(r.action, None);
    let r = route(&event(EventKind::Recovered, Severity::Critical), &c, Severity::Info);
    assert_eq!(r.action, None);
    let no_action = Check { action: None, ..check(1) };
    assert_eq!(route(&event(EventKind::Breached, Severity::Critical), &no_action, Severity::Info).action, None);
}

#[test]
fn validates_configuration() {
    assert_eq!(validate_checks(&vec![]), Err(ConfigError::NoChecks));
    assert_eq!(validate_checks(&vec![check(1), check(2)]), Ok(()));
    assert_eq!(validate_checks(&vec![check(1), check(2), check(1)]), Err(ConfigError::DuplicateId(1)));
    let bad = Check { interval: 0, ..check(5) };
    assert_eq!(validate_checks(&vec![check(1), bad]), Err(ConfigError::InvalidCheck(5)));
}

#[test]
fn bootstrap_needs_one_reachable_client() {
    assert_eq!(connectivity(&vec![false, false]), Err(BootstrapError::NoReachableClient));
    assert_eq!(connectivity(&vec![]), Err(BootstrapError::NoReachableClient));
    assert_eq!(connectivity(&vec![false, true]), Ok(()));
}

#[test]
fn shutdown_waits_until_idle_or_deadline() {
    assert_eq!(shutdown_step(10, 20, 2), ShutdownStep::Wait);
    assert_eq!(shutdown_step(10, 20, 0), ShutdownStep::Exit);
    assert_eq!(shutdown_step(20, 20, 3), ShutdownStep::Exit);
}

#[test]
fn builds_transaction_from_action() {
    let actions = vec![
        MitigationAction { id: 3, target: vec![1, 2], payload: vec![9], signer: 4 },
        MitigationAction { id: 11, target: vec![0xab, 0xcd], payload: vec![0x01, 0x02, 0x03], signer: 5 },
    ];
    assert_eq!(find_action(&actions, 12), None);
    let i = find_action(&actions, 11).unwrap();
    assert_eq!(i, 1);
    let key = IdempotencyKey { check_id: 1, kind: EventKind::Breached, bucket: 2 };
    let tx = build_transaction(&actions[i], key);
    assert_eq!(tx.action_id, 11);
    assert_eq!(tx.target, vec![0xab, 0xcd]);
    assert_eq!(tx.payload, vec![0x01, 0x02, 0x03]);
    assert_eq!(tx.signer, 5);
    assert_eq!(tx.key, key);
}
