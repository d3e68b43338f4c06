use fuel_canary_watchtower::check::{Check, CheckState, Comparison, Phase};
use fuel_canary_watchtower::event::{idempotency_key, EventKind, HealthState, IdempotencyKey, Severity};

fn bridge_balance() -> Check {
    Check {
        id: 7,
        name: String::from("bridge-balance"),
        comparison: Comparison::Below,
        threshold: 1000,
        interval: 10,
        breach_confirmations: 3,
        recovery_confirmations: 3,
        stale_intervals: 3,
        severity: Severity::Critical,
        action: Some(1),
        key_window: 60,
    }
}

fn with_confirmations(n: u64) -> Check {
    Check { breach_confirmations: n, ..bridge_balance() }
}

#[test]
fn bridge_balance_breach_and_recovery_start() {
    let check = bridge_balance();
    let mut st = CheckState::new(0);
    let readings = [1200i64, 800, 750, 700, 1200];
    let mut events = Vec::new();
    for (i, v) in readings.iter().enumerate() {
        let t = (i as u64) * 10;
        let r = st.on_poll(&check, Some(*v), t);
        assert!(r.freshness.is_none());
        if let Some(e) = r.transition {
            events.push(e);
        }
        match t {
            0 => assert_eq!(st.phase, Phase::Healthy),
            10 => assert_eq!(st.phase, Phase::Breaching(1)),
            20 => assert_eq!(st.phase, Phase::Breaching(2)),
            30 => assert_eq!(st.phase, Phase::Breached),
            _ => assert_eq!(st.phase, Phase::Recovering(1)),
        }
    }
    assert_eq!(events.len(), 1);
    let e = events[0];
    assert_eq!(e.kind, EventKind::Breached);
    assert_eq!(e.timestamp, 30);
    assert_eq!(e.severity, Severity::Critical);
    assert_eq!(e.previous, HealthState::Breaching);
    assert_eq!(e.current, HealthState::Breached);
    assert_eq!(e.value, Some(700));
    assert_eq!(e.check_id, 7);
    assert_eq!(e.key, IdempotencyKey { check_id: 7, kind: EventKind::Breached, bucket: 0 });
    assert_eq!(st.last_transition, 40);
}

#[test]
fn isolated_spike_never_breaches() {
    for n in 2u64..6 {
        let check = with_confirmations(n);
        let mut st = CheckState::new(0);
        let r = st.on_poll(&check, Some(10), 0);
        assert!(r.transition.is_none());
        assert_eq!(st.phase, Phase::Breaching(1));
        for t in 1u64..20 {
            let r = st.on_poll(&check, Some(5000), t * 10);
            assert!(r.transition.is_none());
            assert_eq!(st.phase, Phase::Healthy);
        }
    }
}

#[test]
fn exactly_n_readings_confirm_breach() {
    for n in 1u64..8 {
        let check = with_confirmations(n);
        let mut st = CheckState::new(0);
        let mut count = 0;
        for t in 0..n {
            assert_ne!(st.phase, Phase::Breached);
            if st.on_poll(&check, Some(1), t * 10).transition.is_some() {
                count += 1;
            }
        }
        assert_eq!(st.phase, Phase::Breached);
        assert_eq!(count, 1);
        for t in n..n + 5 {
            assert!(st.on_poll(&check, Some(1), t * 10).transition.is_none());
            assert_eq!(st.phase, Phase::Breached);
        }
    }
}

#[test]
fn recovery_confirms_once_and_relapse_is_silent() {
    let check = bridge_balance();
    let mut st = CheckState::new(0);
    for t in 0..3u64 {
        st.on_poll(&check, Some(1), t);
    }
    assert_eq!(st.phase, Phase::Breached);
    assert!(st.on_poll(&check, Some(2000), 3).transition.is_none());
    assert_eq!(st.phase, Phase::Recovering(1));
    assert!(st.on_poll(&check, Some(1), 4).transition.is_none());
    assert_eq!(st.phase, Phase::Breached);
    assert!(st.on_poll(&check, Some(2000), 5).transition.is_none());
    assert!(st.on_poll(&check, Some(2000), 6).transition.is_none());
    let r = st.on_poll(&check, Some(2000), 7);
    let e = r.transition.unwrap();
    assert_eq!(e.kind, EventKind::Recovered);
    assert_eq!(e.severity, Severity::Info);
    assert_eq!(e.previous, HealthState::Recovering);
    assert_eq!(e.current, HealthState::Healthy);
    assert_eq!(st.phase, Phase::Healthy);
}

#[test]
fn stale_after_repeated_failures_then_cleared() {
    let check = bridge_balance();
    let mut st = CheckState::new(0);
    st.on_poll(&check, Some(1), 0);
    assert_eq!(st.phase, Phase::Breaching(1));
    let mut stale_events = Vec::new();
    for i in 1..=5u64 {
        let r = st.on_poll(&check, None, i * 10);
        assert!(r.transition.is_none());
        assert_eq!(st.phase, Phase::Breaching(1));
        if let Some(e) = r.freshness {
            stale_events.push(e);
        }
    }
    assert_eq!(stale_events.len(), 1);
    assert_eq!(stale_events[0].kind, EventKind::DataStale);
    assert_eq!(stale_events[0].severity, Severity::Warning);
    assert_eq!(stale_events[0].timestamp, 30);
    assert!(st.stale);
    let r = st.on_poll(&check, Some(5000), 60);
    let cleared = r.freshness.unwrap();
    assert_eq!(cleared.kind, EventKind::StaleCleared);
    assert_eq!(cleared.severity, Severity::Info);
    assert!(!st.stale);
    assert_eq!(st.last_success, 60);
    assert_eq!(st.phase, Phase::Healthy);
    assert!(st.on_poll(&check, Some(5000), 70).freshness.is_none());
}

#[test]
fn comparisons_decide_breach() {
    let mut c = bridge_balance();
    assert!(c.is_breach(999));
    assert!(!c.is_breach(1000));
    c.comparison = Comparison::AtMost;
    assert!(c.is_breach(1000));
    c.comparison = Comparison::Above;
    assert!(c.is_breach(1001));
    assert!(!c.is_breach(1000));
    c.comparison = Comparison::AtLeast;
    assert!(c.is_breach(1000));
    assert!(!c.is_breach(-5));
}

#[test]
fn check_validity() {
    assert!(bridge_balance().is_valid());
    assert!(!with_confirmations(0).is_valid());
    assert!(!Check { interval: 0, ..bridge_balance() }.is_valid());
    assert!(!Check { key_window: 0, ..bridge_balance() }.is_valid());
}

#[test]
fn idempotency_keys_bucket_time() {
    let a = idempotency_key(3, EventKind::Breached, 59, 60);
    let b = idempotency_key(3, EventKind::Breached, 0, 60);
    let c = idempotency_key(3, EventKind::Breached, 60, 60);
    let d = idempotency_key(4, EventKind::Breached, 0, 60);
    let e = idempotency_key(3, EventKind::Recovered, 0, 60);
    assert_eq!(a, b);
    assert_ne!(a, c);
    assert_eq!(c.bucket, 1);
    assert_ne!(b, d);
    assert_ne!(b, e);
}

#[test]
fn severity_order() {
    assert!(Severity::Critical.at_least(Severity::Warning));
    assert!(Severity::Warning.at_least(Severity::Warning));
    assert!(!Severity::Info.at_least(Severity::Warning));
    assert_eq!(Severity::Critical.rank(), 2);
}
