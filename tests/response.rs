use fuel_canary_watchtower::message::{push_decimal, push_signed, render};
use fuel_canary_watchtower::backoff::backoff_delay;
use fuel_canary_watchtower::dispatcher::{Delivery, FanOut, RateLimiter};
use fuel_canary_watchtower::event::{Event, EventKind, HealthState, IdempotencyKey, Severity};
use fuel_canary_watchtower::responder::{
    Admission, AttemptStatus, ConfirmStep, Responder, ResponsePolicy, SubmitOutcome, SubmitStep,
    TxStatus,
};

fn policy() -> ResponsePolicy {
    ResponsePolicy { cooldown: 300, max_retries: 2, backoff_base: 5, backoff_cap: 60, confirm_timeout: 120 }
}

fn breach(check_id: u64, t: u64) -> Event {
    let key = IdempotencyKey { check_id, kind: EventKind::Breached, bucket: t / 60 };
    Event {
        check_id,
        kind: EventKind::Breached,
        previous: HealthState::Breaching,
        current: HealthState::Breached,
        severity: Severity::Critical,
        value: Some(1),
        timestamp: t,
        key,
    }
}

#[test]
fn same_key_while_pending_submits_once() {
    let mut r = Responder::new(policy());
    let e = breach(1, 10);
    assert_eq!(r.decide(&e, 9, 10), Admission::Submit);
    assert_eq!(r.decide(&e, 9, 11), Admission::Duplicate);
    assert_eq!(r.on_submit_result(e.key, SubmitOutcome::Accepted(77), 12), SubmitStep::AwaitConfirmation);
    assert_eq!(r.decide(&e, 9, 500), Admission::Duplicate);
    assert_eq!(r.attempts.len(), 1);
    assert_eq!(r.attempts[0].tx_ref, Some(77));
    assert_eq!(r.attempts[0].status, AttemptStatus::Pending);
}

#[test]
fn cooldown_withholds_second_check() {
    let mut r = Responder::new(policy());
    let a = breach(1, 10);
    let b = breach(2, 20);
    assert_eq!(r.decide(&a, 9, 10), Admission::Submit);
    match r.decide(&b, 8, 20) {
        Admission::Cooldown(ev) => {
            assert_eq!(ev.kind, EventKind::ActionSuppressed);
            assert_eq!(ev.severity, Severity::Critical);
            assert_eq!(ev.check_id, 2);
            assert_eq!(ev.timestamp, 20);
        }
        other => panic!("expected cooldown, got {:?}", other),
    }
    assert_eq!(r.attempts.len(), 1);
    assert_eq!(r.decide(&b, 8, 310), Admission::Submit);
    assert_eq!(r.attempts.len(), 2);
}

#[test]
fn transient_failures_retry_then_fail() {
    let mut r = Responder::new(policy());
    let e = breach(1, 0);
    assert_eq!(r.decide(&e, 9, 0), Admission::Submit);
    assert_eq!(r.on_submit_result(e.key, SubmitOutcome::Transient, 1), SubmitStep::RetryAfter(5));
    assert_eq!(r.on_submit_result(e.key, SubmitOutcome::Transient, 2), SubmitStep::RetryAfter(10));
    match r.on_submit_result(e.key, SubmitOutcome::Transient, 3) {
        SubmitStep::Abandoned(ev) => {
            assert_eq!(ev.kind, EventKind::ActionFailed);
            assert_eq!(ev.severity, Severity::Critical);
        }
        other => panic!("expected abandon, got {:?}", other),
    }
    assert_eq!(r.attempts[0].status, AttemptStatus::Failed);
    assert_eq!(r.on_submit_result(e.key, SubmitOutcome::Transient, 4), SubmitStep::Ignored);
    assert_eq!(r.decide(&e, 9, 400), Admission::Submit);
    assert_eq!(r.attempts.len(), 1);
    assert_eq!(r.attempts[0].retries, 0);
}

#[test]
fn rejection_fails_at_once() {
    let mut r = Responder::new(policy());
    let e = breach(1, 0);
    r.decide(&e, 9, 0);
    assert!(matches!(r.on_submit_result(e.key, SubmitOutcome::Rejected, 1), SubmitStep::Abandoned(_)));
}

#[test]
fn confirmation_and_timeout() {
    let mut r = Responder::new(policy());
    let a = breach(1, 0);
    let b = breach(2, 0);
    r.decide(&a, 9, 0);
    r.on_submit_result(a.key, SubmitOutcome::Accepted(1), 0);
    assert_eq!(r.on_status(a.key, TxStatus::Pending, 60), ConfirmStep::KeepPolling);
    match r.on_status(a.key, TxStatus::Confirmed, 70) {
        ConfirmStep::Done(ev) => {
            assert_eq!(ev.kind, EventKind::ActionConfirmed);
            assert_eq!(ev.severity, Severity::Info);
        }
        other => panic!("expected done, got {:?}", other),
    }
    assert_eq!(r.attempts[0].status, AttemptStatus::Confirmed);
    assert_eq!(r.decide(&a, 9, 1000), Admission::Duplicate);
    assert_eq!(r.decide(&b, 9, 1000), Admission::Submit);
    r.on_submit_result(b.key, SubmitOutcome::Accepted(2), 1000);
    match r.on_status(b.key, TxStatus::Pending, 1120) {
        ConfirmStep::Done(ev) => assert_eq!(ev.kind, EventKind::ActionUnconfirmed),
        other => panic!("expected timeout, got {:?}", other),
    }
    assert_eq!(r.on_status(b.key, TxStatus::Confirmed, 1130), ConfirmStep::Ignored);
}

#[test]
fn backoff_doubles_up_to_cap() {
    assert_eq!(backoff_delay(5, 0, 60), 5);
    assert_eq!(backoff_delay(5, 1, 60), 10);
    assert_eq!(backoff_delay(5, 3, 60), 40);
    assert_eq!(backoff_delay(5, 4, 60), 60);
    assert_eq!(backoff_delay(u64::MAX, 30, u64::MAX), u64::MAX);
    assert_eq!(backoff_delay(1, 63, u64::MAX), 1u64 << 63);
}

#[test]
fn one_failing_channel_of_three() {
    let mut f = FanOut::new(3);
    f.record_round(&vec![true, false, true], 3);
    assert_eq!(f.channels, vec![Delivery::Delivered, Delivery::Waiting(1), Delivery::Delivered]);
    assert_eq!(f.waiting(), vec![1]);
    assert_eq!(f.retry_delay(1, 2, 100), Some(4));
    assert_eq!(f.retry_delay(0, 2, 100), None);
    f.record(1, false, 3);
    assert!(!f.is_settled());
    f.record(1, false, 3);
    assert_eq!(f.channels[1], Delivery::GaveUp);
    assert!(f.is_settled());
    f.record(9, true, 3);
    assert_eq!(f.channels, vec![Delivery::Delivered, Delivery::GaveUp, Delivery::Delivered]);
}

#[test]
fn rate_limit_per_window() {
    let mut l = RateLimiter::new(60, 2, 0);
    assert!(l.try_acquire(1));
    assert!(l.try_acquire(2));
    assert!(!l.try_acquire(3));
    assert!(l.try_acquire(60));
    assert_eq!(l.window_start, 60);
    assert_eq!(l.sent, 1);
}

#[test]
fn renders_notification_text() {
    let e = Event { value: Some(-750), timestamp: 1_700_000_030, ..breach(7, 30) };
    assert_eq!(
        render("bridge-balance", &e),
        "CRITICAL bridge-balance: breached (breaching -> breached), value -750, at 1700000030"
    );
    let stale = Event {
        kind: EventKind::DataStale,
        severity: Severity::Warning,
        previous: HealthState::Healthy,
        current: HealthState::Healthy,
        value: None,
        timestamp: 0,
        ..e
    };
    assert_eq!(render("x", &stale), "WARNING x: data stale (healthy -> healthy), value none, at 0");
    let mut s = String::from("n=");
    push_decimal(&mut s, u64::MAX);
    assert_eq!(s, "n=18446744073709551615");
    let mut s = String::new();
    push_signed(&mut s, i64::MIN);
    assert_eq!(s, "-9223372036854775808");
}
