use vstd::prelude::*;

use crate::backoff::{backoff_delay, backoff_spec};
use crate::check::elapsed;
use crate::event::{Event, EventKind, HealthState, IdempotencyKey, Severity};

verus! {

/// Where one mitigation submission stands.
#[derive(Clone, Copy, Debug, PartialEq, Eq, Structural)]
pub enum AttemptStatus {
    /// Being submitted, or submitted and awaiting confirmation.
    Pending,
    Confirmed,
    Failed,
}

/// The record of one mitigation submission.
#[derive(Clone, Copy, Debug, PartialEq, Eq, Structural)]
pub struct ActionAttempt {
    pub key: IdempotencyKey,
    pub action_id: u64,
    pub submitted_at: u64,
    /// The transaction reference, once the chain accepted the submission.
    pub tx_ref: Option<u64>,
    pub status: AttemptStatus,
    /// Transient submission failures retried so far.
    pub retries: u32,
}

/// The safety rails of the responder.
#[derive(Clone, Copy, Debug, PartialEq, Eq, Structural)]
pub struct ResponsePolicy {
    /// Minimum seconds between two submissions, across all actions.
    pub cooldown: u64,
    /// Transient submission failures retried before giving up.
    pub max_retries: u32,
    pub backoff_base: u64,
    pub backoff_cap: u64,
    /// Seconds a submitted transaction may stay unconfirmed.
    pub confirm_timeout: u64,
}

/// What the responder decided about an actionable event.
#[derive(Clone, Copy, Debug, PartialEq, Eq, Structural)]
pub enum Admission {
    /// Build, sign and submit the transaction now.
    Submit,
    /// An attempt with the same key is pending or confirmed: dropped.
    Duplicate,
    /// Withheld by the cooldown; the event escalates this to operators.
    Cooldown(Event),
}

/// How a submission to the chain came back.
#[derive(Clone, Copy, Debug, PartialEq, Eq, Structural)]
pub enum SubmitOutcome {
    /// Accepted, with its transaction reference.
    Accepted(u64),
    /// Network or timeout failure: worth retrying.
    Transient,
    /// Refused for good.
    Rejected,
}

/// What to do after a submission came back.
#[derive(Clone, Copy, Debug, PartialEq, Eq, Structural)]
pub enum SubmitStep {
    /// Poll the transaction's status until it settles.
    AwaitConfirmation,
    /// Submit again after this many seconds.
    RetryAfter(u64),
    /// Given up; the event asks for human intervention.
    Abandoned(Event),
    /// No attempt with that key is being submitted.
    Ignored,
}

/// The status of a submitted transaction as the chain reports it.
#[derive(Clone, Copy, Debug, PartialEq, Eq, Structural)]
pub enum TxStatus {
    Confirmed,
    Pending,
    Failed,
}

/// What to do after a status poll.
#[derive(Clone, Copy, Debug, PartialEq, Eq, Structural)]
pub enum ConfirmStep {
    KeepPolling,
    /// Settled; the event reports how.
    Done(Event),
    /// No attempt with that key awaits confirmation.
    Ignored,
}

/// An attempt that still blocks another submission under its key.
pub open spec fn is_live(a: ActionAttempt) -> bool {
    a.status is Pending || a.status is Confirmed
}

pub open spec fn has_key(s: Seq<ActionAttempt>, k: IdempotencyKey) -> bool {
    exists|i: int| 0 <= i < s.len() && (#[trigger] s[i]).key == k
}

pub open spec fn has_live(s: Seq<ActionAttempt>, k: IdempotencyKey) -> bool {
    exists|i: int| 0 <= i < s.len() && (#[trigger] s[i]).key == k && is_live(s[i])
}

/// How many attempts carry key `k`.
pub open spec fn count_key(s: Seq<ActionAttempt>, k: IdempotencyKey) -> nat
    decreases s.len(),
{
    if s.len() == 0 {
        0
    } else {
        count_key(s.drop_last(), k) + if s.last().key == k {
            1nat
        } else {
            0nat
        }
    }
}

pub open spec fn keys_unique(s: Seq<ActionAttempt>) -> bool {
    forall|i: int, j: int| 0 <= i < j < s.len() ==> s[i].key != s[j].key
}

/// `s` with the attempt under `a.key` replaced by `a`, or `a` added.
pub open spec fn put_attempt(s: Seq<ActionAttempt>, a: ActionAttempt) -> Seq<ActionAttempt> {
    if has_key(s, a.key) {
        s.map_values(|x: ActionAttempt| if x.key == a.key { a } else { x })
    } else {
        s.push(a)
    }
}

/// Whether a submission at `now` falls within the cooldown of the last one.
pub open spec fn cooling(last: Option<u64>, cooldown: u64, now: u64) -> bool {
    match last {
        Some(t) => elapsed(now, t) < cooldown,
        None => false,
    }
}

/// An event the responder raises about the action under key `k`.
pub open spec fn action_event(k: IdempotencyKey, kind: EventKind, severity: Severity, now: u64) -> Event {
    Event {
        check_id: k.check_id,
        kind,
        previous: HealthState::Breached,
        current: HealthState::Breached,
        severity,
        value: None,
        timestamp: now,
        key: IdempotencyKey { kind, ..k },
    }
}

fn make_action_event(k: IdempotencyKey, kind: EventKind, severity: Severity, now: u64) -> (r: Event)
    ensures
        r == action_event(k, kind, severity, now),
{
    Event {
        check_id: k.check_id,
        kind,
        previous: HealthState::Breached,
        current: HealthState::Breached,
        severity,
        value: None,
        timestamp: now,
        key: IdempotencyKey { kind, ..k },
    }
}

/// The state of the responder, in mathematical terms.
pub struct ResponderModel {
    pub attempts: Seq<ActionAttempt>,
    pub last_submission: Option<u64>,
}

/// The escalation raised when the cooldown withholds the action for `event`.
pub open spec fn suppressed_event(event: Event, now: u64) -> Event {
    Event {
        check_id: event.check_id,
        kind: EventKind::ActionSuppressed,
        previous: event.previous,
        current: event.current,
        severity: Severity::Critical,
        value: event.value,
        timestamp: now,
        key: IdempotencyKey { kind: EventKind::ActionSuppressed, ..event.key },
    }
}

/// The decision on an actionable event, and the state after it.
pub open spec fn decision_spec(
    r: ResponderModel,
    cooldown: u64,
    event: Event,
    action_id: u64,
    now: u64,
) -> (ResponderModel, Admission) {
    if has_live(r.attempts, event.key) {
        (r, Admission::Duplicate)
    } else if cooling(r.last_submission, cooldown, now) {
        (r, Admission::Cooldown(suppressed_event(event, now)))
    } else {
        let fresh = ActionAttempt {
            key: event.key,
            action_id,
            submitted_at: now,
            tx_ref: None,
            status: AttemptStatus::Pending,
            retries: 0,
        };
        (
            ResponderModel { attempts: put_attempt(r.attempts, fresh), last_submission: Some(now) },
            Admission::Submit,
        )
    }
}

/// Whether the attempt under `k` is pending with no transaction yet.
pub open spec fn submitting(s: Seq<ActionAttempt>, k: IdempotencyKey) -> bool {
    exists|i: int|
        0 <= i < s.len() && (#[trigger] s[i]).key == k && s[i].status is Pending && s[i].tx_ref
            is None
}

/// Whether the attempt under `k` is pending with a transaction to confirm.
pub open spec fn confirming(s: Seq<ActionAttempt>, k: IdempotencyKey) -> bool {
    exists|i: int|
        0 <= i < s.len() && (#[trigger] s[i]).key == k && s[i].status is Pending && s[i].tx_ref
            is Some
}

/// The attempt with key `k`, where there is one.
pub open spec fn attempt_of(s: Seq<ActionAttempt>, k: IdempotencyKey) -> ActionAttempt
    recommends
        has_key(s, k),
{
    let i = choose|i: int| 0 <= i < s.len() && (#[trigger] s[i]).key == k;
    s[i]
}

/// The state and next step after a submission under `k` came back.
pub open spec fn submit_result_spec(
    r: ResponderModel,
    policy: ResponsePolicy,
    k: IdempotencyKey,
    outcome: SubmitOutcome,
    now: u64,
) -> (ResponderModel, SubmitStep) {
    if !submitting(r.attempts, k) {
        (r, SubmitStep::Ignored)
    } else {
        let a = attempt_of(r.attempts, k);
        match outcome {
            SubmitOutcome::Accepted(tx) => (
                ResponderModel {
                    attempts: put_attempt(
                        r.attempts,
                        ActionAttempt { tx_ref: Some(tx), submitted_at: now, ..a },
                    ),
                    ..r
                },
                SubmitStep::AwaitConfirmation,
            ),
            SubmitOutcome::Transient if a.retries < policy.max_retries => (
                ResponderModel {
                    attempts: put_attempt(
                        r.attempts,
                        ActionAttempt { retries: (a.retries + 1) as u32, ..a },
                    ),
                    ..r
                },
                SubmitStep::RetryAfter(
                    backoff_spec(policy.backoff_base, a.retries, policy.backoff_cap) as u64,
                ),
            ),
            _ => (
                ResponderModel {
                    attempts: put_attempt(
                        r.attempts,
                        ActionAttempt { status: AttemptStatus::Failed, ..a },
                    ),
                    ..r
                },
                SubmitStep::Abandoned(
                    action_event(k, EventKind::ActionFailed, Severity::Critical, now),
                ),
            ),
        }
    }
}

/// The state and next step after a status poll of the transaction under `k`.
pub open spec fn status_spec(
    r: ResponderModel,
    policy: ResponsePolicy,
    k: IdempotencyKey,
    status: TxStatus,
    now: u64,
) -> (ResponderModel, ConfirmStep) {
    if !confirming(r.attempts, k) {
        (r, ConfirmStep::Ignored)
    } else {
        let a = attempt_of(r.attempts, k);
        let settle = |st: AttemptStatus, kind: EventKind, sev: Severity|
            (
                ResponderModel {
                    attempts: put_attempt(r.attempts, ActionAttempt { status: st, ..a }),
                    ..r
                },
                ConfirmStep::Done(action_event(k, kind, sev, now)),
            );
        match status {
            TxStatus::Confirmed => settle(
                AttemptStatus::Confirmed,
                EventKind::ActionConfirmed,
                Severity::Info,
            ),
            TxStatus::Failed => settle(
                AttemptStatus::Failed,
                EventKind::ActionFailed,
                Severity::Critical,
            ),
            TxStatus::Pending => if elapsed(now, a.submitted_at) >= policy.confirm_timeout {
                settle(AttemptStatus::Failed, EventKind::ActionUnconfirmed, Severity::Critical)
            } else {
                (r, ConfirmStep::KeepPolling)
            },
        }
    }
}

/// Decides on mitigation submissions and tracks them to the end. All its
/// decisions go through one `&mut` borrow, so they are serialized.
pub struct Responder {
    pub policy: ResponsePolicy,
    pub attempts: Vec<ActionAttempt>,
    pub last_submission: Option<u64>,
}

impl View for Responder {
    type V = ResponderModel;

    open spec fn view(&self) -> ResponderModel {
        ResponderModel { attempts: self.attempts@, last_submission: self.last_submission }
    }
}

impl Responder {
    /// At most one attempt per key.
    pub open spec fn wf(&self) -> bool {
        keys_unique(self.attempts@)
    }

    /// A responder that has submitted nothing yet.
    pub fn new(policy: ResponsePolicy) -> (r: Responder)
        ensures
            r.wf(),
            r.policy == policy,
            r@.attempts.len() == 0,
            r@.last_submission is None,
    {
        Responder { policy, attempts: Vec::new(), last_submission: None }
    }

    /// The index of the attempt with key `k`.
    pub fn find(&self, k: IdempotencyKey) -> (r: Option<usize>)
        ensures
            match r {
                Some(i) => i < self.attempts.len() && self.attempts@[i as int].key == k,
                None => !has_key(self@.attempts, k),
            },
    {
        let mut i: usize = 0;
        while i < self.attempts.len()
            invariant
                i <= self.attempts.len(),
                forall|j: int| 0 <= j < i ==> self.attempts@[j].key != k,
            decreases self.attempts.len() - i,
        {
            if self.attempts[i].key == k {
                return Some(i);
            }
            i = i + 1;
        }
        None
    }

    /// Replaces the attempt under `a.key` by `a`, or records `a`.
    fn put(&mut self, a: ActionAttempt)
        requires
            old(self).wf(),
        ensures
            final(self).wf(),
            final(self).policy == old(self).policy,
            final(self).last_submission == old(self).last_submission,
            final(self)@.attempts == put_attempt(old(self)@.attempts, a),
    {
        let ghost s = self.attempts@;
        match self.find(a.key) {
            Some(i) => {
                self.attempts.set(i, a);
                proof {
                    assert(has_key(s, a.key));
                    assert(self.attempts@ =~= s.map_values(
                        |x: ActionAttempt| if x.key == a.key { a } else { x },
                    ));
                }
            },
            None => {
                self.attempts.push(a);
            },
        }
    }

    /// Decides on an actionable event inside the responder's critical
    /// section: drops it when an attempt under its key is pending or
    /// confirmed, withholds it (with an escalation) within the cooldown, and
    /// otherwise records a pending attempt and starts the cooldown.
    pub fn decide(&mut self, event: &Event, action_id: u64, now: u64) -> (r: Admission)
        requires
            old(self).wf(),
        ensures
            final(self).wf(),
            final(self).policy == old(self).policy,
            (final(self)@, r) == decision_spec(
                old(self)@,
                old(self).policy.cooldown,
                *event,
                action_id,
                now,
            ),
    {
        let k = event.key;
        let live = match self.find(k) {
            Some(i) => match self.attempts[i].status {
                AttemptStatus::Failed => false,
                _ => true,
            },
            None => false,
        };
        proof {
            if !live {
                assert forall|j: int| 0 <= j < self.attempts@.len() && (#[trigger] self.attempts@[j]).key == k
                    implies !is_live(self.attempts@[j]) by {}
            }
        }
        if live {
            return Admission::Duplicate;
        }
        let within = match self.last_submission {
            Some(t) => {
                let since = if now > t {
                    now - t
                } else {
                    0
                };
                since < self.policy.cooldown
            },
            None => false,
        };
        if within {
            let ev = Event {
                check_id: event.check_id,
                kind: EventKind::ActionSuppressed,
                previous: event.previous,
                current: event.current,
                severity: Severity::Critical,
                value: event.value,
                timestamp: now,
                key: IdempotencyKey { kind: EventKind::ActionSuppressed, ..k },
            };
            return Admission::Cooldown(ev);
        }
        let fresh = ActionAttempt {
            key: k,
            action_id,
            submitted_at: now,
            tx_ref: None,
            status: AttemptStatus::Pending,
            retries: 0,
        };
        self.put(fresh);
        self.last_submission = Some(now);
        Admission::Submit
    }

    /// The attempt under `k` at a known index: it is the one `attempt_of`
    /// names.
    proof fn lemma_attempt_at(&self, i: int, k: IdempotencyKey)
        requires
            self.wf(),
            0 <= i < self.attempts@.len(),
            self.attempts@[i].key == k,
        ensures
            has_key(self@.attempts, k),
            attempt_of(self@.attempts, k) == self.attempts@[i],
            forall|j: int| 0 <= j < self.attempts@.len() && (#[trigger] self.attempts@[j]).key == k ==> j == i,
    {
        let s = self.attempts@;
        assert(s[i].key == k);
        let j = choose|j: int| 0 <= j < s.len() && (#[trigger] s[j]).key == k;
        assert(j == i);
    }

    /// Applies how a submission under `k` came back: an accepted one awaits
    /// confirmation; a transient failure is retried after an exponential
    /// backoff until the retries run out; then, or on a rejection, the
    /// attempt fails and a critical event asks for human intervention.
    pub fn on_submit_result(&mut self, k: IdempotencyKey, outcome: SubmitOutcome, now: u64) -> (r:
        SubmitStep)
        requires
            old(self).wf(),
        ensures
            final(self).wf(),
            final(self).policy == old(self).policy,
            (final(self)@, r) == submit_result_spec(
                old(self)@,
                old(self).policy,
                k,
                outcome,
                now,
            ),
    {
        let i = match self.find(k) {
            Some(i) => i,
            None => {
                return SubmitStep::Ignored;
            },
        };
        let a = self.attempts[i];
        proof {
            self.lemma_attempt_at(i as int, k);
        }
        let waiting = match (a.status, a.tx_ref) {
            (AttemptStatus::Pending, None) => true,
            _ => false,
        };
        if !waiting {
            return SubmitStep::Ignored;
        }
        match outcome {
            SubmitOutcome::Accepted(tx) => {
                self.put(ActionAttempt { tx_ref: Some(tx), submitted_at: now, ..a });
                SubmitStep::AwaitConfirmation
            },
            SubmitOutcome::Transient if a.retries < self.policy.max_retries => {
                let delay = backoff_delay(self.policy.backoff_base, a.retries, self.policy.backoff_cap);
                self.put(ActionAttempt { retries: a.retries + 1, ..a });
                SubmitStep::RetryAfter(delay)
            },
            _ => {
                self.put(ActionAttempt { status: AttemptStatus::Failed, ..a });
                SubmitStep::Abandoned(
                    make_action_event(k, EventKind::ActionFailed, Severity::Critical, now),
                )
            },
        }
    }

    /// Applies a status poll of the transaction under `k`: a confirmation or
    /// a failure settles the attempt and reports it; a transaction still
    /// pending past the confirmation timeout fails as unconfirmed.
    pub fn on_status(&mut self, k: IdempotencyKey, status: TxStatus, now: u64) -> (r: ConfirmStep)
        requires
            old(self).wf(),
        ensures
            final(self).wf(),
            final(self).policy == old(self).policy,
            (final(self)@, r) == status_spec(old(self)@, old(self).policy, k, status, now),
    {
        let i = match self.find(k) {
            Some(i) => i,
            None => {
                return ConfirmStep::Ignored;
            },
        };
        let a = self.attempts[i];
        proof {
            self.lemma_attempt_at(i as int, k);
        }
        let waiting = match (a.status, a.tx_ref) {
            (AttemptStatus::Pending, Some(_)) => true,
            _ => false,
        };
        if !waiting {
            return ConfirmStep::Ignored;
        }
        let (st, kind, sev) = match status {
            TxStatus::Confirmed => (
                AttemptStatus::Confirmed,
                EventKind::ActionConfirmed,
                Severity::Info,
            ),
            TxStatus::Failed => (AttemptStatus::Failed, EventKind::ActionFailed, Severity::Critical),
            TxStatus::Pending => {
                let since = if now > a.submitted_at {
                    now - a.submitted_at
                } else {
                    0
                };
                if since < self.policy.confirm_timeout {
                    return ConfirmStep::KeepPolling;
                }
                (AttemptStatus::Failed, EventKind::ActionUnconfirmed, Severity::Critical)
            },
        };
        self.put(ActionAttempt { status: st, ..a });
        ConfirmStep::Done(make_action_event(k, kind, sev, now))
    }
}


/// With unique keys, at most one attempt carries a key.
pub proof fn lemma_count_unique(s: Seq<ActionAttempt>, k: IdempotencyKey)
    requires
        keys_unique(s),
    ensures
        count_key(s, k) == (if has_key(s, k) {
            1nat
        } else {
            0nat
        }),
    decreases s.len(),
{
    if s.len() > 0 {
        let t = s.drop_last();
        assert(keys_unique(t));
        lemma_count_unique(t, k);
        if s.last().key == k {
            assert(s[s.len() - 1].key == k);
            assert forall|i: int| 0 <= i < t.len() implies (#[trigger] t[i]).key != k by {
                assert(s[i] == t[i]);
            }
        } else {
            if has_key(s, k) {
                let i = choose|i: int| 0 <= i < s.len() && (#[trigger] s[i]).key == k;
                assert(t[i] == s[i]);
            }
            if has_key(t, k) {
                let i = choose|i: int| 0 <= i < t.len() && (#[trigger] t[i]).key == k;
                assert(t[i] == s[i]);
            }
        }
    }
}

/// Recording an attempt keeps keys unique, and leaves the attempts under
/// every other key as they were.
pub proof fn lemma_put_attempt(s: Seq<ActionAttempt>, a: ActionAttempt, k: IdempotencyKey)
    requires
        keys_unique(s),
    ensures
        keys_unique(put_attempt(s, a)),
        has_key(put_attempt(s, a), a.key),
        k != a.key ==> has_live(put_attempt(s, a), k) == has_live(s, k),
{
    let u = put_attempt(s, a);
    if has_key(s, a.key) {
        let i = choose|i: int| 0 <= i < s.len() && (#[trigger] s[i]).key == a.key;
        assert(u[i].key == a.key);
        if k != a.key {
            if has_live(s, k) {
                let j = choose|j: int| 0 <= j < s.len() && (#[trigger] s[j]).key == k && is_live(s[j]);
                assert(u[j] == s[j]);
            }
            if has_live(u, k) {
                let j = choose|j: int| 0 <= j < u.len() && (#[trigger] u[j]).key == k && is_live(u[j]);
                assert(u[j] == s[j]);
            }
        }
    } else {
        assert(u[s.len() as int].key == a.key);
        if k != a.key {
            if has_live(s, k) {
                let j = choose|j: int| 0 <= j < s.len() && (#[trigger] s[j]).key == k && is_live(s[j]);
                assert(u[j] == s[j]);
            }
            if has_live(u, k) {
                let j = choose|j: int| 0 <= j < u.len() && (#[trigger] u[j]).key == k && is_live(u[j]);
                assert(u[j] == s[j]);
            }
        }
    }
}

/// Idempotency: once the action for an event is submitted, a second event
/// with the same idempotency key, at any later decision while that attempt
/// is pending, is dropped as a duplicate and changes nothing; exactly one
/// attempt carries the key, and exactly one submission was decided.
pub proof fn lemma_same_key_submitted_once(
    r: ResponderModel,
    cooldown: u64,
    e1: Event,
    a1: u64,
    t1: u64,
    e2: Event,
    a2: u64,
    t2: u64,
)
    requires
        keys_unique(r.attempts),
        e2.key == e1.key,
        decision_spec(r, cooldown, e1, a1, t1).1 == Admission::Submit,
    ensures
        decision_spec(decision_spec(r, cooldown, e1, a1, t1).0, cooldown, e2, a2, t2) == (
            decision_spec(r, cooldown, e1, a1, t1).0,
            Admission::Duplicate,
        ),
        count_key(decision_spec(r, cooldown, e1, a1, t1).0.attempts, e1.key) == 1,
{
    let r1 = decision_spec(r, cooldown, e1, a1, t1).0;
    let fresh = ActionAttempt {
        key: e1.key,
        action_id: a1,
        submitted_at: t1,
        tx_ref: None,
        status: AttemptStatus::Pending,
        retries: 0,
    };
    assert(r1.attempts == put_attempt(r.attempts, fresh));
    lemma_put_attempt(r.attempts, fresh, e1.key);
    lemma_count_unique(r1.attempts, e1.key);
    let s = r1.attempts;
    let i = choose|i: int| 0 <= i < s.len() && (#[trigger] s[i]).key == e1.key;
    if has_key(r.attempts, e1.key) {
        assert(s[i] == fresh);
    } else {
        assert forall|j: int| 0 <= j < r.attempts.len() implies (#[trigger] r.attempts[j]).key != e1.key by {}
        assert(s[i] == fresh);
    }
    assert(is_live(s[i]));
}

/// Cooldown: after one action is submitted at `t1`, an actionable event of
/// another check at `t2` within the cooldown window is not submitted and
/// changes nothing; unless an attempt under its key was already live, it is
/// withheld with a critical `ActionSuppressed` escalation to operators.
pub proof fn lemma_cooldown_withholds(
    r: ResponderModel,
    cooldown: u64,
    e1: Event,
    a1: u64,
    t1: u64,
    e2: Event,
    a2: u64,
    t2: u64,
)
    requires
        keys_unique(r.attempts),
        e1.key.check_id != e2.key.check_id,
        decision_spec(r, cooldown, e1, a1, t1).1 == Admission::Submit,
        t1 <= t2,
        t2 - t1 < cooldown,
    ensures
        decision_spec(decision_spec(r, cooldown, e1, a1, t1).0, cooldown, e2, a2, t2).1
            != Admission::Submit,
        decision_spec(decision_spec(r, cooldown, e1, a1, t1).0, cooldown, e2, a2, t2).0
            == decision_spec(r, cooldown, e1, a1, t1).0,
        !has_live(r.attempts, e2.key) ==> decision_spec(
            decision_spec(r, cooldown, e1, a1, t1).0,
            cooldown,
            e2,
            a2,
            t2,
        ).1 == Admission::Cooldown(suppressed_event(e2, t2)),
        suppressed_event(e2, t2).kind == EventKind::ActionSuppressed,
        suppressed_event(e2, t2).severity == Severity::Critical,
{
    let fresh = ActionAttempt {
        key: e1.key,
        action_id: a1,
        submitted_at: t1,
        tx_ref: None,
        status: AttemptStatus::Pending,
        retries: 0,
    };
    lemma_put_attempt(r.attempts, fresh, e2.key);
}

} // verus!
