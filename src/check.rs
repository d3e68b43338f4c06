use vstd::prelude::*;

use crate::event::{key_of, idempotency_key, Event, EventKind, HealthState, Severity};

verus! {

/// The comparison under which a reading counts as out of bounds.
#[derive(Clone, Copy, Debug, PartialEq, Eq, Structural)]
pub enum Comparison {
    /// Out of bounds when the reading is below the threshold.
    Below,
    /// Out of bounds when the reading is at most the threshold.
    AtMost,
    /// Out of bounds when the reading is above the threshold.
    Above,
    /// Out of bounds when the reading is at least the threshold.
    AtLeast,
}

/// One monitored condition, immutable once loaded.
#[derive(Clone, Debug)]
pub struct Check {
    pub id: u64,
    pub name: String,
    pub comparison: Comparison,
    pub threshold: i64,
    /// Seconds between polls.
    pub interval: u64,
    /// Consecutive out-of-bounds readings that confirm a breach.
    pub breach_confirmations: u64,
    /// Consecutive in-bounds readings that confirm a recovery.
    pub recovery_confirmations: u64,
    /// Intervals without a successful poll after which the data is stale.
    pub stale_intervals: u64,
    pub severity: Severity,
    /// The mitigation to run on a confirmed breach, if any.
    pub action: Option<u64>,
    /// Width in seconds of the time buckets of idempotency keys.
    pub key_window: u64,
}

impl Check {
    pub open spec fn wf(&self) -> bool {
        &&& self.interval >= 1
        &&& self.breach_confirmations >= 1
        &&& self.recovery_confirmations >= 1
        &&& self.stale_intervals >= 1
        &&& self.key_window >= 1
    }

    /// Whether the parameters of the check are usable.
    pub fn is_valid(&self) -> (r: bool)
        ensures
            r == self.wf(),
    {
        self.interval >= 1 && self.breach_confirmations >= 1 && self.recovery_confirmations >= 1
            && self.stale_intervals >= 1 && self.key_window >= 1
    }

    pub open spec fn breach_spec(&self, value: i64) -> bool {
        match self.comparison {
            Comparison::Below => value < self.threshold,
            Comparison::AtMost => value <= self.threshold,
            Comparison::Above => value > self.threshold,
            Comparison::AtLeast => value >= self.threshold,
        }
    }

    /// Whether `value` is out of bounds for this check.
    pub fn is_breach(&self, value: i64) -> (r: bool)
        ensures
            r == self.breach_spec(value),
    {
        match self.comparison {
            Comparison::Below => value < self.threshold,
            Comparison::AtMost => value <= self.threshold,
            Comparison::Above => value > self.threshold,
            Comparison::AtLeast => value >= self.threshold,
        }
    }

    /// Seconds without a successful poll after which the data is stale.
    pub open spec fn stale_budget(&self) -> int {
        self.stale_intervals * self.interval
    }
}

/// The alerting state of a check together with its confirmation counter.
#[derive(Clone, Copy, Debug, PartialEq, Eq, Structural)]
pub enum Phase {
    Healthy,
    /// Out-of-bounds readings seen in a row, short of confirming the breach.
    Breaching(u64),
    Breached,
    /// In-bounds readings seen in a row, short of confirming the recovery.
    Recovering(u64),
}

impl Phase {
    pub open spec fn health_spec(self) -> HealthState {
        match self {
            Phase::Healthy => HealthState::Healthy,
            Phase::Breaching(_) => HealthState::Breaching,
            Phase::Breached => HealthState::Breached,
            Phase::Recovering(_) => HealthState::Recovering,
        }
    }

    /// The state without its counter.
    pub fn health(self) -> (r: HealthState)
        ensures
            r == self.health_spec(),
    {
        match self {
            Phase::Healthy => HealthState::Healthy,
            Phase::Breaching(_) => HealthState::Breaching,
            Phase::Breached => HealthState::Breached,
            Phase::Recovering(_) => HealthState::Recovering,
        }
    }

    /// Counters stay strictly below the confirmation they count towards.
    pub open spec fn wf(self, n: u64, m: u64) -> bool {
        match self {
            Phase::Breaching(c) => 1 <= c < n,
            Phase::Recovering(c) => 1 <= c < m,
            _ => true,
        }
    }

    /// Whether the check has alerted and not yet confirmed recovery.
    pub open spec fn alerted(self) -> bool {
        self is Breached || self is Recovering
    }
}

/// The phase after one reading; `breach` tells whether it was out of bounds,
/// `n` and `m` are the breach and recovery confirmation counts.
pub open spec fn phase_step(p: Phase, breach: bool, n: u64, m: u64) -> Phase {
    match p {
        Phase::Healthy => if !breach {
            Phase::Healthy
        } else if n <= 1 {
            Phase::Breached
        } else {
            Phase::Breaching(1)
        },
        Phase::Breaching(c) => if !breach {
            Phase::Healthy
        } else if c + 1 >= n {
            Phase::Breached
        } else {
            Phase::Breaching((c + 1) as u64)
        },
        Phase::Breached => if breach {
            Phase::Breached
        } else if m <= 1 {
            Phase::Healthy
        } else {
            Phase::Recovering(1)
        },
        Phase::Recovering(c) => if breach {
            Phase::Breached
        } else if c + 1 >= m {
            Phase::Healthy
        } else {
            Phase::Recovering((c + 1) as u64)
        },
    }
}

/// The alert that a step from `p` raises: a breach when it first reaches
/// `Breached`, a recovery when it leaves the alerted states.
pub open spec fn step_alert(p: Phase, breach: bool, n: u64, m: u64) -> Option<EventKind> {
    let q = phase_step(p, breach, n, m);
    if !p.alerted() && q is Breached {
        Some(EventKind::Breached)
    } else if p.alerted() && q is Healthy {
        Some(EventKind::Recovered)
    } else {
        None
    }
}

/// One step of the hysteresis state machine.
pub fn next_phase(p: Phase, breach: bool, n: u64, m: u64) -> (r: Phase)
    requires
        p.wf(n, m),
    ensures
        r == phase_step(p, breach, n, m),
        r.wf(n, m),
{
    match p {
        Phase::Healthy => if !breach {
            Phase::Healthy
        } else if n <= 1 {
            Phase::Breached
        } else {
            Phase::Breaching(1)
        },
        Phase::Breaching(c) => if !breach {
            Phase::Healthy
        } else if c + 1 >= n {
            Phase::Breached
        } else {
            Phase::Breaching(c + 1)
        },
        Phase::Breached => if breach {
            Phase::Breached
        } else if m <= 1 {
            Phase::Healthy
        } else {
            Phase::Recovering(1)
        },
        Phase::Recovering(c) => if breach {
            Phase::Breached
        } else if c + 1 >= m {
            Phase::Healthy
        } else {
            Phase::Recovering(c + 1)
        },
    }
}

/// The alert raised by a step, computed.
pub fn alert_of_step(p: Phase, q: Phase) -> (r: Option<EventKind>)
    ensures
        forall|breach: bool, n: u64, m: u64|
            q == phase_step(p, breach, n, m) ==> r == step_alert(p, breach, n, m),
{
    let alerted = match p {
        Phase::Breached | Phase::Recovering(_) => true,
        _ => false,
    };
    match q {
        Phase::Breached => if !alerted {
            Some(EventKind::Breached)
        } else {
            None
        },
        Phase::Healthy => if alerted {
            Some(EventKind::Recovered)
        } else {
            None
        },
        _ => None,
    }
}

/// Seconds from `since` to `now`, zero if the clock went backwards.
pub open spec fn elapsed(now: u64, since: u64) -> int {
    if now > since {
        now - since
    } else {
        0
    }
}

/// The event that a confirmed transition raises.
pub open spec fn transition_event(
    check: &Check,
    kind: EventKind,
    from: Phase,
    to: Phase,
    value: i64,
    now: u64,
) -> Event {
    Event {
        check_id: check.id,
        kind,
        previous: from.health_spec(),
        current: to.health_spec(),
        severity: if kind == EventKind::Breached {
            check.severity
        } else {
            Severity::Info
        },
        value: Some(value),
        timestamp: now,
        key: key_of(check.id, kind, now, check.key_window),
    }
}

/// The event that reports stale data, or the end of it.
pub open spec fn freshness_event(
    check: &Check,
    kind: EventKind,
    p: Phase,
    value: Option<i64>,
    now: u64,
) -> Event {
    Event {
        check_id: check.id,
        kind,
        previous: p.health_spec(),
        current: p.health_spec(),
        severity: if kind == EventKind::DataStale {
            Severity::Warning
        } else {
            Severity::Info
        },
        value,
        timestamp: now,
        key: key_of(check.id, kind, now, check.key_window),
    }
}

/// The events of one poll: the end or start of staleness, and a confirmed
/// transition of the state machine.
#[derive(Clone, Copy, Debug, PartialEq, Eq, Structural)]
pub struct PollEvents {
    pub freshness: Option<Event>,
    pub transition: Option<Event>,
}

/// The mutable state of one check, owned by the task that polls it.
#[derive(Clone, Copy, Debug, PartialEq, Eq, Structural)]
pub struct CheckState {
    pub phase: Phase,
    /// When the state last changed.
    pub last_transition: u64,
    /// When a poll last succeeded (the start time before the first one).
    pub last_success: u64,
    /// Whether a `DataStale` event is outstanding.
    pub stale: bool,
}

impl CheckState {
    pub open spec fn wf(&self, check: &Check) -> bool {
        &&& check.wf()
        &&& self.phase.wf(check.breach_confirmations, check.recovery_confirmations)
    }

    /// A healthy, fresh state at start time `now`.
    pub fn new(now: u64) -> (r: CheckState)
        ensures
            r.phase == Phase::Healthy,
            r.last_transition == now,
            r.last_success == now,
            !r.stale,
    {
        CheckState { phase: Phase::Healthy, last_transition: now, last_success: now, stale: false }
    }

    /// The state after a failed poll at `now`.
    pub open spec fn after_failure(self, check: &Check, now: u64) -> (CheckState, PollEvents) {
        if !self.stale && elapsed(now, self.last_success) >= check.stale_budget() {
            (
                CheckState { stale: true, ..self },
                PollEvents {
                    freshness: Some(
                        freshness_event(check, EventKind::DataStale, self.phase, None, now),
                    ),
                    transition: None,
                },
            )
        } else {
            (self, PollEvents { freshness: None, transition: None })
        }
    }

    /// The state after a successful poll at `now` that read `value`.
    pub open spec fn after_reading(self, check: &Check, value: i64, now: u64) -> (
        CheckState,
        PollEvents,
    ) {
        let n = check.breach_confirmations;
        let m = check.recovery_confirmations;
        let breach = check.breach_spec(value);
        let q = phase_step(self.phase, breach, n, m);
        let next = CheckState {
            phase: q,
            last_transition: if q.health_spec() != self.phase.health_spec() {
                now
            } else {
                self.last_transition
            },
            last_success: now,
            stale: false,
        };
        let freshness = if self.stale {
            Some(freshness_event(check, EventKind::StaleCleared, q, Some(value), now))
        } else {
            None
        };
        let transition = match step_alert(self.phase, breach, n, m) {
            Some(kind) => Some(transition_event(check, kind, self.phase, q, value, now)),
            None => None,
        };
        (next, PollEvents { freshness, transition })
    }

    /// The state and events after one poll: `reading` is `None` when the poll
    /// failed.
    pub open spec fn after_poll(self, check: &Check, reading: Option<i64>, now: u64) -> (
        CheckState,
        PollEvents,
    ) {
        match reading {
            None => self.after_failure(check, now),
            Some(v) => self.after_reading(check, v, now),
        }
    }

    /// Applies the result of one poll to the state: a failed poll changes
    /// only staleness, a reading steps the state machine and clears staleness.
    pub fn on_poll(&mut self, check: &Check, reading: Option<i64>, now: u64) -> (r: PollEvents)
        requires
            old(self).wf(check),
        ensures
            final(self).wf(check),
            (*final(self), r) == old(self).after_poll(check, reading, now),
    {
        match reading {
            None => {
                let since = if now > self.last_success {
                    now - self.last_success
                } else {
                    0
                };
                let a = check.stale_intervals as u128;
                let b = check.interval as u128;
                assert(a * b <= u64::MAX as u128 * u64::MAX as u128) by (nonlinear_arith)
                    requires
                        a <= u64::MAX as u128,
                        b <= u64::MAX as u128,
                ;
                let budget: u128 = a * b;
                if !self.stale && since as u128 >= budget {
                    self.stale = true;
                    let kind = EventKind::DataStale;
                    let health = self.phase.health();
                    let ev = Event {
                        check_id: check.id,
                        kind,
                        previous: health,
                        current: health,
                        severity: Severity::Warning,
                        value: None,
                        timestamp: now,
                        key: idempotency_key(check.id, kind, now, check.key_window),
                    };
                    PollEvents { freshness: Some(ev), transition: None }
                } else {
                    PollEvents { freshness: None, transition: None }
                }
            },
            Some(v) => {
                let n = check.breach_confirmations;
                let m = check.recovery_confirmations;
                let breach = check.is_breach(v);
                let p = self.phase;
                let q = next_phase(p, breach, n, m);
                let freshness = if self.stale {
                    let kind = EventKind::StaleCleared;
                    let health = q.health();
                    Some(
                        Event {
                            check_id: check.id,
                            kind,
                            previous: health,
                            current: health,
                            severity: Severity::Info,
                            value: Some(v),
                            timestamp: now,
                            key: idempotency_key(check.id, kind, now, check.key_window),
                        },
                    )
                } else {
                    None
                };
                let transition = match alert_of_step(p, q) {
                    Some(kind) => Some(
                        Event {
                            check_id: check.id,
                            kind,
                            previous: p.health(),
                            current: q.health(),
                            severity: if kind == EventKind::Breached {
                                check.severity
                            } else {
                                Severity::Info
                            },
                            value: Some(v),
                            timestamp: now,
                            key: idempotency_key(check.id, kind, now, check.key_window),
                        },
                    ),
                    None => None,
                };
                if q.health() != p.health() {
                    self.last_transition = now;
                }
                self.phase = q;
                self.last_success = now;
                self.stale = false;
                PollEvents { freshness, transition }
            },
        }
    }
}

/// The phase after a run of readings, each `true` when out of bounds.
pub open spec fn run_phase(p: Phase, readings: Seq<bool>, n: u64, m: u64) -> Phase
    decreases readings.len(),
{
    if readings.len() == 0 {
        p
    } else {
        phase_step(run_phase(p, readings.drop_last(), n, m), readings.last(), n, m)
    }
}

/// How many breach events a run of readings raises.
pub open spec fn breach_alerts(p: Phase, readings: Seq<bool>, n: u64, m: u64) -> nat
    decreases readings.len(),
{
    if readings.len() == 0 {
        0
    } else {
        let before = run_phase(p, readings.drop_last(), n, m);
        breach_alerts(p, readings.drop_last(), n, m) + if step_alert(
            before,
            readings.last(),
            n,
            m,
        ) == Some(EventKind::Breached) {
            1nat
        } else {
            0nat
        }
    }
}

/// One out-of-bounds reading followed by `k` in-bounds readings.
pub open spec fn isolated_spike(k: nat) -> Seq<bool> {
    seq![true] + Seq::new(k, |i: int| false)
}

/// `k` out-of-bounds readings in a row.
pub open spec fn breach_run(k: nat) -> Seq<bool> {
    Seq::new(k, |i: int| true)
}

/// Noise suppression: from `Healthy`, with a confirmation count of two or
/// more, a single out-of-bounds reading followed by any number of in-bounds
/// readings never reaches `Breached` and raises no breach event; after the
/// first in-bounds reading the check is `Healthy` again.
pub proof fn lemma_isolated_spike_suppressed(k: nat, n: u64, m: u64)
    requires
        n >= 2,
    ensures
        run_phase(Phase::Healthy, isolated_spike(k), n, m) == (if k == 0 {
            Phase::Breaching(1)
        } else {
            Phase::Healthy
        }),
        breach_alerts(Phase::Healthy, isolated_spike(k), n, m) == 0,
        forall|j: nat| j <= k ==> run_phase(Phase::Healthy, #[trigger] isolated_spike(j), n, m) != Phase::Breached,
    decreases k,
{
    let s = isolated_spike(k);
    assert(s.len() == k + 1);
    if k == 0 {
        assert(s.last() == true);
        assert(s.drop_last() =~= Seq::<bool>::empty());
        assert(run_phase(Phase::Healthy, s.drop_last(), n, m) == Phase::Healthy);
        assert(breach_alerts(Phase::Healthy, s.drop_last(), n, m) == 0);
    } else {
        lemma_isolated_spike_suppressed((k - 1) as nat, n, m);
        assert(s.last() == false);
        assert(s.drop_last() =~= isolated_spike((k - 1) as nat));
    }
    assert forall|j: nat| j <= k implies run_phase(Phase::Healthy, #[trigger] isolated_spike(j), n, m)
        != Phase::Breached by {
        if j < k {
            lemma_isolated_spike_suppressed(j, n, m);
        }
    }
}

/// Exact confirmation: from `Healthy`, fewer than `n` out-of-bounds readings
/// in a row leave the check short of `Breached` with no breach event, and
/// exactly `n` of them reach `Breached` with exactly one breach event.
pub proof fn lemma_confirmation_exact(n: u64, m: u64)
    requires
        n >= 1,
    ensures
        forall|k: nat| k < n ==> run_phase(Phase::Healthy, #[trigger] breach_run(k), n, m) != Phase::Breached,
        forall|k: nat| k < n ==> breach_alerts(Phase::Healthy, #[trigger] breach_run(k), n, m) == 0,
        run_phase(Phase::Healthy, breach_run(n as nat), n, m) == Phase::Breached,
        breach_alerts(Phase::Healthy, breach_run(n as nat), n, m) == 1,
{
    assert forall|k: nat| k < n implies run_phase(Phase::Healthy, #[trigger] breach_run(k), n, m)
        != Phase::Breached && breach_alerts(Phase::Healthy, breach_run(k), n, m) == 0 by {
        lemma_breach_run_prefix(k, n, m);
    }
    lemma_breach_run_prefix((n - 1) as nat, n, m);
    assert(breach_run(n as nat).drop_last() =~= breach_run((n - 1) as nat));
}

/// How many out-of-bounds readings end the run.
pub open spec fn trailing_breaches(readings: Seq<bool>) -> nat
    decreases readings.len(),
{
    if readings.len() == 0 {
        0
    } else if readings.last() {
        trailing_breaches(readings.drop_last()) + 1
    } else {
        0
    }
}

/// Debouncing in general: from `Healthy`, a run of readings in which fewer
/// than `n` out-of-bounds readings ever come in a row never reaches
/// `Breached` and raises no breach event; the check ends `Breaching` with
/// the length of the trailing out-of-bounds streak, or `Healthy`.
pub proof fn lemma_short_streaks_never_breach(readings: Seq<bool>, n: u64, m: u64)
    requires
        forall|i: int| 0 <= i <= readings.len() ==> trailing_breaches(#[trigger] readings.take(i)) < n,
    ensures
        run_phase(Phase::Healthy, readings, n, m) == (if trailing_breaches(readings) == 0 {
            Phase::Healthy
        } else {
            Phase::Breaching(trailing_breaches(readings) as u64)
        }),
        breach_alerts(Phase::Healthy, readings, n, m) == 0,
    decreases readings.len(),
{
    assert(readings.take(readings.len() as int) =~= readings);
    if readings.len() > 0 {
        let t = readings.drop_last();
        assert forall|i: int| 0 <= i <= t.len() implies trailing_breaches(#[trigger] t.take(i)) < n by {
            assert(t.take(i) =~= readings.take(i));
        }
        lemma_short_streaks_never_breach(t, n, m);
    }
}

/// Below the confirmation count, `k` out-of-bounds readings in a row leave
/// the check `Breaching(k)` (or `Healthy` for none) with no breach event.
pub proof fn lemma_breach_run_prefix(k: nat, n: u64, m: u64)
    requires
        k < n,
    ensures
        run_phase(Phase::Healthy, breach_run(k), n, m) == (if k == 0 {
            Phase::Healthy
        } else {
            Phase::Breaching(k as u64)
        }),
        breach_alerts(Phase::Healthy, breach_run(k), n, m) == 0,
    decreases k,
{
    if k > 0 {
        lemma_breach_run_prefix((k - 1) as nat, n, m);
        assert(breach_run(k).drop_last() =~= breach_run((k - 1) as nat));
    }
}

/// The staleness watchdog reports once per outage: a failed poll never
/// touches the state machine; once `DataStale` is out, further failures raise
/// nothing; and the next successful poll raises exactly one `StaleCleared`.
pub proof fn lemma_stale_reported_once(st: CheckState, check: &Check, value: i64, now: u64)
    ensures
        st.after_failure(check, now).0.phase == st.phase,
        st.after_failure(check, now).0.last_success == st.last_success,
        st.after_failure(check, now).1.transition is None,
        st.stale ==> st.after_failure(check, now) == (st, PollEvents { freshness: None, transition: None }),
        st.stale ==> st.after_reading(check, value, now).1.freshness == Some(
            freshness_event(
                check,
                EventKind::StaleCleared,
                st.after_reading(check, value, now).0.phase,
                Some(value),
                now,
            ),
        ),
        !st.after_reading(check, value, now).0.stale,
{
}

/// Deduplication by state: any number of out-of-bounds readings in a row
/// beyond the confirmation count keeps the check `Breached` with the single
/// breach event it raised on confirmation.
pub proof fn lemma_sustained_breach_alerts_once(k: nat, n: u64, m: u64)
    requires
        n >= 1,
        k >= n,
    ensures
        run_phase(Phase::Healthy, breach_run(k), n, m) == Phase::Breached,
        breach_alerts(Phase::Healthy, breach_run(k), n, m) == 1,
    decreases k,
{
    assert(breach_run(k).drop_last() =~= breach_run((k - 1) as nat));
    if k == n {
        lemma_confirmation_exact(n, m);
    } else {
        lemma_sustained_breach_alerts_once((k - 1) as nat, n, m);
    }
}

} // verus!
