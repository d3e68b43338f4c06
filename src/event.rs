use vstd::prelude::*;

verus! {

/// How far a notification or an event matters to an operator.
#[derive(Clone, Copy, Debug, PartialEq, Eq, Structural)]
pub enum Severity {
    Info,
    Warning,
    Critical,
}

impl Severity {
    pub open spec fn rank_spec(self) -> nat {
        match self {
            Severity::Info => 0,
            Severity::Warning => 1,
            Severity::Critical => 2,
        }
    }

    /// Position of the severity on the scale `Info < Warning < Critical`.
    pub fn rank(self) -> (r: u8)
        ensures
            r as nat == self.rank_spec(),
    {
        match self {
            Severity::Info => 0,
            Severity::Warning => 1,
            Severity::Critical => 2,
        }
    }

    /// Whether `self` is at least as severe as `other`.
    pub fn at_least(self, other: Severity) -> (r: bool)
        ensures
            r == (self.rank_spec() >= other.rank_spec()),
    {
        self.rank() >= other.rank()
    }
}

/// The alerting state of one check.
#[derive(Clone, Copy, Debug, PartialEq, Eq, Structural)]
pub enum HealthState {
    Healthy,
    Breaching,
    Breached,
    Recovering,
}

/// What an event reports.
#[derive(Clone, Copy, Debug, PartialEq, Eq, Structural)]
pub enum EventKind {
    /// A breach was confirmed by enough consecutive readings.
    Breached,
    /// A recovery was confirmed by enough consecutive readings.
    Recovered,
    /// No successful poll within the staleness budget.
    DataStale,
    /// A poll succeeded again after the data went stale.
    StaleCleared,
    /// A mitigation was needed but withheld by the cooldown.
    ActionSuppressed,
    /// A mitigation could not be submitted, or was rejected on chain.
    ActionFailed,
    /// A mitigation transaction was confirmed.
    ActionConfirmed,
    /// A mitigation transaction was not confirmed in time.
    ActionUnconfirmed,
}

/// Identifies one logical transition: the check, what happened, and the time
/// bucket it happened in. Two events share a key exactly when the three agree.
#[derive(Clone, Copy, Debug, PartialEq, Eq, Structural)]
pub struct IdempotencyKey {
    pub check_id: u64,
    pub kind: EventKind,
    pub bucket: u64,
}

/// The key of a transition of kind `kind` on check `check_id` at time `at`,
/// with time cut into buckets of `width` seconds.
pub open spec fn key_of(check_id: u64, kind: EventKind, at: u64, width: u64) -> IdempotencyKey {
    IdempotencyKey { check_id, kind, bucket: (at / width) as u64 }
}

/// Derives the idempotency key of a transition.
pub fn idempotency_key(check_id: u64, kind: EventKind, at: u64, width: u64) -> (r: IdempotencyKey)
    requires
        width >= 1,
    ensures
        r == key_of(check_id, kind, at, width),
{
    IdempotencyKey { check_id, kind, bucket: at / width }
}

/// Keys of transitions that differ in check, kind or bucket never collide.
pub proof fn lemma_key_collision_free(
    c1: u64,
    k1: EventKind,
    t1: u64,
    c2: u64,
    k2: EventKind,
    t2: u64,
    width: u64,
)
    requires
        width >= 1,
        c1 != c2 || k1 != k2 || t1 / width != t2 / width,
    ensures
        key_of(c1, k1, t1, width) != key_of(c2, k2, t2, width),
{
}

/// An immutable record of something an operator must hear about.
#[derive(Clone, Copy, Debug, PartialEq, Eq, Structural)]
pub struct Event {
    pub check_id: u64,
    pub kind: EventKind,
    pub previous: HealthState,
    pub current: HealthState,
    pub severity: Severity,
    pub value: Option<i64>,
    pub timestamp: u64,
    pub key: IdempotencyKey,
}

} // verus!
