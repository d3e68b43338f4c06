use vstd::prelude::*;

use crate::check::Check;
use crate::event::{Event, EventKind, IdempotencyKey, Severity};

verus! {

/// A declarative mitigation: a call to submit to a target contract.
#[derive(Clone, Debug)]
pub struct MitigationAction {
    pub id: u64,
    /// Address of the target contract.
    pub target: Vec<u8>,
    /// Call data of the transaction.
    pub payload: Vec<u8>,
    /// The signer that must sign it.
    pub signer: u64,
}

/// An unsigned transaction built from a mitigation, ready for the signer.
pub struct TxRequest {
    pub action_id: u64,
    pub target: Vec<u8>,
    pub payload: Vec<u8>,
    pub signer: u64,
    pub key: IdempotencyKey,
}

/// The index of the first mitigation with identifier `id`.
pub fn find_action(actions: &Vec<MitigationAction>, id: u64) -> (r: Option<usize>)
    ensures
        match r {
            Some(i) => i < actions.len() && actions@[i as int].id == id && forall|j: int|
                0 <= j < i ==> actions@[j].id != id,
            None => forall|j: int| 0 <= j < actions.len() ==> actions@[j].id != id,
        },
{
    let mut i: usize = 0;
    while i < actions.len()
        invariant
            i <= actions.len(),
            forall|j: int| 0 <= j < i ==> actions@[j].id != id,
        decreases actions.len() - i,
    {
        if actions[i].id == id {
            return Some(i);
        }
        i = i + 1;
    }
    None
}

/// Builds the transaction of a mitigation for the attempt under `key`.
pub fn build_transaction(action: &MitigationAction, key: IdempotencyKey) -> (r: TxRequest)
    ensures
        r.action_id == action.id,
        r.target@ == action.target@,
        r.payload@ == action.payload@,
        r.signer == action.signer,
        r.key == key,
{
    let target = action.target.clone();
    let payload = action.payload.clone();
    assert(target@ =~= action.target@);
    assert(payload@ =~= action.payload@);
    TxRequest { action_id: action.id, target, payload, signer: action.signer, key }
}

/// Where an event goes: every event is notified; a confirmed breach of a
/// check with a mitigation, at or above the action threshold, also goes to
/// the responder with the mitigation's identifier.
#[derive(Clone, Copy, Debug, PartialEq, Eq, Structural)]
pub struct Route {
    pub notify: bool,
    pub action: Option<u64>,
}

pub open spec fn actionable(event: Event, check: &Check, threshold: Severity) -> bool {
    &&& event.kind == EventKind::Breached
    &&& check.action is Some
    &&& event.severity.rank_spec() >= threshold.rank_spec()
}

/// Routes an event of `check`.
pub fn route(event: &Event, check: &Check, threshold: Severity) -> (r: Route)
    ensures
        r.notify,
        r.action == (if actionable(*event, check, threshold) {
            check.action
        } else {
            None
        }),
{
    let action = if event.kind == EventKind::Breached && event.severity.at_least(threshold) {
        check.action
    } else {
        None
    };
    Route { notify: true, action }
}

/// Why the configuration cannot start the watchtower.
#[derive(Clone, Copy, Debug, PartialEq, Eq, Structural)]
pub enum ConfigError {
    /// No checks are configured.
    NoChecks,
    /// The check with this identifier has unusable parameters.
    InvalidCheck(u64),
    /// Two checks share this identifier.
    DuplicateId(u64),
}

pub open spec fn ids_unique(checks: Seq<Check>) -> bool {
    forall|i: int, j: int| 0 <= i < j < checks.len() ==> checks[i].id != checks[j].id
}

pub open spec fn config_valid(checks: Seq<Check>) -> bool {
    &&& checks.len() > 0
    &&& forall|i: int| 0 <= i < checks.len() ==> (#[trigger] checks[i]).wf()
    &&& ids_unique(checks)
}

/// Validates the configured checks at bootstrap.
pub fn validate_checks(checks: &Vec<Check>) -> (r: Result<(), ConfigError>)
    ensures
        r is Ok <==> config_valid(checks@),
        r == Err::<(), ConfigError>(ConfigError::NoChecks) <==> checks.len() == 0,
        match r {
            Err(ConfigError::InvalidCheck(id)) => exists|i: int|
                0 <= i < checks.len() && (#[trigger] checks@[i]).id == id && !checks@[i].wf(),
            Err(ConfigError::DuplicateId(id)) => exists|i: int, j: int|
                0 <= i < j < checks.len() && (#[trigger] checks@[i]).id == id && (#[trigger] checks@[j]).id == id,
            _ => true,
        },
{
    if checks.len() == 0 {
        return Err(ConfigError::NoChecks);
    }
    let mut i: usize = 0;
    while i < checks.len()
        invariant
            i <= checks.len(),
            forall|k: int| 0 <= k < i ==> (#[trigger] checks@[k]).wf(),
            forall|a: int, b: int| 0 <= a < b < i ==> checks@[a].id != checks@[b].id,
        decreases checks.len() - i,
    {
        if !checks[i].is_valid() {
            return Err(ConfigError::InvalidCheck(checks[i].id));
        }
        let mut j: usize = 0;
        while j < i
            invariant
                i < checks.len(),
                j <= i,
                forall|a: int| 0 <= a < j ==> checks@[a].id != checks@[i as int].id,
            decreases i - j,
        {
            if checks[j].id == checks[i].id {
                return Err(ConfigError::DuplicateId(checks[i].id));
            }
            j = j + 1;
        }
        i = i + 1;
    }
    Ok(())
}

/// Why the watchtower cannot start.
#[derive(Clone, Copy, Debug, PartialEq, Eq, Structural)]
pub enum BootstrapError {
    /// No check could reach its chain client.
    NoReachableClient,
}

/// Decides at bootstrap whether polling can start: `reachable[i]` tells
/// whether the chain client of check `i` answered. Polling can start while
/// at least one did; single unreachable checks are not fatal.
pub fn connectivity(reachable: &Vec<bool>) -> (r: Result<(), BootstrapError>)
    ensures
        r is Ok <==> exists|i: int| 0 <= i < reachable.len() && reachable@[i],
{
    let mut i: usize = 0;
    while i < reachable.len()
        invariant
            i <= reachable.len(),
            forall|k: int| 0 <= k < i ==> !reachable@[k],
        decreases reachable.len() - i,
    {
        if reachable[i] {
            return Ok(());
        }
        i = i + 1;
    }
    Err(BootstrapError::NoReachableClient)
}

/// What shutdown does next.
#[derive(Clone, Copy, Debug, PartialEq, Eq, Structural)]
pub enum ShutdownStep {
    /// Wait for work still in flight.
    Wait,
    Exit,
}

/// After the shutdown signal, waits for in-flight chain calls and action
/// confirmations until none is left or the grace deadline has come.
pub fn shutdown_step(now: u64, deadline: u64, in_flight: usize) -> (r: ShutdownStep)
    ensures
        r == (if in_flight == 0 || now >= deadline {
            ShutdownStep::Exit
        } else {
            ShutdownStep::Wait
        }),
{
    if in_flight == 0 || now >= deadline {
        ShutdownStep::Exit
    } else {
        ShutdownStep::Wait
    }
}

} // verus!
