use vstd::prelude::*;
use vstd::string::StringExecFns;

use crate::cue::CueModel;
use crate::invocation::{decimal, decimal_text, invocation_for, invocation_of, Invocation, InvocationModel};
use crate::ordered::strictly_ascending;
use crate::registry::CueManager;
use crate::running::{cancel_model, insert_model, reap_model, Instance, RunningSet};

verus! {

/// Why a cue operation did not happen as asked.
#[derive(Debug, PartialEq, Eq)]
pub enum EngineError {
    /// No cue with this id is defined.
    UnknownCue(u32),
    /// The cue is executing already; a second execution is refused.
    AlreadyRunning(u32),
    /// The cue's action starts no process.
    UnsupportedAction(u32),
    /// The external process could not be started; the cause as the OS gave it.
    SpawnFailed(u32, String),
    /// No execution of the cue is tracked.
    NotRunning(u32),
    /// The process had exited before the termination request reached it.
    AlreadyExited(u32),
    /// The termination request failed; the cause as the OS gave it.
    SignalFailed(u32, String),
}

/// The text that tells the operator about `e`.
pub open spec fn error_text(e: EngineError) -> Seq<char> {
    match e {
        EngineError::UnknownCue(id) => "Cue "@ + decimal(id as nat) + " not found"@,
        EngineError::AlreadyRunning(id) => "Cue "@ + decimal(id as nat) + " is already playing"@,
        EngineError::UnsupportedAction(id) => "Cue "@ + decimal(id as nat) + " has no action that can be started"@,
        EngineError::SpawnFailed(id, cause) => "Failed to execute cue "@ + decimal(id as nat) + ": "@ + cause@,
        EngineError::NotRunning(id) => "Cue "@ + decimal(id as nat) + " is not currently playing"@,
        EngineError::AlreadyExited(id) => "Cue "@ + decimal(id as nat) + " had already finished"@,
        EngineError::SignalFailed(id, cause) => "Failed to stop cue "@ + decimal(id as nat) + ": "@ + cause@,
    }
}

impl EngineError {
    /// The text that tells the operator about this error.
    pub fn message(&self) -> (r: String)
        ensures
            r@ == error_text(*self),
    {
        match self {
            EngineError::UnknownCue(id) => {
                let mut s = String::from_str("Cue ");
                s.append(decimal_text(*id).as_str());
                s.append(" not found");
                s
            },
            EngineError::AlreadyRunning(id) => {
                let mut s = String::from_str("Cue ");
                s.append(decimal_text(*id).as_str());
                s.append(" is already playing");
                s
            },
            EngineError::UnsupportedAction(id) => {
                let mut s = String::from_str("Cue ");
                s.append(decimal_text(*id).as_str());
                s.append(" has no action that can be started");
                s
            },
            EngineError::SpawnFailed(id, cause) => {
                let mut s = String::from_str("Failed to execute cue ");
                s.append(decimal_text(*id).as_str());
                s.append(": ");
                s.append(cause.as_str());
                s
            },
            EngineError::NotRunning(id) => {
                let mut s = String::from_str("Cue ");
                s.append(decimal_text(*id).as_str());
                s.append(" is not currently playing");
                s
            },
            EngineError::AlreadyExited(id) => {
                let mut s = String::from_str("Cue ");
                s.append(decimal_text(*id).as_str());
                s.append(" had already finished");
                s
            },
            EngineError::SignalFailed(id, cause) => {
                let mut s = String::from_str("Failed to stop cue ");
                s.append(decimal_text(*id).as_str());
                s.append(": ");
                s.append(cause.as_str());
                s
            },
        }
    }
}

/// How the termination request sent to a stopped cue's process went.
#[derive(Debug, PartialEq, Eq)]
pub enum SignalOutcome {
    Delivered,
    AlreadyExited,
    Failed(String),
}

/// One step of `go`: the cue id and what triggering it amounts to.
pub struct GoStep {
    pub cue_id: u32,
    pub plan: Result<Invocation, EngineError>,
}

/// What `trigger(id)` decides, before any process is started.
pub open spec fn trigger_model(reg: Map<u32, CueModel>, running: Set<u32>, id: u32) -> Result<
    InvocationModel,
    EngineError,
> {
    if !reg.contains_key(id) {
        Err(EngineError::UnknownCue(id))
    } else if running.contains(id) {
        Err(EngineError::AlreadyRunning(id))
    } else {
        match invocation_of(id, reg[id].action) {
            Some(inv) => Ok(inv),
            None => Err(EngineError::UnsupportedAction(id)),
        }
    }
}

/// A trigger decision with the invocation replaced by its model.
pub open spec fn plan_view(r: Result<Invocation, EngineError>) -> Result<InvocationModel, EngineError> {
    match r {
        Ok(inv) => Ok(inv@),
        Err(e) => Err(e),
    }
}

/// What the first half of `stop(id)` returns: the handle to signal, or
/// `NotRunning` when no execution of `id` is tracked.
pub open spec fn stop_reply<H>(running: Map<u32, Instance<H>>, id: u32) -> Result<H, EngineError> {
    if running.contains_key(id) {
        Ok(running[id].handle)
    } else {
        Err(EngineError::NotRunning(id))
    }
}

/// What `stop(id)` reports once the termination request was sent.
pub open spec fn stop_result(id: u32, outcome: SignalOutcome) -> Result<(), EngineError> {
    match outcome {
        SignalOutcome::Delivered => Ok(()),
        SignalOutcome::AlreadyExited => Err(EngineError::AlreadyExited(id)),
        SignalOutcome::Failed(cause) => Err(EngineError::SignalFailed(id, cause)),
    }
}

/// Triggering an id that no cue has is refused with `UnknownCue`, whatever
/// is running; no process is started for it.
pub proof fn lemma_unknown_trigger(reg: Map<u32, CueModel>, running: Set<u32>, id: u32)
    requires
        !reg.contains_key(id),
    ensures
        trigger_model(reg, running, id) == Err::<InvocationModel, EngineError>(EngineError::UnknownCue(id)),
{
}

/// A second stop right after a first one finds nothing to stop.
pub proof fn lemma_double_stop<H>(m: Map<u32, Instance<H>>, id: u32)
    ensures
        stop_reply(cancel_model(m, id), id) == Err::<H, EngineError>(EngineError::NotRunning(id)),
{
}

/// A stop after the reaper has removed a finished execution reports
/// `NotRunning`.
pub proof fn lemma_stop_after_reap<H>(m: Map<u32, Instance<H>>, id: u32, token: u64, handle: H)
    ensures
        stop_reply(reap_model(insert_model(m, id, token, handle), id, token), id) == Err::<H, EngineError>(
            EngineError::NotRunning(id),
        ),
{
}

/// Decides `trigger(id)`: the process to start for cue `id`, or why none is.
pub fn plan_trigger<H>(reg: &CueManager, running: &RunningSet<H>, id: u32) -> (r: Result<
    Invocation,
    EngineError,
>)
    ensures
        plan_view(r) == trigger_model(reg@, running@.dom(), id),
{
    match reg.get_cue(id) {
        None => Err(EngineError::UnknownCue(id)),
        Some(cue) => {
            if running.contains(id) {
                Err(EngineError::AlreadyRunning(id))
            } else {
                match invocation_for(id, &cue.actions) {
                    Some(inv) => Ok(inv),
                    None => Err(EngineError::UnsupportedAction(id)),
                }
            }
        },
    }
}

/// Decides `go`: one step per defined cue, in ascending order of id. The
/// steps are carried out one after another; a failed step does not stop the
/// ones after it.
pub fn go_plan<H>(reg: &CueManager, running: &RunningSet<H>) -> (r: Vec<GoStep>)
    ensures
        strictly_ascending(r@.map_values(|s: GoStep| s.cue_id)),
        forall|k: u32| reg@.contains_key(k) <==> exists|i: int| 0 <= i < r@.len() && #[trigger] r@[i].cue_id == k,
        forall|i: int|
            0 <= i < r@.len() ==> plan_view(#[trigger] r@[i].plan) == trigger_model(reg@, running@.dom(), r@[i].cue_id),
{
    let ids = reg.sorted_ids();
    let mut steps: Vec<GoStep> = Vec::new();
    for i in 0..ids.len()
        invariant
            steps@.len() == i,
            forall|j: int| 0 <= j < i ==> #[trigger] steps@[j].cue_id == ids@[j],
            forall|j: int|
                0 <= j < i ==> plan_view(#[trigger] steps@[j].plan) == trigger_model(reg@, running@.dom(), steps@[j].cue_id),
    {
        let id = ids[i];
        steps.push(GoStep { cue_id: id, plan: plan_trigger(reg, running, id) });
    }
    assert(steps@.map_values(|s: GoStep| s.cue_id) =~= ids@);
    assert forall|k: u32| reg@.contains_key(k) <==> exists|i: int| 0 <= i < steps@.len() && #[trigger] steps@[i].cue_id == k by {
        if reg@.contains_key(k) {
            assert(ids@.contains(k));
            let i = choose|i: int| 0 <= i < ids@.len() && ids@[i] == k;
            assert(steps@[i].cue_id == k);
        }
        if exists|i: int| 0 <= i < steps@.len() && #[trigger] steps@[i].cue_id == k {
            let i = choose|i: int| 0 <= i < steps@.len() && #[trigger] steps@[i].cue_id == k;
            assert(ids@[i] == k);
            assert(ids@.contains(k));
        }
    }
    steps
}

/// The first half of `stop(id)`: stops tracking the execution of `id` and
/// hands back its process handle, to which the caller sends the termination
/// request. The entry is gone whatever that request does.
pub fn begin_stop<H>(running: &mut RunningSet<H>, id: u32) -> (r: Result<H, EngineError>)
    ensures
        r == stop_reply(old(running)@, id),
        final(running)@ == cancel_model(old(running)@, id),
        final(running).next_spec() == old(running).next_spec(),
{
    match running.remove_if_present(id) {
        Some(h) => Ok(h),
        None => Err(EngineError::NotRunning(id)),
    }
}

/// The second half of `stop(id)`: what is reported for the outcome of the
/// termination request.
pub fn finish_stop(id: u32, outcome: SignalOutcome) -> (r: Result<(), EngineError>)
    ensures
        r == stop_result(id, outcome),
{
    match outcome {
        SignalOutcome::Delivered => Ok(()),
        SignalOutcome::AlreadyExited => Err(EngineError::AlreadyExited(id)),
        SignalOutcome::Failed(cause) => Err(EngineError::SignalFailed(id, cause)),
    }
}

/// Called by the reaper of execution `token` of `id` once its process has
/// exited. Returns whether this was a natural completion: `false` when a stop
/// removed the execution first.
pub fn reap<H>(running: &mut RunningSet<H>, id: u32, token: u64) -> (finished: bool)
    ensures
        finished == (old(running)@.contains_key(id) && old(running)@[id].token == token),
        final(running)@ == reap_model(old(running)@, id, token),
        final(running).next_spec() == old(running).next_spec(),
{
    match running.remove_instance(id, token) {
        Some(_) => true,
        None => false,
    }
}

} // verus!
