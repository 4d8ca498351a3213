//! One registry slot per discovered plugin: its artifacts and its lazily
//! initialized running state.
//!
//! The slot is a small state machine, driven under the slot's init lock by
//! whoever asks for the worker: `Empty` until someone asks, `Initializing`
//! while one instantiation attempt is in flight, `Ready` once a worker runs.
//! A failed attempt leaves the slot `Empty` again, so the next call retries
//! from scratch — there is no backoff and no failure caching.

use vstd::prelude::*;

use crate::artifacts::{FileName, PluginArtifacts};

verus! {

/// The live handle of one initialized plugin: which worker serves it and the
/// call timeout its configuration declares, in milliseconds.
#[derive(Clone, Copy, Debug, PartialEq, Eq, Structural)]
pub struct WorkerHandle {
    pub worker_id: u64,
    pub call_timeout_ms: u64,
}

/// Why one instantiation attempt failed.
#[derive(Debug, PartialEq, Eq)]
pub enum InitError {
    /// The artifact file is gone at call time, even if it was present at
    /// discovery time: a hard error, never silently skipped.
    MissingArtifact,
    /// The sidecar configuration file is gone at call time.
    MissingConfig,
    /// The engine rejected the binary: malformed module or incompatible
    /// interface. Carries the engine's rendering of the cause.
    Rejected(String),
}

/// The running state of one slot.
#[derive(Debug, PartialEq, Eq)]
pub enum SlotPhase {
    /// No worker and no attempt in flight.
    Empty,
    /// Exactly one instantiation attempt is in flight.
    Initializing,
    /// A worker is cached and serves every caller.
    Ready(WorkerHandle),
}

/// What a caller entering the slot is told to do.
#[derive(Debug, PartialEq, Eq)]
pub enum EntryStep {
    /// A worker is cached: use it, no attempt is made.
    UseCached(WorkerHandle),
    /// Another caller's attempt is in flight: wait for it, start none.
    Wait,
    /// The slot was empty: attempt to instantiate this artifact.
    AttemptPrimary(FileName),
}

/// What follows a finished instantiation attempt.
#[derive(Debug, PartialEq, Eq)]
pub enum NextAction {
    /// The worker is cached; hand it to the caller.
    Done(WorkerHandle),
    /// The attempt failed and a fallback artifact exists: attempt it.
    TryFallback(FileName),
    /// Instantiation is exhausted; hand the error to the caller.
    Fail(InitError),
}

/// One plugin's registry entry.
pub struct PluginSlot {
    pub name: String,
    pub artifacts: PluginArtifacts,
    pub phase: SlotPhase,
}

/// What entering the slot does: the phase it moves to and the step the
/// caller is told to take.
pub open spec fn spec_enter(s: PluginSlot) -> (SlotPhase, EntryStep) {
    match s.phase {
        SlotPhase::Ready(w) => (SlotPhase::Ready(w), EntryStep::UseCached(w)),
        SlotPhase::Initializing => (SlotPhase::Initializing, EntryStep::Wait),
        SlotPhase::Empty => (SlotPhase::Initializing, EntryStep::AttemptPrimary(s.artifacts.primary)),
    }
}

/// What finishing the primary attempt does: on success the worker is cached;
/// on failure the fallback is attempted when one exists, otherwise the slot
/// empties and the caller gets the error.
pub open spec fn spec_finish_primary(s: PluginSlot, outcome: Result<WorkerHandle, InitError>) -> (
    SlotPhase,
    NextAction,
) {
    match outcome {
        Ok(w) => (SlotPhase::Ready(w), NextAction::Done(w)),
        Err(e) => match s.artifacts.fallback {
            Some(f) => (SlotPhase::Initializing, NextAction::TryFallback(f)),
            None => (SlotPhase::Empty, NextAction::Fail(e)),
        },
    }
}

/// What finishing the fallback attempt does: on success the worker is
/// cached; on failure the slot empties and the caller gets the fallback's
/// error, not the primary's.
pub open spec fn spec_finish_fallback(
    s: PluginSlot,
    outcome: Result<WorkerHandle, InitError>,
) -> (SlotPhase, NextAction) {
    match outcome {
        Ok(w) => (SlotPhase::Ready(w), NextAction::Done(w)),
        Err(e) => (SlotPhase::Empty, NextAction::Fail(e)),
    }
}

impl PluginSlot {
    /// Register a discovered plugin; nothing is instantiated yet.
    pub fn new(name: String, artifacts: PluginArtifacts) -> (s: PluginSlot)
        ensures
            s.name == name,
            s.artifacts == artifacts,
            s.phase is Empty,
    {
        PluginSlot { name, artifacts, phase: SlotPhase::Empty }
    }

    /// The name of this plugin.
    pub fn name(&self) -> (r: &String)
        ensures
            r == self.name,
    {
        &self.name
    }

    /// Enter the slot asking for its worker. Must be called under the slot's
    /// init lock, so that concurrent callers racing to initialize the same
    /// slot converge on a single instantiation attempt.
    pub fn enter(&mut self) -> (step: EntryStep)
        ensures
            final(self).name == old(self).name,
            final(self).artifacts == old(self).artifacts,
            final(self).phase == spec_enter(*old(self)).0,
            step == spec_enter(*old(self)).1,
    {
        match &self.phase {
            SlotPhase::Ready(w) => EntryStep::UseCached(*w),
            SlotPhase::Initializing => EntryStep::Wait,
            SlotPhase::Empty => {
                self.phase = SlotPhase::Initializing;
                EntryStep::AttemptPrimary(self.artifacts.primary.clone())
            },
        }
    }

    /// Record the outcome of the primary artifact's instantiation attempt.
    pub fn finish_primary(&mut self, outcome: Result<WorkerHandle, InitError>) -> (next:
        NextAction)
        requires
            old(self).phase is Initializing,
        ensures
            final(self).name == old(self).name,
            final(self).artifacts == old(self).artifacts,
            final(self).phase == spec_finish_primary(*old(self), outcome).0,
            next == spec_finish_primary(*old(self), outcome).1,
    {
        match outcome {
            Ok(w) => {
                self.phase = SlotPhase::Ready(w);
                NextAction::Done(w)
            },
            Err(e) => match &self.artifacts.fallback {
                Some(f) => NextAction::TryFallback(f.clone()),
                None => {
                    self.phase = SlotPhase::Empty;
                    NextAction::Fail(e)
                },
            },
        }
    }

    /// Record the outcome of the fallback artifact's instantiation attempt.
    /// On failure the caller is handed the fallback's error.
    pub fn finish_fallback(&mut self, outcome: Result<WorkerHandle, InitError>) -> (next:
        NextAction)
        requires
            old(self).phase is Initializing,
        ensures
            final(self).name == old(self).name,
            final(self).artifacts == old(self).artifacts,
            final(self).phase == spec_finish_fallback(*old(self), outcome).0,
            next == spec_finish_fallback(*old(self), outcome).1,
    {
        match outcome {
            Ok(w) => {
                self.phase = SlotPhase::Ready(w);
                NextAction::Done(w)
            },
            Err(e) => {
                self.phase = SlotPhase::Empty;
                NextAction::Fail(e)
            },
        }
    }
}

/// The checks made at the start of one instantiation attempt: the artifact
/// file and the sidecar configuration file must both exist on disk at call
/// time.
pub fn check_instantiation_inputs(artifact_present: bool, config_present: bool) -> (r: Result<
    (),
    InitError,
>)
    ensures
        r is Ok <==> artifact_present && config_present,
        !artifact_present ==> r == Err::<(), InitError>(InitError::MissingArtifact),
        artifact_present && !config_present ==> r == Err::<(), InitError>(InitError::MissingConfig),
{
    if !artifact_present {
        Err(InitError::MissingArtifact)
    } else if !config_present {
        Err(InitError::MissingConfig)
    } else {
        Ok(())
    }
}

/// Law: while one initialization attempt is in flight, a further entry to
/// the slot starts no attempt of its own and changes nothing, so two callers
/// racing on an uninitialized slot cause exactly one instantiation attempt.
pub proof fn lemma_single_attempt(s: PluginSlot)
    requires
        s.phase is Initializing,
    ensures
        spec_enter(s).1 is Wait,
        spec_enter(s).0 == s.phase,
{
}

/// Law: with the slot ready, every entry returns the one cached worker and
/// starts no attempt, so callers that waited on the same initialization all
/// receive the same worker.
pub proof fn lemma_ready_worker_shared(s: PluginSlot, w: WorkerHandle)
    requires
        s.phase == SlotPhase::Ready(w),
    ensures
        spec_enter(s).1 == EntryStep::UseCached(w),
        spec_enter(s).0 == s.phase,
{
}

/// Law: when the primary attempt failed and the fallback attempt produced a
/// worker, that worker is cached, and every later entry reuses it without
/// re-attempting the primary artifact.
pub proof fn lemma_fallback_worker_reused(
    s: PluginSlot,
    e: InitError,
    w: WorkerHandle,
    later: PluginSlot,
)
    requires
        s.phase is Initializing,
        s.artifacts.fallback is Some,
        spec_finish_primary(s, Err(e)).1 == NextAction::TryFallback(
            s.artifacts.fallback->Some_0,
        ),
        later.phase == spec_finish_fallback(s, Ok(w)).0,
    ensures
        spec_finish_fallback(s, Ok(w)).1 == NextAction::Done(w),
        later.phase == SlotPhase::Ready(w),
        spec_enter(later).1 == EntryStep::UseCached(w),
        !(spec_enter(later).1 is AttemptPrimary),
{
}

/// Law: a totally failed initialization leaves the slot empty, and the next
/// entry retries from scratch with the primary artifact — no backoff and no
/// failure caching.
pub proof fn lemma_failure_leaves_slot_retryable(
    s: PluginSlot,
    e: InitError,
    later: PluginSlot,
)
    requires
        s.phase is Initializing,
        later.name == s.name,
        later.artifacts == s.artifacts,
        later.phase == spec_finish_fallback(s, Err(e)).0,
    ensures
        spec_finish_fallback(s, Err(e)).1 == NextAction::Fail(e),
        later.phase is Empty,
        spec_enter(later).1 == EntryStep::AttemptPrimary(later.artifacts.primary),
{
}

} // verus!
