use awasmlib::artifacts::{FileName, PluginArtifacts};
use awasmlib::slot::{
    check_instantiation_inputs, EntryStep, InitError, NextAction, PluginSlot, SlotPhase,
    WorkerHandle,
};

fn file_named(stem: &str, ext: &str) -> FileName {
    FileName { stem: stem.to_string(), ext: ext.to_string() }
}

fn artifacts_with_fallback() -> PluginArtifacts {
    PluginArtifacts {
        primary: file_named("alpha", "cwasm"),
        fallback: Some(file_named("alpha", "wasm")),
        config: file_named("alpha", "toml"),
    }
}

fn artifacts_without_fallback() -> PluginArtifacts {
    PluginArtifacts {
        primary: file_named("alpha", "wasm"),
        fallback: None,
        config: file_named("alpha", "toml"),
    }
}

#[test]
fn racing_callers_cause_one_attempt_and_share_the_worker() {
    let mut slot = PluginSlot::new("alpha".to_string(), artifacts_without_fallback());

    // First caller acquires the init lock and starts the only attempt.
    let first = slot.enter();
    assert_eq!(first, EntryStep::AttemptPrimary(file_named("alpha", "wasm")));

    // A second caller entering meanwhile starts no attempt of its own.
    let second = slot.enter();
    assert_eq!(second, EntryStep::Wait);

    // The one attempt finishes; both callers now receive the same worker.
    let worker = WorkerHandle { worker_id: 7, call_timeout_ms: 5000 };
    assert_eq!(slot.finish_primary(Ok(worker)), NextAction::Done(worker));
    assert_eq!(slot.enter(), EntryStep::UseCached(worker));
    assert_eq!(slot.enter(), EntryStep::UseCached(worker));
}

#[test]
fn fallback_worker_is_reused_without_reattempting_primary() {
    let mut slot = PluginSlot::new("alpha".to_string(), artifacts_with_fallback());

    assert_eq!(slot.enter(), EntryStep::AttemptPrimary(file_named("alpha", "cwasm")));
    let next = slot.finish_primary(Err(InitError::Rejected("malformed module".to_string())));
    assert_eq!(next, NextAction::TryFallback(file_named("alpha", "wasm")));

    let worker = WorkerHandle { worker_id: 3, call_timeout_ms: 2000 };
    assert_eq!(slot.finish_fallback(Ok(worker)), NextAction::Done(worker));
    assert_eq!(slot.phase, SlotPhase::Ready(worker));

    // Later calls reuse the fallback-backed worker; no attempt is started.
    assert_eq!(slot.enter(), EntryStep::UseCached(worker));
    assert_eq!(slot.enter(), EntryStep::UseCached(worker));
}

#[test]
fn fallback_failure_reports_the_fallback_error() {
    let mut slot = PluginSlot::new("alpha".to_string(), artifacts_with_fallback());

    slot.enter();
    let next = slot.finish_primary(Err(InitError::Rejected("primary broken".to_string())));
    assert_eq!(next, NextAction::TryFallback(file_named("alpha", "wasm")));
    let next = slot.finish_fallback(Err(InitError::Rejected("fallback broken".to_string())));
    assert_eq!(next, NextAction::Fail(InitError::Rejected("fallback broken".to_string())));
    assert_eq!(slot.phase, SlotPhase::Empty);
}

#[test]
fn total_failure_leaves_the_slot_retryable() {
    let mut slot = PluginSlot::new("alpha".to_string(), artifacts_without_fallback());

    slot.enter();
    let next = slot.finish_primary(Err(InitError::MissingArtifact));
    assert_eq!(next, NextAction::Fail(InitError::MissingArtifact));
    assert_eq!(slot.phase, SlotPhase::Empty);

    // The next call retries from scratch: no backoff, no failure caching.
    assert_eq!(slot.enter(), EntryStep::AttemptPrimary(file_named("alpha", "wasm")));
}

#[test]
fn instantiation_prechecks() {
    assert_eq!(check_instantiation_inputs(true, true), Ok(()));
    assert_eq!(check_instantiation_inputs(false, true), Err(InitError::MissingArtifact));
    assert_eq!(check_instantiation_inputs(false, false), Err(InitError::MissingArtifact));
    assert_eq!(check_instantiation_inputs(true, false), Err(InitError::MissingConfig));
}
