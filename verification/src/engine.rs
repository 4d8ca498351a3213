//! The shared sandbox execution engine.
//!
//! Every plugin instance runs inside the one engine that the manager owns;
//! the preemption clock advances the engine's interruption epoch so that a
//! long-running in-sandbox call can be trapped without the plugin's
//! cooperation.

use vstd::prelude::*;

verus! {

/// wasmtime's execution engine, opaque to the host's own logic: a cheaply
/// clonable handle to the shared runtime and compiler state.
#[verifier::external_type_specification]
#[verifier::external_body]
pub struct ExEngine(wasmtime::Engine);

/// Relies on wasmtime::Config and wasmtime::Engine::new: builds the one
/// engine configuration this host runs plugins under — component model,
/// async support and epoch interruption all enabled — and constructs the
/// engine. Engine::new fails only on an invalid or incompatible
/// configuration; the error's rendering is handed back.
#[verifier::external_body]
pub(crate) fn new_engine() -> (r: Result<wasmtime::Engine, String>) {
    let mut config = wasmtime::Config::new();
    config.wasm_component_model(true);
    config.async_support(true);
    config.epoch_interruption(true);
    match wasmtime::Engine::new(&config) {
        Ok(engine) => Ok(engine),
        Err(e) => Err(e.to_string()),
    }
}

/// Relies on wasmtime::Engine::increment_epoch: one atomic bump of the
/// engine's interruption epoch, after which in-flight calls past their epoch
/// deadline are trapped. It neither blocks nor fails.
#[verifier::external_body]
pub(crate) fn advance_epoch(engine: &wasmtime::Engine) {
    engine.increment_epoch();
}

} // verus!
