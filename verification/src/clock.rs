//! The preemption clock.
//!
//! A background loop owned by the embedder beats at a fixed interval; each
//! beat advances the shared engine's interruption epoch and then the shared
//! tick counter. A plugin instance is configured with a deadline in epoch
//! ticks derived from its declared call timeout, so a call that outlives its
//! deadline is trapped inside the sandbox without the plugin's cooperation.

use vstd::prelude::*;

use crate::engine::advance_epoch;

verus! {

/// The shared logical time: a counter of clock beats, monotonically
/// increasing, mutated by the clock loop alone.
pub struct TickCounter {
    pub ticks: u64,
}

impl TickCounter {
    pub fn new() -> (c: TickCounter)
        ensures
            c.ticks == 0,
    {
        TickCounter { ticks: 0 }
    }

    /// The clock's first beat, before the loop: the counter leaves zero.
    pub fn start(&mut self)
        ensures
            final(self).ticks == 1,
    {
        self.ticks = 1;
    }

    /// One beat: the counter grows by exactly one, so logical time never
    /// runs backwards.
    pub fn tick(&mut self)
        requires
            old(self).ticks < u64::MAX,
        ensures
            final(self).ticks == old(self).ticks + 1,
    {
        self.ticks = self.ticks + 1;
    }
}

/// One beat of the preemption clock: advance the engine's interruption
/// epoch, then the shared tick counter.
pub fn clock_beat(engine: &wasmtime::Engine, counter: &mut TickCounter)
    requires
        old(counter).ticks < u64::MAX,
    ensures
        final(counter).ticks == old(counter).ticks + 1,
{
    advance_epoch(engine);
    counter.tick();
}

/// A plugin's epoch deadline: its declared call timeout divided by the
/// clock interval.
pub fn deadline_ticks(call_timeout_ms: u64, interval_ms: u64) -> (r: u64)
    requires
        interval_ms > 0,
    ensures
        r == call_timeout_ms as int / interval_ms as int,
{
    call_timeout_ms / interval_ms
}

/// Whether a call that began at tick `start` has exhausted a deadline of
/// `deadline` ticks by tick `now`.
pub fn call_expired(start: u64, deadline: u64, now: u64) -> (r: bool)
    requires
        start <= now,
    ensures
        r == (now - start >= deadline),
{
    now - start >= deadline
}

} // verus!
