//! The plugin manager: owns the shared engine, the preemption interval and
//! the registry of slots; (re)loads the registry from a directory listing and
//! fixes the fan-out aggregation policy.

use vstd::prelude::*;

use crate::artifacts::FileName;
use crate::commands::{CallError, ProviderCapabilities};
use crate::engine::new_engine;
use crate::resolver::{
    accepted, collected_set, contains_name, resolve_directory, resolved_ok,
};
use crate::artifacts::spec_into_artifacts;
use crate::slot::{InitError, PluginSlot};
use crate::text::{chars_lt, lemma_chars_lt_irreflexive};

verus! {

/// How often the preemption clock beats, in milliseconds.
pub const EPOCH_INTERVAL_MS: u64 = 10;

/// The registry holds a slot of this name.
pub open spec fn contains_slot_name(slots: Seq<PluginSlot>, n: Seq<char>) -> bool {
    exists|i: int| 0 <= i < slots.len() && (#[trigger] slots[i]).name@ == n
}

/// The registry of slots is strictly sorted by plugin name, so enumeration
/// is deterministic and names are unique.
pub open spec fn slots_sorted(slots: Seq<PluginSlot>) -> bool {
    forall|i: int, j: int| 0 <= i < j < slots.len() ==> chars_lt(slots[i].name@, slots[j].name@)
}

/// The registry a directory listing determines: one fresh slot per accepted
/// stem, holding the artifacts the selection policy chooses, sorted by name,
/// and nothing else — in particular no slot carried over from before.
pub open spec fn slots_registry_ok(
    slots: Seq<PluginSlot>,
    entries: Seq<FileName>,
    prefer_precompiled: bool,
) -> bool {
    &&& slots_sorted(slots)
    &&& forall|n: Seq<char>| #[trigger] contains_slot_name(slots, n) == accepted(entries, n)
    &&& forall|i: int|
        0 <= i < slots.len() ==> {
            &&& accepted(entries, (#[trigger] slots[i]).name@)
            &&& Some(slots[i].artifacts@) == spec_into_artifacts(
                collected_set(entries, slots[i].name@),
                prefer_precompiled,
            )
            &&& slots[i].phase is Empty
        }
}

/// Law: slot names are unique within one loaded registry, since the
/// registry is kept strictly sorted by name.
pub proof fn lemma_registry_names_unique(slots: Seq<PluginSlot>)
    requires
        slots_sorted(slots),
    ensures
        forall|i: int, j: int|
            0 <= i < j < slots.len() ==> slots[i].name@ != slots[j].name@,
{
    assert forall|i: int, j: int|
        0 <= i < j < slots.len() implies slots[i].name@ != slots[j].name@ by {
        if slots[i].name@ == slots[j].name@ {
            assert(chars_lt(slots[i].name@, slots[j].name@));
            lemma_chars_lt_irreflexive(slots[i].name@);
        }
    }
}

/// The outcome of the fan-out for one slot: its capabilities, or why none
/// were produced.
#[derive(Debug, PartialEq, Eq)]
pub enum FanoutOutcome {
    /// The plugin answered with its capabilities.
    Produced(ProviderCapabilities),
    /// The slot's worker could not be initialized.
    InitFailed(InitError),
    /// The call failed: no answer in time or at all, or a plugin error.
    CallFailed(CallError),
}

/// The aggregation policy: keep exactly the produced capabilities, in slot
/// order, keyed by plugin name; omit every failed plugin.
pub open spec fn spec_collect(outcomes: Seq<(String, FanoutOutcome)>) -> Seq<
    (String, ProviderCapabilities),
>
    decreases outcomes.len(),
{
    if outcomes.len() == 0 {
        Seq::empty()
    } else {
        let rest = spec_collect(outcomes.drop_last());
        match outcomes.last().1 {
            FanoutOutcome::Produced(c) => rest.push((outcomes.last().0, c)),
            FanoutOutcome::InitFailed(_) => rest,
            FanoutOutcome::CallFailed(_) => rest,
        }
    }
}

/// Manages loading, unloading and interfacing with plugins: the shared
/// engine, the clock interval, and one slot per registered plugin.
pub struct PluginManager {
    pub engine: wasmtime::Engine,
    pub epoch_interval_ms: u64,
    pub slots: Vec<PluginSlot>,
}

impl PluginManager {
    /// Construct the manager with the shared engine and an empty registry.
    ///
    /// Failure to construct the engine is fatal: without it no plugin can be
    /// preempted, so no manager is handed out.
    pub fn new() -> (r: Result<PluginManager, String>)
        ensures
            r matches Ok(m) ==> {
                &&& m.slots@.len() == 0
                &&& m.epoch_interval_ms == EPOCH_INTERVAL_MS
                &&& m.epoch_interval_ms > 0
            },
    {
        match new_engine() {
            Ok(engine) => Ok(
                PluginManager {
                    engine,
                    epoch_interval_ms: EPOCH_INTERVAL_MS,
                    slots: Vec::new(),
                },
            ),
            Err(e) => Err(e),
        }
    }

    /// Replace the registry with what the directory listing determines.
    ///
    /// The previous slot collection is dropped wholesale, never merged: a
    /// plugin absent from the new listing is no longer reachable, and any
    /// worker it had drains once orphaned. A missing or empty directory is an
    /// empty listing and yields an empty registry, not an error.
    pub fn load_plugins_from_directory(
        &mut self,
        entries: &Vec<FileName>,
        prefer_precompiled: bool,
    )
        ensures
            final(self).engine == old(self).engine,
            final(self).epoch_interval_ms == old(self).epoch_interval_ms,
            slots_registry_ok(final(self).slots@, entries@, prefer_precompiled),
    {
        let mut resolved = resolve_directory(entries, prefer_precompiled);
        let ghost r0 = resolved@;
        let mut slots: Vec<PluginSlot> = Vec::new();
        proof {
            assert(r0.skip(0) =~= r0);
        }
        while resolved.len() > 0
            invariant
                slots@.len() + resolved@.len() == r0.len(),
                resolved@ =~= r0.skip(slots@.len() as int),
                forall|i: int|
                    0 <= i < slots@.len() ==> {
                        &&& (#[trigger] slots@[i]).name == r0[i].name
                        &&& slots@[i].artifacts == r0[i].artifacts
                        &&& slots@[i].phase is Empty
                    },
            decreases resolved@.len(),
        {
            let ghost k = slots@.len() as int;
            let p = resolved.remove(0);
            proof {
                assert(p == r0.skip(k)[0]);
                assert(p == r0[k]);
                assert(r0.skip(k).remove(0) =~= r0.skip(k + 1));
            }
            slots.push(PluginSlot::new(p.name, p.artifacts));
        }
        proof {
            assert(slots@.len() == r0.len());
            assert forall|n: Seq<char>| #[trigger]
                contains_slot_name(slots@, n) == contains_name(r0, n) by {
                if contains_slot_name(slots@, n) {
                    let i = choose|i: int|
                        0 <= i < slots@.len() && (#[trigger] slots@[i]).name@ == n;
                    assert(r0[i].name@ == n);
                    assert(contains_name(r0, n));
                }
                if contains_name(r0, n) {
                    let i = choose|i: int| 0 <= i < r0.len() && (#[trigger] r0[i]).name@ == n;
                    assert(slots@[i].name@ == n);
                }
            }
            assert forall|i: int|
                0 <= i < slots@.len() implies resolved_ok(
                entries@,
                prefer_precompiled,
                r0[i],
            ) by {}
        }
        self.slots = slots;
    }

    /// All registered plugin names, in registry order.
    pub fn list_plugins(&self) -> (names: Vec<String>)
        ensures
            names@.len() == self.slots@.len(),
            forall|i: int|
                0 <= i < names@.len() ==> (#[trigger] names@[i])@ == self.slots@[i].name@,
    {
        let n = self.slots.len();
        let mut names: Vec<String> = Vec::new();
        let mut i: usize = 0;
        while i < n
            invariant
                n == self.slots@.len(),
                0 <= i <= n,
                names@.len() == i,
                forall|j: int|
                    0 <= j < i ==> (#[trigger] names@[j])@ == self.slots@[j].name@,
            decreases n - i,
        {
            names.push(self.slots[i].name.clone());
            i += 1;
        }
        names
    }

    /// Aggregate the fan-out outcomes: a name-keyed collection of exactly
    /// the produced capabilities, in slot order.
    ///
    /// One plugin's failure — instantiation, timeout or error reply — only
    /// omits that plugin's contribution; the aggregate always succeeds, and
    /// with no outcomes at all it is empty, not an error.
    pub fn get_all_capabilities(&self, outcomes: &Vec<(String, FanoutOutcome)>) -> (r: Vec<
        (String, ProviderCapabilities),
    >)
        ensures
            r@ == spec_collect(outcomes@),
    {
        let n = outcomes.len();
        let mut r: Vec<(String, ProviderCapabilities)> = Vec::new();
        proof {
            assert(outcomes@.take(0) =~= Seq::<(String, FanoutOutcome)>::empty());
        }
        let mut i: usize = 0;
        while i < n
            invariant
                n == outcomes@.len(),
                0 <= i <= n,
                r@ == spec_collect(outcomes@.take(i as int)),
            decreases n - i,
        {
            proof {
                assert(outcomes@.take(i + 1 as int).drop_last() =~= outcomes@.take(i as int));
                assert(outcomes@.take(i + 1 as int).last() == outcomes@[i as int]);
            }
            let entry = &outcomes[i];
            match &entry.1 {
                FanoutOutcome::Produced(c) => {
                    r.push((entry.0.clone(), c.clone()));
                },
                FanoutOutcome::InitFailed(_) => {},
                FanoutOutcome::CallFailed(_) => {},
            }
            i += 1;
        }
        proof {
            assert(outcomes@.take(n as int) =~= outcomes@);
        }
        r
    }
}

/// Law: what a reload leaves in the registry is determined by the new
/// listing alone — a name is registered exactly when the new listing accepts
/// it, whether or not the old registry had it — and every slot starts empty,
/// so no worker from before the reload is reachable through the registry.
pub proof fn lemma_reload_replaces_registry(
    slots: Seq<PluginSlot>,
    entries: Seq<FileName>,
    prefer_precompiled: bool,
    n: Seq<char>,
)
    requires
        slots_registry_ok(slots, entries, prefer_precompiled),
    ensures
        contains_slot_name(slots, n) == accepted(entries, n),
        forall|i: int| 0 <= i < slots.len() ==> (#[trigger] slots[i]).phase is Empty,
{
}

/// Law: a listing without a single binary file — for instance one holding
/// configuration files alone — yields an empty registry.
pub proof fn lemma_no_binaries_empty_registry(
    slots: Seq<PluginSlot>,
    entries: Seq<FileName>,
    prefer_precompiled: bool,
)
    requires
        slots_registry_ok(slots, entries, prefer_precompiled),
        forall|i: int|
            0 <= i < entries.len() ==> (#[trigger] entries[i])@.ext != "wasm"@ && entries[i]@.ext
                != "cwasm"@,
    ensures
        slots.len() == 0,
{
    if slots.len() > 0 {
        assert(contains_slot_name(slots, slots[0].name@));
        assert(accepted(entries, slots[0].name@));
    }
}

/// Law: the collection the fan-out aggregation returns holds a plugin's name
/// exactly when that plugin's outcome produced capabilities.
pub proof fn lemma_aggregation_keeps_exactly_successes(
    outcomes: Seq<(String, FanoutOutcome)>,
    n: Seq<char>,
)
    ensures
        (exists|j: int|
            0 <= j < spec_collect(outcomes).len() && (#[trigger] spec_collect(outcomes)[j]).0@
                == n) <==> (exists|i: int|
            0 <= i < outcomes.len() && (#[trigger] outcomes[i]).0@ == n
                && outcomes[i].1 is Produced),
    decreases outcomes.len(),
{
    if outcomes.len() > 0 {
        let pre = outcomes.drop_last();
        lemma_aggregation_keeps_exactly_successes(pre, n);
        let cur = spec_collect(outcomes);
        let rest = spec_collect(pre);
        assert(forall|i: int| 0 <= i < pre.len() ==> #[trigger] pre[i] == outcomes[i]);
        if exists|i: int|
            0 <= i < pre.len() && (#[trigger] pre[i]).0@ == n && pre[i].1 is Produced {
            let i = choose|i: int|
                0 <= i < pre.len() && (#[trigger] pre[i]).0@ == n && pre[i].1 is Produced;
            assert(outcomes[i].0@ == n && outcomes[i].1 is Produced);
        }
        if exists|i: int|
            0 <= i < outcomes.len() && (#[trigger] outcomes[i]).0@ == n
                && outcomes[i].1 is Produced {
            let i = choose|i: int|
                0 <= i < outcomes.len() && (#[trigger] outcomes[i]).0@ == n
                    && outcomes[i].1 is Produced;
            if i < pre.len() {
                assert(pre[i].0@ == n && pre[i].1 is Produced);
                let j = choose|j: int| 0 <= j < rest.len() && (#[trigger] rest[j]).0@ == n;
                if outcomes.last().1 is Produced {
                    assert(cur[j] == rest[j]);
                } else {
                    assert(cur == rest);
                }
            } else {
                assert(outcomes.last().1 is Produced);
                assert(cur.last().0@ == n);
            }
        }
        if exists|j: int| 0 <= j < cur.len() && (#[trigger] cur[j]).0@ == n {
            let j = choose|j: int| 0 <= j < cur.len() && (#[trigger] cur[j]).0@ == n;
            match outcomes.last().1 {
                FanoutOutcome::Produced(c) => {
                    if j < rest.len() {
                        assert(cur[j] == rest[j]);
                        assert(rest[j].0@ == n);
                    } else {
                        assert(cur[j] == (outcomes.last().0, c));
                        assert(outcomes[outcomes.len() - 1].0@ == n);
                    }
                },
                FanoutOutcome::InitFailed(_) => {
                    assert(rest[j].0@ == n);
                },
                FanoutOutcome::CallFailed(_) => {
                    assert(rest[j].0@ == n);
                },
            }
        }
    }
}

} // verus!
