//! Directory resolution: group the files of one plugin directory by stem,
//! choose each stem's artifacts, reject candidates without a configuration
//! file, and produce a registry sorted by plugin name.
//!
//! The scan itself is non-recursive over one directory, so a candidate's
//! configuration file resolves to a file on disk exactly when the listing
//! holds a file with the candidate's stem and the configuration extension.

use vstd::prelude::*;

use crate::artifacts::{
    ArtifactSet, ArtifactSetView, FileName, FileNameView, PluginArtifacts, PluginArtifactsView,
    spec_into_artifacts,
};
use crate::text::{
    chars_lt, lemma_chars_lt_connected, lemma_chars_lt_transitive, str_eq, str_lt,
};

verus! {

/// The listing holds a file with this stem and extension.
pub open spec fn has_file(entries: Seq<FileName>, stem: Seq<char>, ext: Seq<char>) -> bool {
    exists|i: int|
        0 <= i < entries.len() && (#[trigger] entries[i])@.stem == stem && entries[i]@.ext == ext
}

/// The listing holds a binary form (source or precompiled) for this stem.
pub open spec fn has_binary(entries: Seq<FileName>, stem: Seq<char>) -> bool {
    has_file(entries, stem, "wasm"@) || has_file(entries, stem, "cwasm"@)
}

/// A stem enters the registry exactly when the listing holds a binary form
/// for it and its configuration file resolves: the configuration is
/// mandatory, never optional.
pub open spec fn accepted(entries: Seq<FileName>, stem: Seq<char>) -> bool {
    has_binary(entries, stem) && has_file(entries, stem, "toml"@)
}

/// The candidate files that a scan of the listing gathers for one stem.
pub open spec fn collected_set(entries: Seq<FileName>, stem: Seq<char>) -> ArtifactSetView {
    ArtifactSetView {
        wasm: if has_file(entries, stem, "wasm"@) {
            Some(FileNameView { stem, ext: "wasm"@ })
        } else {
            None
        },
        cwasm: if has_file(entries, stem, "cwasm"@) {
            Some(FileNameView { stem, ext: "cwasm"@ })
        } else {
            None
        },
        toml: if has_file(entries, stem, "toml"@) {
            Some(FileNameView { stem, ext: "toml"@ })
        } else {
            None
        },
    }
}

/// One registry entry: a plugin name with its chosen artifacts.
#[derive(Debug, PartialEq, Eq)]
pub struct ResolvedPlugin {
    pub name: String,
    pub artifacts: PluginArtifacts,
}

/// A registry entry is right for a listing when its stem is accepted and its
/// artifacts are exactly what the selection policy chooses from the listing.
pub open spec fn resolved_ok(
    entries: Seq<FileName>,
    prefer_precompiled: bool,
    p: ResolvedPlugin,
) -> bool {
    &&& accepted(entries, p.name@)
    &&& Some(p.artifacts@) == spec_into_artifacts(
        collected_set(entries, p.name@),
        prefer_precompiled,
    )
}

/// The registry is strictly sorted by plugin name.
pub open spec fn registry_sorted(r: Seq<ResolvedPlugin>) -> bool {
    forall|i: int, j: int| 0 <= i < j < r.len() ==> chars_lt(r[i].name@, r[j].name@)
}

/// The registry holds a plugin of this name.
pub open spec fn contains_name(r: Seq<ResolvedPlugin>, n: Seq<char>) -> bool {
    exists|i: int| 0 <= i < r.len() && (#[trigger] r[i]).name@ == n
}


/// Law: a stem without a resolvable configuration file is excluded from the
/// registry, regardless of its binaries: it is never accepted, and the
/// registry holds exactly the accepted stems.
pub proof fn lemma_no_config_no_registration(
    r: Seq<ResolvedPlugin>,
    entries: Seq<FileName>,
    stem: Seq<char>,
)
    requires
        !has_file(entries, stem, "toml"@),
        forall|n: Seq<char>| #[trigger] contains_name(r, n) == accepted(entries, n),
    ensures
        !accepted(entries, stem),
        !contains_name(r, stem),
{
}

/// Decide whether the listing holds a file with this stem and extension.
fn contains_file(entries: &Vec<FileName>, stem: &String, ext: &str) -> (r: bool)
    ensures
        r == has_file(entries@, stem@, ext@),
{
    let n = entries.len();
    let mut i: usize = 0;
    while i < n
        invariant
            n == entries@.len(),
            0 <= i <= n,
            forall|j: int|
                0 <= j < i ==> !((#[trigger] entries@[j])@.stem == stem@ && entries@[j]@.ext
                    == ext@),
        decreases n - i,
    {
        let e = &entries[i];
        if str_eq(e.stem.as_str(), stem.as_str()) && str_eq(e.ext.as_str(), ext) {
            return true;
        }
        i += 1;
    }
    false
}

/// The stem list holds this stem.
pub open spec fn stems_contain(r: Seq<String>, n: Seq<char>) -> bool {
    exists|i: int| 0 <= i < r.len() && (#[trigger] r[i])@ == n
}

fn contains_stem(r: &Vec<String>, stem: &String) -> (b: bool)
    ensures
        b == stems_contain(r@, stem@),
{
    let n = r.len();
    let mut i: usize = 0;
    while i < n
        invariant
            n == r@.len(),
            0 <= i <= n,
            forall|j: int| 0 <= j < i ==> (#[trigger] r@[j])@ != stem@,
        decreases n - i,
    {
        if str_eq(r[i].as_str(), stem.as_str()) {
            return true;
        }
        i += 1;
    }
    false
}

/// Gather the distinct stems that have a binary form in the listing.
fn collect_stems(entries: &Vec<FileName>) -> (r: Vec<String>)
    ensures
        forall|i: int, j: int| 0 <= i < j < r@.len() ==> (#[trigger] r@[i])@ != (#[trigger] r@[j])@,
        forall|i: int| 0 <= i < r@.len() ==> has_binary(entries@, (#[trigger] r@[i])@),
        forall|n: Seq<char>| #[trigger] has_binary(entries@, n) ==> stems_contain(r@, n),
{
    let n = entries.len();
    let mut r: Vec<String> = Vec::new();
    let mut k: usize = 0;
    while k < n
        invariant
            n == entries@.len(),
            0 <= k <= n,
            forall|i: int, j: int|
                0 <= i < j < r@.len() ==> (#[trigger] r@[i])@ != (#[trigger] r@[j])@,
            forall|i: int| 0 <= i < r@.len() ==> has_binary(entries@, (#[trigger] r@[i])@),
            forall|n0: Seq<char>| #[trigger]
                has_binary(entries@.take(k as int), n0) ==> stems_contain(r@, n0),
        decreases n - k,
    {
        let e = &entries[k];
        let is_bin = str_eq(e.ext.as_str(), "wasm") || str_eq(e.ext.as_str(), "cwasm");
        if is_bin && !contains_stem(&r, &e.stem) {
            let ghost r_old = r@;
            r.push(e.stem.clone());
            proof {
                assert(forall|i: int|
                    0 <= i < r_old.len() ==> #[trigger] r@[i] == r_old[i]);
                assert(r@[r_old.len() as int]@ == e.stem@);
                assert forall|n0: Seq<char>| #[trigger]
                    stems_contain(r_old, n0) implies stems_contain(r@, n0) by {
                    let i = choose|i: int| 0 <= i < r_old.len() && (#[trigger] r_old[i])@ == n0;
                    assert((r@[i])@ == n0);
                }
            }
        }
        proof {
            lemma_has_file_take_step(entries@, k as int, "wasm"@);
            lemma_has_file_take_step(entries@, k as int, "cwasm"@);
            if stems_contain(r@, e.stem@) {
            }
            assert forall|n0: Seq<char>| #[trigger]
                has_binary(entries@.take(k + 1 as int), n0) implies stems_contain(r@, n0) by {
                if has_binary(entries@.take(k as int), n0) {
                } else {
                    assert(n0 == entries@[k as int]@.stem);
                    assert(entries@[k as int]@.ext == "wasm"@ || entries@[k as int]@.ext
                        == "cwasm"@);
                    assert(is_bin);
                    assert(stems_contain(r@, e.stem@));
                }
            }
        }
        k += 1;
    }
    proof {
        assert(entries@.take(n as int) =~= entries@);
    }
    r
}

/// Extending the scanned prefix by one file adds exactly that file.
proof fn lemma_has_file_take_step(entries: Seq<FileName>, k: int, ext: Seq<char>)
    requires
        0 <= k < entries.len(),
    ensures
        forall|stem: Seq<char>| #[trigger]
            has_file(entries.take(k + 1), stem, ext) == (has_file(entries.take(k), stem, ext) || (
            entries[k]@.stem == stem && entries[k]@.ext == ext)),
{
    assert forall|stem: Seq<char>| #[trigger]
        has_file(entries.take(k + 1), stem, ext) == (has_file(entries.take(k), stem, ext) || (
        entries[k]@.stem == stem && entries[k]@.ext == ext)) by {
        let pre = entries.take(k);
        let cur = entries.take(k + 1);
        assert(forall|i: int| 0 <= i < k ==> #[trigger] cur[i] == pre[i]);
        assert(cur[k] == entries[k]);
        if has_file(pre, stem, ext) {
            let i = choose|i: int|
                0 <= i < pre.len() && (#[trigger] pre[i])@.stem == stem && pre[i]@.ext == ext;
            assert(cur[i]@.stem == stem && cur[i]@.ext == ext);
        }
        if entries[k]@.stem == stem && entries[k]@.ext == ext {
            assert(cur[k]@.stem == stem && cur[k]@.ext == ext);
        }
        if has_file(cur, stem, ext) {
            let i = choose|i: int|
                0 <= i < cur.len() && (#[trigger] cur[i])@.stem == stem && cur[i]@.ext == ext;
            if i < k {
                assert(pre[i]@.stem == stem && pre[i]@.ext == ext);
            }
        }
    }
}

/// Find where a new name belongs in a sorted registry.
fn insertion_point(reg: &Vec<ResolvedPlugin>, name: &String) -> (k: usize)
    requires
        registry_sorted(reg@),
        !contains_name(reg@, name@),
    ensures
        0 <= k <= reg@.len(),
        forall|i: int| 0 <= i < k ==> chars_lt((#[trigger] reg@[i]).name@, name@),
        forall|i: int| k <= i < reg@.len() ==> chars_lt(name@, (#[trigger] reg@[i]).name@),
{
    let ghost r0 = reg@;
    let ghost pn = name@;
    let n = reg.len();
    let mut k: usize = 0;
    while k < n
        invariant
            n == r0.len(),
            reg@ == r0,
            registry_sorted(r0),
            !contains_name(r0, pn),
            pn == name@,
            0 <= k <= n,
            forall|i: int| 0 <= i < k ==> chars_lt((#[trigger] r0[i]).name@, pn),
        decreases n - k,
    {
        if str_lt(name.as_str(), reg[k].name.as_str()) {
            proof {
                assert forall|i: int| k <= i < r0.len() implies chars_lt(
                    pn,
                    (#[trigger] r0[i]).name@,
                ) by {
                    if i > k {
                        lemma_chars_lt_transitive(pn, r0[k as int].name@, r0[i].name@);
                    }
                }
            }
            return k;
        }
        proof {
            if !chars_lt(r0[k as int].name@, pn) {
                lemma_chars_lt_connected(pn, r0[k as int].name@);
                assert(r0[k as int].name@ == pn);
                assert(contains_name(r0, pn));
                assert(false);
            }
        }
        k += 1;
    }
    k
}

/// Insert a new name into a sorted registry, keeping it sorted.
fn insert_sorted(reg: &mut Vec<ResolvedPlugin>, p: ResolvedPlugin)
    requires
        registry_sorted(old(reg)@),
        !contains_name(old(reg)@, p.name@),
    ensures
        registry_sorted(final(reg)@),
        final(reg)@.len() == old(reg)@.len() + 1,
        forall|n: Seq<char>| #[trigger]
            contains_name(final(reg)@, n) == (contains_name(old(reg)@, n) || n == p.name@),
        forall|i: int|
            0 <= i < final(reg)@.len() ==> (#[trigger] final(reg)@[i]) == p || old(reg)@.contains(
                final(reg)@[i],
            ),
{
    let ghost r0 = reg@;
    let ghost pn = p.name@;
    let k = insertion_point(reg, &p.name);
    reg.insert(k, p);
    proof {
        let r1 = reg@;
        assert(r1 == r0.insert(k as int, p));
        assert(forall|i: int| 0 <= i < k ==> #[trigger] r1[i] == r0[i]);
        assert(r1[k as int] == p);
        assert(forall|i: int| k < i < r1.len() ==> #[trigger] r1[i] == r0[i - 1]);
        assert forall|i: int, j: int| 0 <= i < j < r1.len() implies chars_lt(
            (#[trigger] r1[i]).name@,
            (#[trigger] r1[j]).name@,
        ) by {
            if i == k {
            } else if j == k {
            }
        }
        assert forall|n0: Seq<char>| #[trigger]
            contains_name(r1, n0) == (contains_name(r0, n0) || n0 == pn) by {
            if contains_name(r0, n0) {
                let i = choose|i: int| 0 <= i < r0.len() && (#[trigger] r0[i]).name@ == n0;
                if i < k {
                    assert(r1[i].name@ == n0);
                } else {
                    assert(r1[i + 1].name@ == n0);
                }
            }
            if n0 == pn {
                assert(r1[k as int].name@ == n0);
            }
            if contains_name(r1, n0) && n0 != pn {
                let i = choose|i: int| 0 <= i < r1.len() && (#[trigger] r1[i]).name@ == n0;
                if i < k {
                    assert(r0[i].name@ == n0);
                } else {
                    assert(i != k);
                    assert(r0[i - 1].name@ == n0);
                }
            }
        }
        assert forall|i: int|
            0 <= i < r1.len() implies (#[trigger] r1[i]) == p || r0.contains(r1[i]) by {
            if i < k {
                assert(r0[i] == r1[i]);
            } else if i > k {
                assert(r0[i - 1] == r1[i]);
            }
        }
    }
}

/// Build the candidate set that the listing holds for one stem.
fn collect_set(entries: &Vec<FileName>, stem: &String) -> (s: ArtifactSet)
    ensures
        s@ == collected_set(entries@, stem@),
{
    let wasm = if contains_file(entries, stem, "wasm") {
        Some(FileName { stem: stem.clone(), ext: "wasm".to_owned() })
    } else {
        None
    };
    let cwasm = if contains_file(entries, stem, "cwasm") {
        Some(FileName { stem: stem.clone(), ext: "cwasm".to_owned() })
    } else {
        None
    };
    let toml = if contains_file(entries, stem, "toml") {
        Some(FileName { stem: stem.clone(), ext: "toml".to_owned() })
    } else {
        None
    };
    ArtifactSet { wasm, cwasm, toml }
}

/// Resolve one directory listing into the plugin registry.
///
/// A stem with at least one binary form and a resolvable configuration file
/// becomes one registry entry holding the artifacts that the selection policy
/// chooses; every other stem is left out. The registry is strictly sorted by
/// plugin name, so enumeration is deterministic and names are unique.
pub fn resolve_directory(entries: &Vec<FileName>, prefer_precompiled: bool) -> (r: Vec<
    ResolvedPlugin,
>)
    ensures
        registry_sorted(r@),
        forall|n: Seq<char>| #[trigger] contains_name(r@, n) == accepted(entries@, n),
        forall|i: int|
            0 <= i < r@.len() ==> resolved_ok(entries@, prefer_precompiled, #[trigger] r@[i]),
{
    let stems = collect_stems(entries);
    let m = stems.len();
    let mut reg: Vec<ResolvedPlugin> = Vec::new();
    let mut k: usize = 0;
    while k < m
        invariant
            m == stems@.len(),
            0 <= k <= m,
            forall|i: int, j: int|
                0 <= i < j < stems@.len() ==> (#[trigger] stems@[i])@ != (#[trigger] stems@[j])@,
            forall|i: int| 0 <= i < stems@.len() ==> has_binary(entries@, (#[trigger] stems@[i])@),
            forall|n0: Seq<char>| #[trigger] has_binary(entries@, n0) ==> stems_contain(stems@, n0),
            registry_sorted(reg@),
            forall|i: int|
                0 <= i < reg@.len() ==> resolved_ok(entries@, prefer_precompiled, #[trigger] reg@[i]),
            forall|n0: Seq<char>| #[trigger]
                contains_name(reg@, n0) == (accepted(entries@, n0) && exists|j: int|
                    0 <= j < k && (#[trigger] stems@[j])@ == n0),
        decreases m - k,
    {
        let stem = &stems[k];
        let set = collect_set(entries, stem);
        let ghost reg_before = reg@;
        match set.into_artifacts(prefer_precompiled) {
            Some(artifacts) => {
                proof {
                    assert(artifacts@.config.stem == stem@);
                    assert(artifacts@.config.ext == "toml"@);
                }
                if contains_file(entries, &artifacts.config.stem, artifacts.config.ext.as_str()) {
                    proof {
                        assert(accepted(entries@, stem@));
                        assert(!contains_name(reg@, stem@));
                    }
                    insert_sorted(&mut reg, ResolvedPlugin { name: stem.clone(), artifacts });
                } else {
                    proof {
                        assert(!accepted(entries@, stem@));
                    }
                }
            },
            None => {
                proof {
                    assert(has_binary(entries@, stem@));
                    assert(false);
                }
            },
        }
        proof {
            assert forall|n0: Seq<char>| #[trigger]
                contains_name(reg@, n0) == (accepted(entries@, n0) && exists|j: int|
                    0 <= j < k + 1 && (#[trigger] stems@[j])@ == n0) by {
                if n0 == stem@ {
                } else {
                    assert(contains_name(reg@, n0) == contains_name(reg_before, n0));
                    if exists|j: int| 0 <= j < k + 1 && (#[trigger] stems@[j])@ == n0 {
                        let j = choose|j: int| 0 <= j < k + 1 && (#[trigger] stems@[j])@ == n0;
                        assert(j < k);
                    }
                }
            }
        }
        k += 1;
    }
    proof {
        assert forall|n0: Seq<char>| #[trigger]
            contains_name(reg@, n0) == accepted(entries@, n0) by {
            if accepted(entries@, n0) {
                assert(has_binary(entries@, n0));
                assert(stems_contain(stems@, n0));
            }
        }
    }
    reg
}

} // verus!
