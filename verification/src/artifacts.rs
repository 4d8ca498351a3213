//! Plugin artifact selection.
//!
//! A plugin named `X` is represented in the plugin directory by a source
//! binary `X.wasm` and/or a precompiled binary `X.cwasm`, plus a mandatory
//! sidecar configuration file `X.toml`. Every file lives in one directory and
//! is identified by its stem and extension.

use vstd::prelude::*;

verus! {

/// A file in the plugin directory, split into its stem and its extension.
#[derive(Debug, PartialEq, Eq)]
pub struct FileName {
    pub stem: String,
    pub ext: String,
}

/// The mathematical value of a [`FileName`]: its stem and extension as
/// character sequences.
pub ghost struct FileNameView {
    pub stem: Seq<char>,
    pub ext: Seq<char>,
}

impl View for FileName {
    type V = FileNameView;

    open spec fn view(&self) -> FileNameView {
        FileNameView { stem: self.stem@, ext: self.ext@ }
    }
}

impl Clone for FileName {
    fn clone(&self) -> (r: Self)
        ensures
            r == *self,
    {
        FileName { stem: self.stem.clone(), ext: self.ext.clone() }
    }
}

impl FileName {
    /// The same stem with another extension, as `Path::with_extension` yields
    /// it for a file name without a second dot.
    pub fn with_extension(&self, ext: &str) -> (r: FileName)
        ensures
            r@ == (FileNameView { stem: self@.stem, ext: ext@ }),
    {
        FileName { stem: self.stem.clone(), ext: ext.to_owned() }
    }
}

pub open spec fn opt_file_view(o: Option<FileName>) -> Option<FileNameView> {
    match o {
        Some(f) => Some(f@),
        None => None,
    }
}

/// The candidate files found for one plugin stem during a directory scan.
#[derive(Default, Debug)]
pub struct ArtifactSet {
    pub wasm: Option<FileName>,
    pub cwasm: Option<FileName>,
    pub toml: Option<FileName>,
}

pub ghost struct ArtifactSetView {
    pub wasm: Option<FileNameView>,
    pub cwasm: Option<FileNameView>,
    pub toml: Option<FileNameView>,
}

impl View for ArtifactSet {
    type V = ArtifactSetView;

    open spec fn view(&self) -> ArtifactSetView {
        ArtifactSetView {
            wasm: opt_file_view(self.wasm),
            cwasm: opt_file_view(self.cwasm),
            toml: opt_file_view(self.toml),
        }
    }
}

/// The artifacts chosen for one plugin: the binary to try first, the binary
/// to fall back to when the first fails to instantiate, and the mandatory
/// configuration file.
#[derive(Debug, PartialEq, Eq)]
pub struct PluginArtifacts {
    pub primary: FileName,
    pub fallback: Option<FileName>,
    pub config: FileName,
}

pub ghost struct PluginArtifactsView {
    pub primary: FileNameView,
    pub fallback: Option<FileNameView>,
    pub config: FileNameView,
}

impl Clone for PluginArtifacts {
    fn clone(&self) -> (r: Self)
        ensures
            r == *self,
    {
        PluginArtifacts {
            primary: self.primary.clone(),
            fallback: match &self.fallback {
                Some(f) => Some(f.clone()),
                None => None,
            },
            config: self.config.clone(),
        }
    }
}

impl View for PluginArtifacts {
    type V = PluginArtifactsView;

    open spec fn view(&self) -> PluginArtifactsView {
        PluginArtifactsView {
            primary: self.primary@,
            fallback: opt_file_view(self.fallback),
            config: self.config@,
        }
    }
}

/// The configuration file that goes with a chosen primary binary: the
/// explicitly listed one when present, otherwise the primary's stem with the
/// configuration extension.
pub open spec fn spec_config_for(set: ArtifactSetView, primary: FileNameView) -> FileNameView {
    match set.toml {
        Some(t) => t,
        None => FileNameView { stem: primary.stem, ext: "toml"@ },
    }
}

/// The selection policy over one stem's candidate files. Both binary forms
/// present: the preferred form is primary and the other the fallback. One
/// form present: it is primary with no fallback. No binary: no candidate.
pub open spec fn spec_into_artifacts(set: ArtifactSetView, prefer_precompiled: bool) -> Option<
    PluginArtifactsView,
> {
    match (set.cwasm, set.wasm) {
        (Some(c), Some(w)) => if prefer_precompiled {
            Some(
                PluginArtifactsView {
                    primary: c,
                    fallback: Some(w),
                    config: spec_config_for(set, c),
                },
            )
        } else {
            Some(
                PluginArtifactsView {
                    primary: w,
                    fallback: Some(c),
                    config: spec_config_for(set, w),
                },
            )
        },
        (Some(c), None) => Some(
            PluginArtifactsView { primary: c, fallback: None, config: spec_config_for(set, c) },
        ),
        (None, Some(w)) => Some(
            PluginArtifactsView { primary: w, fallback: None, config: spec_config_for(set, w) },
        ),
        (None, None) => None,
    }
}


/// Law: over a candidate set holding both binary forms, the artifact order
/// matches the platform's preference — the preferred form is primary, the
/// unchosen form becomes the fallback — and the configuration file is the
/// explicit one when listed.
pub proof fn lemma_selection_order(set: ArtifactSetView, prefer_precompiled: bool)
    requires
        set.cwasm is Some,
        set.wasm is Some,
    ensures
        spec_into_artifacts(set, prefer_precompiled) matches Some(a) && {
            &&& a.primary == if prefer_precompiled {
                set.cwasm->Some_0
            } else {
                set.wasm->Some_0
            }
            &&& a.fallback == Some(
                if prefer_precompiled {
                    set.wasm->Some_0
                } else {
                    set.cwasm->Some_0
                },
            )
            &&& set.toml matches Some(t) ==> a.config == t
        },
{
}

pub open spec fn opt_artifacts_view(o: Option<PluginArtifacts>) -> Option<PluginArtifactsView> {
    match o {
        Some(a) => Some(a@),
        None => None,
    }
}

impl ArtifactSet {
    /// Choose the artifacts for this candidate set.
    ///
    /// With `prefer_precompiled` the precompiled form is tried before the
    /// source form; some target platforms cannot execute the precompiled form
    /// and ask for the opposite order.
    pub fn into_artifacts(self, prefer_precompiled: bool) -> (r: Option<PluginArtifacts>)
        ensures
            opt_artifacts_view(r) == spec_into_artifacts(self@, prefer_precompiled),
    {
        match (self.cwasm, self.wasm) {
            (Some(cwasm), Some(wasm)) => if prefer_precompiled {
                let config = match self.toml {
                    Some(t) => t,
                    None => cwasm.with_extension("toml"),
                };
                Some(PluginArtifacts { primary: cwasm, fallback: Some(wasm), config })
            } else {
                let config = match self.toml {
                    Some(t) => t,
                    None => wasm.with_extension("toml"),
                };
                Some(PluginArtifacts { primary: wasm, fallback: Some(cwasm), config })
            },
            (Some(cwasm), None) => {
                let config = match self.toml {
                    Some(t) => t,
                    None => cwasm.with_extension("toml"),
                };
                Some(PluginArtifacts { primary: cwasm, fallback: None, config })
            },
            (None, Some(wasm)) => {
                let config = match self.toml {
                    Some(t) => t,
                    None => wasm.with_extension("toml"),
                };
                Some(PluginArtifacts { primary: wasm, fallback: None, config })
            },
            (None, None) => None,
        }
    }
}

} // verus!
