use awasmlib::artifacts::{ArtifactSet, FileName};
use awasmlib::resolver::resolve_directory;
use awasmlib::text::{parse_u64, str_eq, str_lt};

fn entry(stem: &str, ext: &str) -> FileName {
    FileName { stem: stem.to_string(), ext: ext.to_string() }
}

#[test]
fn configs_alone_yield_empty_registry() {
    let entries = vec![entry("alpha", "toml"), entry("beta", "toml"), entry("gamma", "toml")];
    let registry = resolve_directory(&entries, true);
    assert!(registry.is_empty());
}

#[test]
fn empty_listing_yields_empty_registry() {
    let entries: Vec<FileName> = Vec::new();
    let registry = resolve_directory(&entries, true);
    assert!(registry.is_empty());
}

#[test]
fn both_forms_prefer_precompiled() {
    let entries = vec![entry("alpha", "wasm"), entry("alpha", "cwasm"), entry("alpha", "toml")];
    let registry = resolve_directory(&entries, true);
    assert_eq!(registry.len(), 1);
    let p = &registry[0];
    assert_eq!(p.name, "alpha");
    assert_eq!(p.artifacts.primary, entry("alpha", "cwasm"));
    assert_eq!(p.artifacts.fallback, Some(entry("alpha", "wasm")));
    assert_eq!(p.artifacts.config, entry("alpha", "toml"));
}

#[test]
fn both_forms_prefer_source() {
    let entries = vec![entry("alpha", "wasm"), entry("alpha", "cwasm"), entry("alpha", "toml")];
    let registry = resolve_directory(&entries, false);
    assert_eq!(registry.len(), 1);
    let p = &registry[0];
    assert_eq!(p.artifacts.primary, entry("alpha", "wasm"));
    assert_eq!(p.artifacts.fallback, Some(entry("alpha", "cwasm")));
    assert_eq!(p.artifacts.config, entry("alpha", "toml"));
}

#[test]
fn one_form_has_no_fallback() {
    let entries = vec![entry("alpha", "wasm"), entry("alpha", "toml")];
    let registry = resolve_directory(&entries, true);
    assert_eq!(registry.len(), 1);
    assert_eq!(registry[0].artifacts.primary, entry("alpha", "wasm"));
    assert_eq!(registry[0].artifacts.fallback, None);
}

#[test]
fn binary_without_config_is_excluded() {
    let entries = vec![
        entry("alpha", "wasm"),
        entry("alpha", "cwasm"),
        entry("beta", "wasm"),
        entry("beta", "toml"),
    ];
    let registry = resolve_directory(&entries, true);
    assert_eq!(registry.len(), 1);
    assert_eq!(registry[0].name, "beta");
}

#[test]
fn unrelated_extensions_are_ignored() {
    let entries = vec![entry("alpha", "txt"), entry("alpha", "toml"), entry("notes", "md")];
    let registry = resolve_directory(&entries, true);
    assert!(registry.is_empty());
}

#[test]
fn registry_is_sorted_by_name() {
    let entries = vec![
        entry("gamma", "wasm"),
        entry("gamma", "toml"),
        entry("alpha", "wasm"),
        entry("alpha", "toml"),
        entry("beta", "wasm"),
        entry("beta", "toml"),
    ];
    let registry = resolve_directory(&entries, true);
    let names: Vec<&str> = registry.iter().map(|p| p.name.as_str()).collect();
    assert_eq!(names, vec!["alpha", "beta", "gamma"]);
}

#[test]
fn into_artifacts_derives_config_from_primary() {
    let set = ArtifactSet {
        wasm: Some(entry("alpha", "wasm")),
        cwasm: None,
        toml: None,
    };
    let artifacts = set.into_artifacts(true).unwrap();
    assert_eq!(artifacts.primary, entry("alpha", "wasm"));
    assert_eq!(artifacts.config, entry("alpha", "toml"));
}

#[test]
fn into_artifacts_without_binaries_is_none() {
    let set = ArtifactSet { wasm: None, cwasm: None, toml: Some(entry("alpha", "toml")) };
    assert!(set.into_artifacts(true).is_none());
}

#[test]
fn into_artifacts_explicit_config_wins() {
    let set = ArtifactSet {
        wasm: Some(entry("alpha", "wasm")),
        cwasm: Some(entry("alpha", "cwasm")),
        toml: Some(entry("alpha", "toml")),
    };
    let artifacts = set.into_artifacts(false).unwrap();
    assert_eq!(artifacts.primary, entry("alpha", "wasm"));
    assert_eq!(artifacts.fallback, Some(entry("alpha", "cwasm")));
    assert_eq!(artifacts.config, entry("alpha", "toml"));
}

#[test]
fn with_extension_swaps_only_the_extension() {
    let f = entry("alpha", "cwasm");
    assert_eq!(f.with_extension("toml"), entry("alpha", "toml"));
}

#[test]
fn string_order_helpers() {
    assert!(str_eq("alpha", "alpha"));
    assert!(!str_eq("alpha", "alphab"));
    assert!(str_lt("alpha", "beta"));
    assert!(str_lt("alpha", "alphab"));
    assert!(!str_lt("beta", "alpha"));
    assert!(!str_lt("alpha", "alpha"));
}

#[test]
fn parse_u64_values() {
    assert_eq!(parse_u64("0"), Some(0));
    assert_eq!(parse_u64("42"), Some(42));
    assert_eq!(parse_u64("18446744073709551615"), Some(u64::MAX));
    assert_eq!(parse_u64("18446744073709551616"), None);
    assert_eq!(parse_u64(""), None);
    assert_eq!(parse_u64("12x"), None);
    assert_eq!(parse_u64("-4"), None);
}

#[test]
fn parse_u64_accepts_one_leading_plus() {
    assert_eq!(parse_u64("+42"), Some(42));
    assert_eq!(parse_u64("+0"), Some(0));
    assert_eq!(parse_u64("+"), None);
    assert_eq!(parse_u64("++42"), None);
    assert_eq!(parse_u64("4+2"), None);
}

#[test]
fn names_order_by_unicode_scalar_value() {
    let entries = vec![
        entry("\u{e4}pfel", "wasm"),
        entry("\u{e4}pfel", "toml"),
        entry("birne", "wasm"),
        entry("birne", "toml"),
    ];
    let registry = resolve_directory(&entries, true);
    let names: Vec<&str> = registry.iter().map(|p| p.name.as_str()).collect();
    // 'b' has a smaller scalar value than '\u{e4}'.
    assert_eq!(names, vec!["birne", "\u{e4}pfel"]);
}

#[test]
fn duplicate_listing_entries_collapse_to_one_plugin() {
    let entries = vec![
        entry("alpha", "wasm"),
        entry("alpha", "wasm"),
        entry("alpha", "toml"),
    ];
    let registry = resolve_directory(&entries, true);
    assert_eq!(registry.len(), 1);
}
