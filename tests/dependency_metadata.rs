use uv_pip::dependency_metadata::{DependencyMetadata, MetadataLookup, StaticMetadata};

fn entry(name: &str, version: Option<&str>, requires: &[&str]) -> StaticMetadata {
    StaticMetadata {
        name: name.to_string(),
        version: version.map(|v| v.to_string()),
        requires_dist: requires.iter().map(|r| r.to_string()).collect(),
        requires_python: Some(">=3.8".to_string()),
        provides_extras: vec!["socks".to_string()],
    }
}

fn table() -> DependencyMetadata {
    DependencyMetadata::from_entries(vec![
        entry("flask", None, &["werkzeug"]),
        entry("flask", Some("3.0.0"), &["werkzeug>=3"]),
        entry("requests", Some("2.31.0"), &["urllib3"]),
        entry("only-global", None, &[]),
        entry("twice", Some("1.0"), &["a"]),
        entry("twice", Some("2.0"), &["b"]),
    ])
}

#[test]
fn exact_version_is_preferred() {
    let m = table().get("flask", Some("3.0.0")).unwrap();
    assert_eq!(m.name, "flask");
    assert_eq!(m.version, "3.0.0");
    assert_eq!(m.requires_dist, vec!["werkzeug>=3".to_string()]);
    assert_eq!(m.requires_python, Some(">=3.8".to_string()));
    assert_eq!(m.provides_extras, vec!["socks".to_string()]);
    assert!(!m.dynamic);
}

#[test]
fn global_entry_is_the_fallback() {
    let m = table().get("flask", Some("2.0.0")).unwrap();
    assert_eq!(m.version, "2.0.0");
    assert_eq!(m.requires_dist, vec!["werkzeug".to_string()]);
}

#[test]
fn versioned_lookup_misses_without_exact_or_global() {
    assert!(table().get("requests", Some("2.30.0")).is_none());
    assert!(table().get("missing", Some("1.0")).is_none());
}

#[test]
fn versionless_lookup_needs_one_versioned_entry() {
    let m = table().get("requests", None).unwrap();
    assert_eq!(m.version, "2.31.0");
    assert_eq!(m.requires_dist, vec!["urllib3".to_string()]);
    // Two entries: ambiguous.
    assert!(table().get("twice", None).is_none());
    assert!(table().get("flask", None).is_none());
    // One entry, but without a version.
    assert!(table().get("only-global", None).is_none());
    assert!(table().get("missing", None).is_none());
}

#[test]
fn first_exact_entry_wins() {
    let t = DependencyMetadata::from_entries(vec![
        entry("dup", Some("1.0"), &["first"]),
        entry("dup", Some("1.0"), &["second"]),
    ]);
    assert_eq!(t.get("dup", Some("1.0")).unwrap().requires_dist, vec!["first".to_string()]);
}

#[test]
fn values_lists_every_entry() {
    let t = table();
    assert_eq!(t.values().len(), 6);
    assert_eq!(t.values()[2].name, "requests");
    assert!(DependencyMetadata::from_entries(vec![]).get("flask", None).is_none());
}

#[test]
fn lookup_tells_misses_apart() {
    let t = table();
    assert!(matches!(t.lookup("missing", Some("1.0")), MetadataLookup::NoPackage));
    assert!(matches!(t.lookup("missing", None), MetadataLookup::NoPackage));
    assert!(matches!(t.lookup("requests", Some("1.0")), MetadataLookup::NoMatchingVersion));
    assert!(matches!(t.lookup("twice", None), MetadataLookup::Ambiguous));
    assert!(matches!(t.lookup("flask", None), MetadataLookup::Ambiguous));
    assert!(matches!(t.lookup("only-global", None), MetadataLookup::Unversioned));
    match t.lookup("only-global", Some("4.2")) {
        MetadataLookup::Found(m) => assert_eq!(m.version, "4.2"),
        _ => panic!("expected the global entry"),
    }
}

#[test]
fn versions_compare_as_text() {
    let t = DependencyMetadata::from_entries(vec![entry("pkg", Some("1.0"), &["x"])]);
    assert!(t.get("pkg", Some("1.0")).is_some());
    assert!(t.get("pkg", Some("1.0.0")).is_none());
}
