use cargo_pgo::build::{compose_flags, rustflags_overlay, EnvOverlay};

#[test]
fn compose_onto_empty_flags() {
    assert_eq!(compose_flags(String::new(), "-C foo"), " -C foo");
}

#[test]
fn compose_onto_existing_flags() {
    assert_eq!(compose_flags("-C bar".to_string(), "-C foo"), "-C bar -C foo");
}

#[test]
fn compose_keeps_existing_flags_whole() {
    let current = "  -C target-cpu=native --cfg 'a b' ";
    let composed = compose_flags(current.to_string(), "-Cprofile-generate=/tmp/p");
    assert!(composed.starts_with(current));
    assert_eq!(&composed[current.len()..], " -Cprofile-generate=/tmp/p");
}

#[test]
fn compose_with_nothing_to_add_still_separates() {
    assert_eq!(compose_flags("-C bar".to_string(), ""), "-C bar ");
    assert_eq!(compose_flags(String::new(), ""), " ");
}

#[test]
fn compose_counts_characters_not_bytes() {
    assert_eq!(compose_flags("--cfg é".to_string(), "-C ü"), "--cfg é -C ü");
}

#[test]
fn overlay_for_unset_variable() {
    let overlay = rustflags_overlay(None, "-C foo");
    assert_eq!(overlay.get("RUSTFLAGS"), Some(&" -C foo".to_string()));
    assert_eq!(
        overlay.into_entries(),
        vec![("RUSTFLAGS".to_string(), " -C foo".to_string())]
    );
}

#[test]
fn overlay_for_set_variable() {
    let overlay = rustflags_overlay(Some("-C bar".to_string()), "-C foo");
    assert_eq!(
        overlay.into_entries(),
        vec![("RUSTFLAGS".to_string(), "-C bar -C foo".to_string())]
    );
}

#[test]
fn new_overlay_sets_nothing() {
    let overlay = EnvOverlay::new();
    assert_eq!(overlay.get("RUSTFLAGS"), None);
    assert!(overlay.into_entries().is_empty());
}

#[test]
fn overlay_holds_each_name_once() {
    let overlay = EnvOverlay::new()
        .with_var("A".to_string(), "1".to_string())
        .with_var("B".to_string(), "2".to_string())
        .with_var("A".to_string(), "3".to_string());
    assert_eq!(overlay.get("A"), Some(&"3".to_string()));
    assert_eq!(overlay.get("B"), Some(&"2".to_string()));
    assert_eq!(overlay.get("C"), None);
    let mut entries = overlay.into_entries();
    entries.sort();
    assert_eq!(
        entries,
        vec![
            ("A".to_string(), "3".to_string()),
            ("B".to_string(), "2".to_string())
        ]
    );
}

#[test]
fn overlay_names_are_case_sensitive() {
    let overlay = EnvOverlay::new()
        .with_var("rustflags".to_string(), "x".to_string())
        .with_var("RUSTFLAGS".to_string(), "y".to_string());
    assert_eq!(overlay.get("rustflags"), Some(&"x".to_string()));
    assert_eq!(overlay.get("RUSTFLAGS"), Some(&"y".to_string()));
    assert_eq!(overlay.into_entries().len(), 2);
}
