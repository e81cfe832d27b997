use kryx::ui::{divider, render_banner, section_header, VERSION};

#[test]
fn banner_is_non_empty_and_has_version() {
    let b = render_banner();
    assert!(!b.is_empty());
    assert!(b.contains("KryonixOS"));
    assert!(b.contains(&VERSION.to_string()));
}

#[test]
fn section_header_contains_title() {
    let h = section_header("Phase A");
    assert!(h.contains("Phase A"));
    assert!(h.contains("─"));
}

#[test]
fn divider_is_seventy_two_lines() {
    let d = divider();
    assert_eq!(d.chars().count(), 72);
    assert!(d.chars().all(|c| c == '─'));
}
