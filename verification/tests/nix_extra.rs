use kryx::nix_extra::{
    child_exit_code, copy, nh_clean_all, nh_os_variant, nixos_rebuild, prefetch, registry,
    spawn_error,
};

#[test]
fn nh_os_variant_validates_input() {
    let r = nh_os_variant("nope", &[]);
    assert!(r.is_err());
    assert!(r.err().unwrap().contains("unknown nh os variant"));
}

#[test]
fn nh_os_variant_accepts_known_variants() {
    for v in &["boot", "test", "dry-activate", "build"] {
        let r = nh_os_variant(v, &[]);
        if let Err(e) = r {
            assert!(
                !e.contains("unknown nh os variant"),
                "validator should accept {} but got: {}",
                v,
                e
            );
        }
    }
}

#[test]
fn nh_os_variant_call_and_error_text() {
    let c = nh_os_variant("dry-build", &["--verbose".to_string()]).ok().unwrap();
    assert_eq!(c.binaries, vec!["nh"]);
    assert_eq!(c.args, vec!["os", "dry-build", "--verbose"]);
    assert_eq!(c.missing, "nh not found in PATH");
    let e = nh_os_variant("switch", &[]).err().unwrap();
    assert_eq!(e, "unknown nh os variant 'switch'. Valid: boot, test, dry-activate, dry-build, build");
}

#[test]
fn native_calls_of_the_extra_subcommands() {
    let c = prefetch(&["https://x".to_string()]);
    assert_eq!(c.binaries, vec!["nix-prefetch-url", "nix"]);
    assert_eq!(c.args, vec!["https://x"]);
    assert_eq!(c.missing, "nix-prefetch-url not found in PATH");
    let c = registry(&["list".to_string()]);
    assert_eq!(c.binaries, vec!["nix"]);
    assert_eq!(c.args, vec!["registry", "list"]);
    let c = copy(&[]);
    assert_eq!(c.args, vec!["copy"]);
    let c = nh_clean_all(&["--keep".to_string(), "3".to_string()]);
    assert_eq!(c.args, vec!["clean", "all", "--keep", "3"]);
    let c = nixos_rebuild(&["boot".to_string()]);
    assert_eq!(c.binaries, vec!["nixos-rebuild"]);
    assert_eq!(c.args, vec!["boot"]);
    assert_eq!(c.missing, "nixos-rebuild not found in PATH");
}

#[test]
fn child_failures() {
    assert_eq!(child_exit_code(Some(3)), 3);
    assert_eq!(child_exit_code(None), 1);
    assert_eq!(spawn_error("/bin/nh", "denied"), "failed to spawn /bin/nh: denied");
}

#[test]
fn nhos_needs_a_variant() {
    assert_eq!(
        kryx::nix_extra::nhos_split(&[]).err(),
        Some("kryx nhos: missing variant. Use: boot, test, dry-activate, dry-build, build".to_string())
    );
    let (v, rest) = kryx::nix_extra::nhos_split(&["boot".to_string(), "--fast".to_string()]).ok().unwrap();
    assert_eq!(v, "boot");
    assert_eq!(rest, vec!["--fast"]);
}
