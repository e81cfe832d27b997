use kryx::help::{help_for_binary, help_for_nix_subcmd, help_store, help_text, KryxHelp, NativeHelp};
use kryx::passthrough::{decide_passthrough, PassthroughDecision};

#[test]
fn help_renders_its_sections() {
    let h = KryxHelp::new("demo", "A demo")
        .option("--confirm", "run it")
        .example("kryx demo --confirm")
        .note("Careful.");
    let s = h.render();
    assert!(s.starts_with("kryx-demo (0.1.0) — A demo\n\nUSAGE:\n    kryx demo [KRYX_OPTIONS] [-- NATIVE_ARGS...]\n"));
    assert!(s.contains("    --confirm                       run it\n"));
    assert!(s.contains("NATIVE PASSTHROUGH:\n"));
    assert!(s.contains("\n    Careful.\n"));
    assert!(s.ends_with("EXAMPLES:\n    kryx demo --confirm\n"));
}

#[test]
fn help_lookup_by_binary_and_subcommand() {
    assert_eq!(help_for_binary("nix-collect-garbage").map(|h| h.command), Some("gc".to_string()));
    assert!(help_for_binary("ls").is_none());
    assert_eq!(help_for_nix_subcmd("store").map(|h| h.command), help_store().command.into());
    assert!(help_for_nix_subcmd("build").is_none());
}

#[test]
fn hybrid_help_text() {
    let h = KryxHelp::new("x", "y");
    let t = help_text("nix", &h, &NativeHelp::NotFound);
    assert!(t.starts_with(&h.render()));
    assert!(t.contains("NATIVE BINARY HELP (nix --help):"));
    assert!(t.ends_with("(binary `nix` not found via `discover_real_bin` — install it or set KRYX_BIN_DIR)\n"));
    let t = help_text(
        "nix",
        &h,
        &NativeHelp::Output { stdout: "usage".to_string(), stderr: "warn".to_string() },
    );
    assert!(t.ends_with("usage\n--- stderr from native binary ---\nwarn"));
}

#[test]
fn help_comes_before_the_gate() {
    let args = vec!["store".to_string(), "--help".to_string()];
    match decide_passthrough("nix", &args, "store", false) {
        PassthroughDecision::ShowHelp(h) => assert_eq!(h.command, "store"),
        _ => panic!("expected help"),
    }
    let args = vec!["store".to_string(), "delete".to_string(), "/nix/store/x".to_string()];
    match decide_passthrough("nix", &args, "store", false) {
        PassthroughDecision::Fail(m) => assert!(m.starts_with("kryx store delete é destrutivo e exige --confirm")),
        _ => panic!("expected a refusal"),
    }
    let args = vec!["store".to_string(), "delete".to_string(), "--confirm".to_string()];
    assert!(matches!(decide_passthrough("nix", &args, "store", false), PassthroughDecision::Forward));
    assert!(matches!(decide_passthrough("nix", &args, "store", true), PassthroughDecision::Forward));
}

#[test]
fn refusal_names_what_the_user_typed() {
    let args = kryx::passthrough::store(vec!["gc".to_string()]);
    let args = match args {
        kryx::passthrough::Route::Managed { args, .. } => args,
        kryx::passthrough::Route::Direct { .. } => panic!("store is gated"),
    };
    match decide_passthrough("nix", &args, "store", false) {
        PassthroughDecision::Fail(m) => assert!(m.starts_with("kryx store gc é destrutivo e exige --confirm")),
        _ => panic!("expected a refusal"),
    }
    let args = vec!["delete".to_string(), "/nix/store/x".to_string()];
    match decide_passthrough("nix", &args, "store", false) {
        PassthroughDecision::Fail(m) => assert!(m.starts_with("kryx store delete é destrutivo")),
        _ => panic!("expected a refusal"),
    }
}
