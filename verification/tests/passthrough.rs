use kryx::passthrough::{
    build, first_real_binary, gate_is_active, is_real_binary, passthrough_spawn_error, probe_dirs, requires_confirm,
    rewrite_pkg, shell, store, translate_shell_args, Route,
};

fn strings(v: &[&str]) -> Vec<String> {
    v.iter().map(|s| s.to_string()).collect()
}

#[test]
fn translate_shell_args_empty() {
    let out = translate_shell_args(&[]);
    assert_eq!(out, vec!["shell".to_string()]);
}

#[test]
fn translate_shell_args_legacy_single_pkg() {
    let out = translate_shell_args(&["-p".to_string(), "git".to_string()]);
    assert_eq!(out, vec!["shell".to_string(), "nixpkgs#git".to_string()]);
}

#[test]
fn translate_shell_args_legacy_long_flag() {
    let out = translate_shell_args(&["--packages".to_string(), "hello".to_string()]);
    assert_eq!(out, vec!["shell".to_string(), "nixpkgs#hello".to_string()]);
}

#[test]
fn translate_shell_args_legacy_multiple_pkgs() {
    let out = translate_shell_args(&["-p".to_string(), "git".to_string(), "hello".to_string()]);
    assert_eq!(
        out,
        vec!["shell".to_string(), "nixpkgs#git".to_string(), "nixpkgs#hello".to_string(),]
    );
}

#[test]
fn translate_shell_args_modern_passthrough() {
    let out = translate_shell_args(&["nixpkgs#git".to_string()]);
    assert_eq!(out, vec!["shell".to_string(), "nixpkgs#git".to_string()]);
}

#[test]
fn translate_shell_args_flake_ref_passthrough() {
    let out = translate_shell_args(&["github:foo/bar".to_string()]);
    assert_eq!(out, vec!["shell".to_string(), "github:foo/bar".to_string()]);
}

#[test]
fn translate_shell_args_legacy_with_command() {
    let out = translate_shell_args(&[
        "-p".to_string(),
        "git".to_string(),
        "-c".to_string(),
        "git --version".to_string(),
    ]);
    assert_eq!(
        out,
        vec![
            "shell".to_string(),
            "nixpkgs#git".to_string(),
            "-c".to_string(),
            "git --version".to_string(),
        ]
    );
}

#[test]
fn translate_shell_args_no_pkg_flag_passthrough() {
    let out = translate_shell_args(&[
        "nixpkgs#git".to_string(),
        "--run".to_string(),
        "echo hi".to_string(),
    ]);
    assert_eq!(
        out,
        vec![
            "shell".to_string(),
            "nixpkgs#git".to_string(),
            "--run".to_string(),
            "echo hi".to_string(),
        ]
    );
}

#[test]
fn translate_shell_args_positional_single_pkg() {
    let out = translate_shell_args(&["git".to_string()]);
    assert_eq!(out, vec!["shell".to_string(), "nixpkgs#git".to_string()]);
}

#[test]
fn translate_shell_args_positional_multiple_pkgs() {
    let out = translate_shell_args(&["git".to_string(), "hello".to_string()]);
    assert_eq!(
        out,
        vec!["shell".to_string(), "nixpkgs#git".to_string(), "nixpkgs#hello".to_string(),]
    );
}

#[test]
fn translate_shell_args_dashdash_terminator() {
    let out = translate_shell_args(&[
        "git".to_string(),
        "--".to_string(),
        "bash".to_string(),
        "-c".to_string(),
        "echo hi".to_string(),
    ]);
    assert_eq!(
        out,
        vec![
            "shell".to_string(),
            "nixpkgs#git".to_string(),
            "--".to_string(),
            "bash".to_string(),
            "-c".to_string(),
            "echo hi".to_string(),
        ]
    );
}

#[test]
fn translate_shell_args_dashdash_only() {
    let out = translate_shell_args(&[
        "--".to_string(),
        "bash".to_string(),
        "-c".to_string(),
        "echo hi".to_string(),
    ]);
    assert_eq!(
        out,
        vec![
            "shell".to_string(),
            "--".to_string(),
            "bash".to_string(),
            "-c".to_string(),
            "echo hi".to_string(),
        ]
    );
}

#[test]
fn rewrite_pkg_qualified_passthrough() {
    assert_eq!(rewrite_pkg("nixpkgs#git"), "nixpkgs#git");
    assert_eq!(rewrite_pkg("github:foo/bar"), "github:foo/bar");
    assert_eq!(rewrite_pkg("nixos-24.05#hello"), "nixos-24.05#hello");
    assert_eq!(rewrite_pkg("git"), "nixpkgs#git");
    assert_eq!(rewrite_pkg("hello"), "nixpkgs#hello");
}

#[test]
fn packages_flag_is_dropped_everywhere_before_dashdash() {
    let out = translate_shell_args(&strings(&["-p", "git", "--packages", "jq", "--", "-p"]));
    assert_eq!(out, strings(&["shell", "nixpkgs#git", "nixpkgs#jq", "--", "-p"]));
}

#[test]
fn rewriting_twice_changes_nothing() {
    for p in ["git", "nixpkgs#git", "github:a/b", "x"] {
        let once = rewrite_pkg(p);
        assert_eq!(rewrite_pkg(&once), once);
    }
}

#[test]
fn destructive_operations_need_confirmation() {
    assert!(requires_confirm("nix", &strings(&["store", "delete", "/nix/store/x"])));
    assert!(requires_confirm("nixos-install", &[]));
    assert!(requires_confirm("nixos-rebuild", &strings(&["boot"])));
    assert!(!requires_confirm("nixos-rebuild", &strings(&["switch"])));
    assert!(!requires_confirm("nix", &strings(&["store", "optimise"])));
    assert!(!requires_confirm("nix", &strings(&["build", "."])));
    assert!(gate_is_active("nix", "store", &strings(&["store", "delete", "x"])));
    assert!(gate_is_active("nix", "store", &strings(&["gc"])));
    assert!(!gate_is_active("nix", "build", &strings(&["."])));
}

#[test]
fn routes_of_pass_through_commands() {
    match build(strings(&["."])) {
        Route::Direct { binary_path, args, label } => {
            assert_eq!(binary_path, "/run/current-system/sw/bin/nix");
            assert_eq!(args, strings(&["build", "."]));
            assert_eq!(label, "build");
        }
        Route::Managed { .. } => panic!("build runs nix directly"),
    }
    match shell(strings(&["--help"])) {
        Route::Managed { binary_name, args, label } => {
            assert_eq!(binary_name, "nix");
            assert_eq!(args, strings(&["--help"]));
            assert_eq!(label, "shell");
        }
        Route::Direct { .. } => panic!("help goes through the help pipeline"),
    }
    match store(strings(&["gc"])) {
        Route::Managed { binary_name, args, label } => {
            assert_eq!(binary_name, "nix");
            assert_eq!(args, strings(&["store", "gc"]));
            assert_eq!(label, "store");
        }
        Route::Direct { .. } => panic!("store is gated"),
    }
}

#[test]
fn probing_for_real_binaries() {
    let dirs = probe_dirs(&Some("/a/bin::/b".to_string()));
    assert_eq!(
        dirs,
        strings(&[
            "/run/current-system/sw/bin",
            "/run/wrappers/bin",
            "/usr/bin",
            "/usr/local/bin",
            "/a/bin",
            "",
            "/b",
        ])
    );
    assert_eq!(probe_dirs(&None).len(), 4);
    assert!(is_real_binary(true, 1000));
    assert!(!is_real_binary(true, 999));
    assert!(!is_real_binary(false, 5_000_000));
    assert_eq!(
        passthrough_spawn_error("/bin/nix", "build", "no such file"),
        "Falha ao invocar '/bin/nix' para 'kryx build': no such file"
    );
}

#[test]
fn translation_after_dashdash_and_twice() {
    let args = strings(&["-c", "x", "git", "--", "-p", "y"]);
    let out = translate_shell_args(&args);
    assert_eq!(out, strings(&["shell", "-c", "x", "nixpkgs#git", "--", "-p", "y"]));
    let mut prefix = translate_shell_args(&args[..3]);
    prefix.extend_from_slice(&args[3..]);
    assert_eq!(out, prefix);
    for a in [
        strings(&["--foo", "-p", "git", "hello"]),
        strings(&["-c", "-p", "git"]),
        strings(&["-p", "--", "x"]),
        strings(&["git", "--run", "echo hi"]),
    ] {
        let r = translate_shell_args(&a);
        assert_eq!(translate_shell_args(&r[1..]), r);
    }
}

#[test]
fn first_probe_with_a_real_binary() {
    assert_eq!(first_real_binary(&vec![None, Some((true, 400)), Some((false, 5000)), Some((true, 5000)), Some((true, 9000))]), Some(3));
    assert_eq!(first_real_binary(&vec![None, Some((true, 999))]), None);
}
