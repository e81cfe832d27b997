use kryx::diagnostics::{
    build_report, check_cpu_temperature, check_disk, check_git, check_identity, check_network,
    check_security, check_services, check_system, check_systemd_unit, check_zfs, doctor_outcome,
    exit_failure_message, first_lines, hostid_eval_args, hostname_from, meminfo_kb, pick_real_nix,
    resolve_command, sensor_readings, spawn_failure_message, thermal_celsius, zfs_trim_eval_args,
    CheckResult, CheckStatus, HostIdentity, Role, StoreEntry,
};

fn ok(s: &str) -> Result<String, String> {
    Ok(s.to_string())
}

fn err(s: &str) -> Result<String, String> {
    Err(s.to_string())
}

fn last(checks: &[CheckResult]) -> (&str, &str, CheckStatus, &str) {
    let c = checks.last().unwrap();
    (c.category.as_str(), c.name.as_str(), c.status, c.message.as_str())
}

#[test]
fn systemd_unit_states() {
    let mut checks = Vec::new();
    check_systemd_unit(&mut checks, "services", "sshd.service", true, &ok("active\n"));
    assert_eq!(last(&checks), ("services", "sshd.service", CheckStatus::Pass, "active"));
    check_systemd_unit(&mut checks, "services", "sshd.service", true, &ok(" inactive \n"));
    assert_eq!(last(&checks), ("services", "sshd.service", CheckStatus::Warn, "inactive"));
    check_systemd_unit(&mut checks, "services", "kryxd.service", false, &ok("failed"));
    assert_eq!(last(&checks), ("services", "kryxd.service", CheckStatus::Fail, "failed"));
    check_systemd_unit(&mut checks, "services", "x", false, &err("falha ao executar systemctl: x"));
    assert_eq!(last(&checks), ("services", "x", CheckStatus::Warn, "falha ao executar systemctl: x"));
}

#[test]
fn service_checks_follow_the_critical_units() {
    let mut checks = Vec::new();
    check_services(&mut checks, vec![ok("active"), ok("inactive"), ok("inactive")]);
    assert_eq!(checks.len(), 3);
    assert_eq!(checks[0].name, "kryxd.service");
    assert_eq!(checks[0].status, CheckStatus::Pass);
    assert_eq!(checks[1].name, "NetworkManager.service");
    assert_eq!(checks[1].status, CheckStatus::Fail);
    assert_eq!(checks[2].name, "sshd.service");
    assert_eq!(checks[2].status, CheckStatus::Warn);
}

#[test]
fn identity_check() {
    let mut checks = Vec::new();
    let id = HostIdentity { uuid: "u-1".to_string(), role: Role::ThinkServer, edition: "pro".to_string() };
    check_identity(&mut checks, &Ok(id));
    assert_eq!(
        last(&checks),
        ("identity", "host-identity", CheckStatus::Pass, "uuid=u-1 role=ThinkServer edition=pro")
    );
    check_identity(&mut checks, &Err("identity.json ausente".to_string()));
    assert_eq!(last(&checks), ("identity", "host-identity", CheckStatus::Fail, "identity.json ausente"));
}

#[test]
fn system_checks() {
    let mut checks = Vec::new();
    check_system(
        &mut checks,
        &ok("/nix/store/abc-nixos-system"),
        &ok("a.service failed\nb.service failed\nc\nd\n"),
        "rocha",
        &ok("active"),
    );
    assert_eq!(checks[0].status, CheckStatus::Pass);
    assert_eq!(checks[0].message, "/nix/store/abc-nixos-system");
    assert_eq!(checks[1].status, CheckStatus::Fail);
    assert_eq!(checks[1].message, "a.service failed; b.service failed; c");
    assert_eq!(checks[2].name, "home-manager-rocha.service");
    assert_eq!(checks[2].status, CheckStatus::Pass);
    let mut checks = Vec::new();
    check_system(&mut checks, &err("No such file"), &ok("  \n"), "ana", &ok("inactive"));
    assert_eq!(checks[0].message, "não foi possível ler /run/current-system: No such file");
    assert_eq!(checks[0].status, CheckStatus::Fail);
    assert_eq!(checks[1].message, "nenhuma unit falhada");
    assert_eq!(checks[2].status, CheckStatus::Warn);
}

#[test]
fn git_checks() {
    let mut checks = Vec::new();
    check_git(&mut checks, "/etc/kryonix", false, &ok(""));
    assert_eq!(last(&checks), ("git", "/etc/kryonix", CheckStatus::Warn, "diretório não existe"));
    check_git(&mut checks, "/etc/kryonix", true, &ok("## main...origin/main\n"));
    assert_eq!(last(&checks), ("git", "/etc/kryonix", CheckStatus::Pass, "## main...origin/main"));
    check_git(&mut checks, "/etc/kryonix", true, &ok("## main...origin/main [ahead 1]\n"));
    assert_eq!(last(&checks).2, CheckStatus::Warn);
    check_git(&mut checks, "/etc/kryonixos", true, &ok("## main\n M a.nix\n?? b\n"));
    assert_eq!(
        last(&checks),
        ("git", "/etc/kryonixos", CheckStatus::Warn, "## main; mudanças locais:  M a.nix; ?? b")
    );
    check_git(&mut checks, "/etc/kryonixos", true, &ok(""));
    assert_eq!(last(&checks), ("git", "/etc/kryonixos", CheckStatus::Pass, "status indisponível"));
}

#[test]
fn zfs_checks() {
    let mut checks = Vec::new();
    check_zfs(&mut checks, &ok("8425e349\n"), &ok("8425e349"), &ok("all pools are healthy\n"), &ok("true\n"));
    assert_eq!(checks[0].status, CheckStatus::Pass);
    assert_eq!(checks[0].message, "runtime/config=8425e349");
    assert_eq!(checks[1].message, "all pools are healthy");
    assert_eq!(checks[2].message, "services.zfs.trim.enable=true");
    let mut checks = Vec::new();
    check_zfs(&mut checks, &ok("aa"), &ok("bb"), &ok("no pools available"), &ok("false"));
    assert_eq!(checks[0].status, CheckStatus::Fail);
    assert_eq!(checks[0].message, "runtime=aa config=bb");
    assert_eq!(checks[1].status, CheckStatus::Warn);
    assert_eq!(checks[1].message, "nenhum pool ZFS disponível");
    assert_eq!(checks[2].status, CheckStatus::Warn);
    assert_eq!(checks[2].message, "services.zfs.trim.enable=false");
    let mut checks = Vec::new();
    check_zfs(&mut checks, &err("e1"), &err("e2"), &ok("pool: tank\n state: DEGRADED\nx\ny\nz\n"), &err("e3"));
    assert_eq!(checks[0].message, "e1");
    assert_eq!(checks[1].status, CheckStatus::Fail);
    assert_eq!(checks[1].message, "pool: tank;  state: DEGRADED; x; y");
    assert_eq!(checks[2].message, "e3");
    let mut checks = Vec::new();
    check_zfs(&mut checks, &ok("aa"), &err("e2"), &err("p"), &ok("true"));
    assert_eq!(checks[0].message, "e2");
    assert_eq!(checks[0].status, CheckStatus::Warn);
}

#[test]
fn zfs_eval_arguments() {
    assert_eq!(
        hostid_eval_args("glacier"),
        vec![
            "--extra-experimental-features",
            "nix-command flakes",
            "eval",
            "--impure",
            "--raw",
            "/etc/kryonixos#nixosConfigurations.glacier.config.networking.hostId",
        ]
    );
    assert_eq!(
        zfs_trim_eval_args("glacier")[5],
        "/etc/kryonixos#nixosConfigurations.glacier.config.services.zfs.trim.enable"
    );
    assert_eq!(zfs_trim_eval_args("glacier")[4], "--json");
}

#[test]
fn network_checks() {
    let mut checks = Vec::new();
    let ip = "2: enp3s0    inet 192.168.0.10/24 brd 192.168.0.255 scope global\n3: tailscale0    inet 100.64.0.1/32 scope global\nbad\n";
    check_network(
        &mut checks,
        &ok(ip),
        &ok("100.64.0.1 glacier rocha@ linux -\nmore\n"),
        &Some("# x\nnameserver 1.1.1.1\n".to_string()),
    );
    assert_eq!(checks[0].message, "enp3s0=192.168.0.10 tailscale0=100.64.0.1");
    assert_eq!(checks[0].status, CheckStatus::Pass);
    assert_eq!(checks[1].message, "100.64.0.1 glacier rocha@ linux -");
    assert_eq!(checks[2].status, CheckStatus::Pass);
    let mut checks = Vec::new();
    check_network(&mut checks, &ok("  \n"), &ok(""), &None);
    assert_eq!(checks[0].message, "nenhum IPv4 global encontrado");
    assert_eq!(checks[1].message, "tailscale sem saída para --self");
    assert_eq!(checks[2].message, "nenhum nameserver em /etc/resolv.conf");
    assert_eq!(checks[2].status, CheckStatus::Warn);
}

#[test]
fn disk_checks() {
    let df = "Filesystem 1024-blocks Used Available Capacity Mounted on\n\
              tank/root 100 96 4 96% /\n\
              tank/nix 100 86 14 86% /nix\n\
              tank/data 100 99 1 99% /data\n\
              short line\n";
    let mut checks = Vec::new();
    check_disk(&mut checks, &Some(df.to_string()));
    assert_eq!(last(&checks), ("disk", "space", CheckStatus::Fail, "critico: /=96%"));
    let df2 = "h\nfs 1 1 1 85% /home\nfs 1 1 1 90%% /var/log\n";
    check_disk(&mut checks, &Some(df2.to_string()));
    assert_eq!(last(&checks), ("disk", "space", CheckStatus::Warn, "alto: /home=85%, /var/log=90%"));
    check_disk(&mut checks, &Some("h\nfs 1 1 1 10% /boot\n".to_string()));
    assert_eq!(last(&checks), ("disk", "space", CheckStatus::Pass, "mounts criticos ok"));
    let n = checks.len();
    check_disk(&mut checks, &None);
    assert_eq!(checks.len(), n);
}

#[test]
fn security_checks() {
    let mut checks = Vec::new();
    check_security(&mut checks, &Some("#!/bin/sh\necho '[Kryonix Guard] bloqueado'".to_string()), Some(0o104755));
    assert_eq!(checks[0].status, CheckStatus::Pass);
    assert_eq!(checks[1].status, CheckStatus::Pass);
    assert_eq!(checks[1].message, "setuid bit presente");
    let mut checks = Vec::new();
    check_security(&mut checks, &None, Some(0o100755));
    assert_eq!(checks[0].message, "Kryonix Guard v2 nao detectado");
    assert_eq!(checks[1].status, CheckStatus::Fail);
    let mut checks = Vec::new();
    check_security(&mut checks, &Some("real nix".to_string()), None);
    assert_eq!(checks[0].status, CheckStatus::Warn);
    assert_eq!(checks[1].message, "/run/wrappers/bin/sudo nao encontrado");
}

#[test]
fn temperature_checks() {
    let mut checks = Vec::new();
    check_cpu_temperature(&mut checks, Some(95));
    assert_eq!(last(&checks), ("cpu", "temperature", CheckStatus::Fail, "CPU 95C critico"));
    check_cpu_temperature(&mut checks, Some(81));
    assert_eq!(last(&checks), ("cpu", "temperature", CheckStatus::Warn, "CPU 81C alto"));
    check_cpu_temperature(&mut checks, Some(-5));
    assert_eq!(last(&checks), ("cpu", "temperature", CheckStatus::Pass, "CPU -5C"));
    let n = checks.len();
    check_cpu_temperature(&mut checks, None);
    assert_eq!(checks.len(), n);
}

#[test]
fn sensor_and_thermal_readings() {
    let out = "k10temp-pci\nTctl:         +45.2°C\nPackage id 0:  +51.0°C  (high = +80.0°C)\nfan: 1200\n";
    assert_eq!(sensor_readings(out), vec!["45.2", "51.0"]);
    assert!(sensor_readings("Tctl: 45").is_empty());
    assert_eq!(thermal_celsius("45500\n"), Some(45));
    assert_eq!(thermal_celsius("-1500"), Some(-1));
    assert_eq!(thermal_celsius("x"), None);
}

#[test]
fn report_counts_and_exit_code() {
    let mut checks = Vec::new();
    check_cpu_temperature(&mut checks, Some(95));
    check_cpu_temperature(&mut checks, Some(50));
    check_cpu_temperature(&mut checks, Some(85));
    check_cpu_temperature(&mut checks, Some(99));
    let id = HostIdentity { uuid: "u".to_string(), role: Role::Core, edition: "home".to_string() };
    let r = build_report("glacier".to_string(), &Ok(id), checks);
    assert_eq!(r.host, "glacier");
    assert_eq!((r.summary.pass, r.summary.warn, r.summary.fail), (1, 1, 2));
    assert_eq!(r.summary.pass + r.summary.warn + r.summary.fail, r.checks.len());
    assert_eq!(r.summary.exit_code, 1);
    assert_eq!(r.role.as_deref(), Some("Core"));
    assert_eq!(r.edition.as_deref(), Some("home"));
    assert_eq!(doctor_outcome(&r.summary), Err("Doctor encontrou 2 falha(s) crítica(s).".to_string()));

    let r = build_report("h".to_string(), &Err("x".to_string()), Vec::new());
    assert_eq!(r.summary.exit_code, 0);
    assert_eq!(r.role, None);
    assert_eq!(doctor_outcome(&r.summary), Ok(()));
}

#[test]
fn probe_helpers() {
    assert_eq!(first_lines("a\nb\nc", 2), "a; b");
    assert_eq!(first_lines("  a  ", 5), "a");
    assert_eq!(hostname_from(&Some("glacier\n".to_string())), "glacier");
    assert_eq!(hostname_from(&None), "unknown");
    assert_eq!(resolve_command("nix", Some("/nix/store/x-nix-2.24/bin/nix".to_string())), "/nix/store/x-nix-2.24/bin/nix");
    assert_eq!(resolve_command("nix", None), "nix");
    assert_eq!(resolve_command("git", Some("/x".to_string())), "git");
    assert_eq!(spawn_failure_message("zpool", "not found"), "falha ao executar zpool: not found");
    assert_eq!(exit_failure_message("git", "exit status: 128", " \n", " out \n"), "git saiu com exit status: 128: out");
    assert_eq!(exit_failure_message("git", "exit status: 1", "err", "out"), "git saiu com exit status: 1: err");
    assert_eq!(meminfo_kb("MemTotal:       16384000 kB\nMemAvailable: 100 kB\n", "MemAvailable:"), Some(100));
    assert_eq!(meminfo_kb("MemTotal: x kB\nMemTotal: 7 kB\n", "MemTotal:"), Some(7));
    assert_eq!(meminfo_kb("SwapFree: 1\n", "SwapTotal:"), None);
}

#[test]
fn real_nix_is_the_last_large_nix_binary() {
    let e = |name: &str, path: &str, size: u64| StoreEntry {
        name: name.to_string(),
        bin_path: path.to_string(),
        size,
    };
    let entries = vec![
        e("aaa-nix-2.18.1", "/nix/store/aaa-nix-2.18.1/bin/nix", 5_000_000),
        e("zzz-nix-wrapper", "/nix/store/zzz-nix-wrapper/bin/nix", 5_000_000),
        e("ccc-nix-2.24.0", "/nix/store/ccc-nix-2.24.0/bin/nix", 400),
        e("bbb-nix-2.20.0", "/nix/store/bbb-nix-2.20.0/bin/nix", 3_000_000),
    ];
    assert_eq!(pick_real_nix(&entries), Some("/nix/store/bbb-nix-2.20.0/bin/nix".to_string()));
    assert_eq!(pick_real_nix(&vec![e("x-nix-2.1", "/p", 10)]), None);
}

#[test]
fn human_report_rows() {
    let c = CheckResult {
        category: "zfs".to_string(),
        name: "hostid".to_string(),
        status: CheckStatus::Pass,
        message: "runtime/config=ab".to_string(),
    };
    assert_eq!(
        kryx::diagnostics::check_row("[PASS]", &c),
        "[PASS] zfs        hostid               runtime/config=ab"
    );
}
