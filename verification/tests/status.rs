use kryx::status::{
    cpu_model, disk_lines, dns_summary, first_line, identity_summary, incus_summary, interfaces,
    kernel_release, kryonix_units, loadavg_summary, os_version, podman_summary, pool_tone,
    pretty_name, render_zpool_status, sensor_line, shows_podman, state_tone, unit_display,
    unit_state, uptime_text, PoolTone, StateTone,
};

#[test]
fn os_release_fields() {
    let c = "NAME=NixOS\nPRETTY_NAME=\"NixOS 24.05 (Uakari)\"\nVERSION=\"24.05 (Uakari)\"\n";
    assert_eq!(pretty_name(c), Some("NixOS 24.05 (Uakari)".to_string()));
    assert_eq!(os_version(c), Some("24.05 (Uakari)".to_string()));
    assert_eq!(pretty_name("NAME=x\n"), None);
}

#[test]
fn identity_summary_of_the_identity_file() {
    let c = "{\n  \"uuid\": \"abc\",\n  \"role\": \"core\",\n  \"edition\": \"home\"\n}\n";
    assert_eq!(identity_summary(c), Some("role=core edition=home".to_string()));
    assert_eq!(identity_summary("{}"), None);
}

#[test]
fn cpu_readings() {
    assert_eq!(loadavg_summary("0.52 0.40 0.33 1/512 999\n", 8), Some("0.52 0.40 0.33 (cores: 8)".to_string()));
    assert_eq!(loadavg_summary("0.1 0.2", 8), None);
    assert_eq!(
        cpu_model("processor : 0\nmodel name\t: AMD Ryzen 7 5800X\n"),
        Some(": AMD Ryzen 7 5800X".to_string())
    );
    assert_eq!(cpu_model("model name: Intel\n"), Some("Intel".to_string()));
    assert_eq!(
        sensor_line("k10temp\n  Tctl:  +45.2°C  \n"),
        Some("Tctl:  +45.2°C".to_string())
    );
    assert_eq!(sensor_line("nothing"), None);
}

#[test]
fn network_readings() {
    assert_eq!(
        interfaces("2: enp3s0    inet 192.168.0.10/24 brd x\nbad line\n"),
        vec!["enp3s0=192.168.0.10/24"]
    );
    assert_eq!(first_line("default via 192.168.0.1 dev enp3s0\nother\n"), Some("default via 192.168.0.1 dev enp3s0".to_string()));
    assert_eq!(first_line(""), None);
    assert_eq!(
        dns_summary("nameserver 1.1.1.1\nnameserver 8.8.8.8\nnameserver 9.9.9.9\n"),
        Some("1.1.1.1 8.8.8.8".to_string())
    );
    assert_eq!(dns_summary("search lan\n"), None);
}

#[test]
fn storage_and_containers() {
    let df = "Filesystem Size Used Avail Use% Mounted on\ntank/nix 100G 50G 50G 50% /nix\ntmpfs 1G 0 1G 0% /run\n/dev/sda1 1G 1M 1G 1% /boot\n";
    assert_eq!(disk_lines(df), vec!["tank/nix 100G 50G 50G 50% /nix", "/dev/sda1 1G 1M 1G 1% /boot"]);
    assert!(disk_lines("").is_empty());
    assert_eq!(incus_summary("NAME,STATE\na,RUNNING,x\nb,STOPPED,y\n"), "1/2 running");
    assert_eq!(incus_summary(""), "0/0 running");
    assert_eq!(podman_summary("abc running\ndef running\n"), "2 rodando");
}

#[test]
fn kernel_uptime_and_units() {
    assert_eq!(kernel_release(&Some("6.6.30\n".to_string())), "6.6.30");
    assert_eq!(kernel_release(&None), "?");
    assert_eq!(uptime_text(&Some("93784 1234".to_string())), "1d 2h 3m");
    assert_eq!(uptime_text(&Some("7260 1".to_string())), "2h 1m");
    assert_eq!(uptime_text(&Some("59".to_string())), "0m");
    assert_eq!(uptime_text(&Some("93784.55 1".to_string())), "?");
    assert_eq!(uptime_text(&None), "?");
    assert_eq!(unit_state(&Some("active\n".to_string())), "active");
    assert_eq!(unit_state(&Some("\n".to_string())), "?");
    assert_eq!(unit_state(&None), "?");
    assert_eq!(state_tone("active"), StateTone::Good);
    assert_eq!(state_tone("dead"), StateTone::Idle);
    assert_eq!(state_tone("failed"), StateTone::Bad);
    assert_eq!(state_tone("reloading"), StateTone::Busy);
    assert_eq!(state_tone("?"), StateTone::Plain);
    assert!(shows_podman("active"));
    assert!(!shows_podman("inactive"));
    assert!(!shows_podman("?"));
    assert_eq!(kryonix_units(), vec!["kryxd.service", "kryx-telemetry.service"]);
    assert_eq!(unit_display("kryxd.service"), "kryxd");
    assert_eq!(unit_display("a.service.service"), "a");
    assert_eq!(unit_display("tftpd"), "tftpd");
}

#[test]
fn zpool_lines_are_toned() {
    assert_eq!(pool_tone("  tank  DEGRADED"), PoolTone::Alarm);
    assert_eq!(pool_tone("  tank  ONLINE"), PoolTone::Healthy);
    assert_eq!(pool_tone("errors: none"), PoolTone::Plain);
    let out = render_zpool_status("pool: tank\n state: ONLINE\n");
    assert!(out.contains("pool: tank\n"));
    assert!(out.contains("state: ONLINE"));
    assert!(out.ends_with('\n'));
}
