use kryx::cli::kve::{
    find_instance, health_lines, instance_not_found, invalid_response, kind_filter, kve_endpoint,
    map_ct_to_kve, map_vm_to_kve, row_of_instance, row_of_storage, select_instances, wants_json,
    CtSubcommand, HealthEnvelope, InstanceFields, KveCommand, StorageFields, VmSubcommand,
};
use kryx::cli::think::{storage_zfs_row, think_endpoint, topology_row, StorageZfsFields, ThinkCommand, TopologyFields};
use kryx::cli::{
    authorized, completion_shell, hidden_subcommands, identity_guard_message, is_core, is_critical,
    is_desktop, shows_banner, Commands, CompletionShell, NodeSubcommand,
};
use kryx::client::{base_url_from, v2_url, KryxdError, DEFAULT_KRYXD_URL};
use kryx::diagnostics::Role;

fn inst(name: &str, kind: Option<&str>) -> InstanceFields {
    InstanceFields {
        name: Some(name.to_string()),
        kind: kind.map(|k| k.to_string()),
        state: Some("Running".to_string()),
        ipv4: Some(vec!["10.0.0.2".to_string(), "10.0.0.3".to_string()]),
        architecture: None,
    }
}

#[test]
fn roles_and_authorization() {
    assert!(is_core(Some(Role::Core)));
    assert!(is_core(Some(Role::ThinkServer)));
    assert!(!is_core(Some(Role::Node)));
    assert!(is_desktop(Some(Role::Desktop)));
    assert!(authorized(&Commands::Deploy { config_path: None, force: false, hostname: None }, Some(Role::Core)));
    assert!(!authorized(&Commands::Deploy { config_path: None, force: false, hostname: None }, Some(Role::Desktop)));
    assert!(authorized(&Commands::Doctor { json: false }, Some(Role::Desktop)));
    assert!(!authorized(&Commands::Doctor { json: false }, None));
    assert!(authorized(&Commands::Status, None));
    assert!(authorized(&Commands::Identity { json: true }, Some(Role::Node)));
    assert!(!authorized(&Commands::Node { command: NodeSubcommand::List }, Some(Role::Node)));
    assert_eq!(hidden_subcommands(Some(Role::Desktop)), vec!["deploy", "node", "feature"]);
    assert_eq!(hidden_subcommands(None).len(), 8);
    assert!(hidden_subcommands(Some(Role::ThinkServer)).is_empty());
}

#[test]
fn guard_and_banner() {
    assert!(is_critical(&Commands::FactoryReset { preserve_home: true }));
    assert!(is_critical(&Commands::Node { command: NodeSubcommand::Publish }));
    assert!(!is_critical(&Commands::Node { command: NodeSubcommand::List }));
    assert_eq!(identity_guard_message("sem identity"), "Identity Guard Blocked Operation: sem identity");
    assert!(shows_banner(&Commands::Status, false));
    assert!(!shows_banner(&Commands::Status, true));
    assert!(!shows_banner(&Commands::Setup, false));
    assert!(shows_banner(&Commands::Clean { args: vec![] }, false));
}

#[test]
fn completion_shells() {
    assert_eq!(completion_shell("zsh"), Ok(CompletionShell::Zsh));
    assert_eq!(completion_shell("powershell"), Ok(CompletionShell::PowerShell));
    assert_eq!(
        completion_shell("tcsh"),
        Err("Shell não suportado: tcsh. Use: bash, zsh, fish, elvish, powershell".to_string())
    );
}

#[test]
fn kve_commands() {
    assert_eq!(kve_endpoint(&KveCommand::Health { json: false }), "kve/health");
    assert_eq!(kve_endpoint(&KveCommand::Vms { json: false }), "kve/instances");
    assert_eq!(kve_endpoint(&KveCommand::Storage { json: true }), "kve/storage");
    assert_eq!(kind_filter(&KveCommand::Containers { json: false }), Some("container".to_string()));
    assert_eq!(kind_filter(&KveCommand::Vms { json: false }), Some("virtual-machine".to_string()));
    assert_eq!(kind_filter(&KveCommand::Instances { json: false }), None);
    assert!(wants_json(&KveCommand::Instance { name: "a".to_string(), json: true }));
    match map_vm_to_kve(VmSubcommand::List { json: true }) {
        KveCommand::Vms { json } => assert!(json),
        _ => panic!(),
    }
    match map_ct_to_kve(CtSubcommand::Info { name: "web".to_string(), json: false }) {
        KveCommand::Instance { name, json } => {
            assert_eq!(name, "web");
            assert!(!json);
        }
        _ => panic!(),
    }
}

#[test]
fn kve_instances_and_storage() {
    let items = vec![
        inst("a", Some("container")),
        inst("b", Some("virtual-machine")),
        inst("c", None),
        inst("d", Some("container")),
    ];
    assert_eq!(select_instances(&items, &Some("container".to_string())), vec![0, 3]);
    assert_eq!(select_instances(&items, &None), vec![0, 1, 2, 3]);
    assert_eq!(find_instance(&items, "c"), Some(2));
    assert_eq!(find_instance(&items, "z"), None);
    let row = row_of_instance(&items[2]);
    assert_eq!(row.name, "c");
    assert_eq!(row.kind, "?");
    assert_eq!(row.ipv4, "10.0.0.2, 10.0.0.3");
    assert_eq!(row.arch, "?");
    let s = row_of_storage(&StorageFields { name: Some("default".to_string()), driver: None, state: None, description: None });
    assert_eq!((s.name.as_str(), s.driver.as_str(), s.state.as_str(), s.description.as_str()), ("default", "?", "?", ""));
    assert_eq!(instance_not_found("z"), "instance 'z' nao encontrada");
    assert_eq!(invalid_response("missing field"), "resposta kryxd invalida: missing field");
    let h = HealthEnvelope { status: "ok".to_string(), source: "incus".to_string(), socket: Some("/var/lib/incus/unix.socket".to_string()) };
    assert_eq!(health_lines(&h), vec!["status : ok", "source : incus", "socket : /var/lib/incus/unix.socket"]);
}

#[test]
fn think_rows() {
    assert_eq!(think_endpoint(&ThinkCommand::Topology), "think/topology");
    assert_eq!(think_endpoint(&ThinkCommand::StorageZfs), "think/storage/zfs");
    let r = topology_row(&TopologyFields {
        status: Some("stub".to_string()),
        nodes: Some(3),
        network: Some((Some("on".to_string()), None)),
    });
    assert_eq!((r.source.as_str(), r.status.as_str(), r.count.as_str(), r.detail.as_str()), ("think:topology", "stub", "3", "pxe=on dhcp=?"));
    let r = storage_zfs_row(&StorageZfsFields { source: None, status: None, pools: None });
    assert_eq!((r.source.as_str(), r.count.as_str()), ("?", "?"));
}

#[test]
fn kryxd_client() {
    assert_eq!(base_url_from(None), DEFAULT_KRYXD_URL);
    assert_eq!(base_url_from(Some("http://x:1".to_string())), "http://x:1");
    assert_eq!(v2_url("http://127.0.0.1:8080//", "kve/health"), "http://127.0.0.1:8080/api/v2/kve/health");
    assert_eq!(
        KryxdError::Unreachable("refused".to_string()).message(),
        "KVE Backend Error: daemon is unreachable (refused)"
    );
    assert_eq!(
        KryxdError::Decode("eof".to_string()).message(),
        "KVE Backend Error: malformed response (eof)"
    );
    let long = "x".repeat(300);
    let m = KryxdError::HttpStatus { status: 503, body: long }.message();
    assert_eq!(m, format!("KVE Backend Error: HTTP 503 — {}", "x".repeat(200)));
}

#[test]
fn exit_codes_and_clean_mode() {
    assert_eq!(kryx::cli::failure_exit_code(&Commands::Think { command: ThinkCommand::Topology }), 2);
    assert_eq!(kryx::cli::failure_exit_code(&Commands::Status), 1);
    assert!(kryx::cleanup::full_cleanup_requested(&vec![]));
    assert!(!kryx::cleanup::full_cleanup_requested(&vec!["--keep".to_string()]));
    assert!(kryx::status::shows_incus_containers("active"));
    assert!(!kryx::status::shows_unit("?"));
    assert!(authorized(&Commands::Check { path: ".".to_string() }, None));
    assert!(authorized(&Commands::HomeManager { args: vec![] }, None));
    assert!(!authorized(&Commands::Gc { args: vec![] }, None));
    assert!(shows_banner(&Commands::Gc { args: vec![] }, false));
}
