use kryx::modules::{
    dirty_tree_error, effective_uid, git_status_error, parse_uid, switch_command, switch_outcome,
    switch_target,
};
use kryx::node::{
    has_leases, lease_files, lease_rows, link_args, publish_build_args, publish_build_result,
    publish_link, publish_link_dir, publish_link_result, reboot_target, reload_args, reload_result,
};
use kryx::update::ProcOutcome;

fn exited(success: bool) -> ProcOutcome {
    ProcOutcome::Exited { success, status: "exit status: 2".to_string(), code: Some(2) }
}

#[test]
fn lease_table() {
    assert_eq!(lease_files().len(), 3);
    assert!(has_leases(" x\n"));
    assert!(!has_leases(" \n "));
    let rows = lease_rows("1700000000 aa:bb:cc:dd:ee:ff 10.0.0.5 station1 *\nshort line\n");
    assert_eq!(
        rows[0],
        "IP: 10.0.0.5        MAC: aa:bb:cc:dd:ee:ff Hostname: station1            "
    );
    assert_eq!(rows[1], "short line");
}

#[test]
fn publication() {
    assert_eq!(
        publish_build_args(),
        vec![
            "build",
            "/etc/kryonixos#nixosConfigurations.node-client.config.system.build.toplevel",
            "-o",
            "/tmp/kryonix-node-build",
        ]
    );
    assert_eq!(publish_link(true), "/srv/data/images/latest");
    assert_eq!(publish_link(false), "/var/lib/kryonix/pxe/latest");
    assert_eq!(publish_link_dir(false), "/var/lib/kryonix/pxe");
    assert_eq!(link_args("/srv/data/images/latest"), vec!["-sfn", "/tmp/kryonix-node-build", "/srv/data/images/latest"]);
    assert_eq!(publish_build_result(&exited(true)), Ok(()));
    assert_eq!(
        publish_build_result(&exited(false)),
        Err("Configuração 'node-client' não encontrada no Flake /etc/kryonixos ou build falhou.".to_string())
    );
    assert_eq!(
        publish_link_result(&exited(true), "/srv/data/images/latest"),
        Ok("Publicação concluída com sucesso! Imagem disponível em /srv/data/images/latest".to_string())
    );
    assert_eq!(
        publish_link_result(&ProcOutcome::NotStarted { error: "x".to_string() }, "/l"),
        Err("Falha ao invocar ln: x".to_string())
    );
}

#[test]
fn reload_and_reboot() {
    assert_eq!(reload_args(), vec!["restart", "ipxe-http-server", "tftpd"]);
    assert_eq!(reload_result(&exited(false)), Err("Falha ao reiniciar serviços de boot.".to_string()));
    assert_eq!(reboot_target(None), "all");
    assert_eq!(reboot_target(Some("aa:bb".to_string())), "aa:bb");
}

#[test]
fn switch_decisions() {
    assert_eq!(dirty_tree_error(""), None);
    assert_eq!(
        dirty_tree_error(" M a\n"),
        Some("A árvore do git não está limpa. Faça commit ou stash das suas alterações antes de executar o switch.\nPara emergências, use: kryx switch --bypass-lock\n M a\n".to_string())
    );
    assert_eq!(git_status_error("x"), "Falha ao executar 'git status': x");
    assert_eq!(switch_target(Some("think".to_string()), &Some("glacier".to_string())), "think");
    assert_eq!(switch_target(None, &Some("glacier\n".to_string())), "glacier");
    assert_eq!(switch_target(None, &None), "default");
    let (program, args) = switch_command(1000, None, "glacier");
    assert_eq!(program, "/run/current-system/sw/bin/nh");
    assert_eq!(args, vec!["os", "switch", "/etc/kryonixos#glacier"]);
    assert_eq!(switch_command(0, None, "glacier").0, "/run/current-system/sw/bin/nh");
    assert_eq!(switch_command(1000, Some(1000), "glacier").0, "/run/current-system/sw/bin/nh");
    assert_eq!(switch_outcome(&exited(true)), Ok(()));
    assert_eq!(
        switch_outcome(&exited(false)),
        Err("nh os switch abortado ou falhou com status: exit status: 2".to_string())
    );
    assert_eq!(
        switch_outcome(&ProcOutcome::NotStarted { error: "e".to_string() }),
        Err("Falha ao invocar '/run/current-system/sw/bin/nh': e".to_string())
    );
}

#[test]
fn switch_as_root_drops_privileges() {
    let (program, args) = switch_command(0, Some(1000), "glacier");
    assert_eq!(program, "/run/current-system/sw/bin/setpriv");
    assert_eq!(
        args,
        vec![
            "--reuid=1000",
            "--regid=1000",
            "--clear-groups",
            "/run/current-system/sw/bin/nh",
            "os",
            "switch",
            "--elevation-strategy",
            "/run/wrappers/bin/sudo",
            "/etc/kryonixos#glacier",
        ]
    );
}

#[test]
fn uids_are_read() {
    assert_eq!(parse_uid("1000\n"), Some(1000));
    assert_eq!(parse_uid("x"), None);
    assert_eq!(parse_uid("4294967296"), None);
    let status = "Name:\tkryx\nUid:\t1000\t0\t0\t0\nGid:\t100\t100\t100\t100\n";
    assert_eq!(effective_uid(status), Some(0));
    assert_eq!(effective_uid("Name: x\n"), None);
}
