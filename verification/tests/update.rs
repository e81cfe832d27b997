use kryx::update::{
    after_drop, auto_stash_refs, cleanup_line, config_repos, flake_update_args, flake_update_home,
    flake_update_path, flake_update_result, has_changes_outside_lock, pull_needs_status, pull_step,
    stash_list_exit_error, stash_list_spawn_error, update_step, DropStep, UpdateAction, UpdateEvent,
    UpdateOptions, NoticeLevel, ProcOutcome, PullAction,
    PullEvent, PullRequest, STASH_MARKER,
};

fn req(ff_only: bool, force_sync: bool, no_stash: bool) -> PullRequest {
    PullRequest { repo: "/etc/kryonix".to_string(), ff_only, force_sync, no_stash }
}

fn exited(success: bool) -> ProcOutcome {
    ProcOutcome::Exited { success, status: "exit status: 1".to_string(), code: Some(1) }
}

fn run_args(a: &PullAction) -> Vec<String> {
    match a {
        PullAction::Stash { args } => args.clone(),
        PullAction::Pull { args } => args.clone(),
        PullAction::Finish { .. } => panic!("expected a git run"),
    }
}

fn is_stash(a: &PullAction) -> bool {
    matches!(a, PullAction::Stash { .. })
}

fn finish(a: &PullAction) -> Result<(), String> {
    match a {
        PullAction::Finish { result } => result.clone(),
        _ => panic!("expected the end"),
    }
}

#[test]
fn porcelain_changes_outside_the_lock() {
    assert!(!has_changes_outside_lock(&Some(" M flake.lock\n".to_string())));
    assert!(!has_changes_outside_lock(&Some("M  flake.lock\n".to_string())));
    assert!(!has_changes_outside_lock(&Some(String::new())));
    assert!(has_changes_outside_lock(&Some(" M flake.lock\n?? hosts/new.nix\n".to_string())));
    assert!(has_changes_outside_lock(&None));
    assert!(!has_changes_outside_lock(&Some("ab\n".to_string())));
}

#[test]
fn auto_stashes_are_listed_last_first() {
    let list = "stash@{0}: kryx-auto: force-sync\nstash@{1}: WIP on main: 1234 mine\nstash@{2}: kryx-auto: local changes before pull\ngarbage\n";
    assert_eq!(auto_stash_refs(list), vec!["stash@{2}", "stash@{0}"]);
    assert!(auto_stash_refs("").is_empty());
    assert_eq!(STASH_MARKER, "kryx-auto:");
}

#[test]
fn dropping_stashes() {
    match after_drop("/etc/kryonix", "stash@{2}", &exited(true), 0) {
        DropStep::Continue { removed, warning } => {
            assert_eq!(removed, 1);
            assert!(warning.is_none());
        }
        DropStep::Abort { .. } => panic!(),
    }
    match after_drop("/etc/kryonix", "stash@{2}", &exited(false), 1) {
        DropStep::Continue { removed, warning } => {
            assert_eq!(removed, 1);
            assert_eq!(
                warning.unwrap(),
                "Não foi possível remover stash stash@{2} em /etc/kryonix (exit Some(1)); seguindo."
            );
        }
        DropStep::Abort { .. } => panic!(),
    }
    match after_drop("/etc/kryonix", "stash@{0}", &ProcOutcome::NotStarted { error: "no git".to_string() }, 3) {
        DropStep::Abort { error } => assert_eq!(error, "git stash drop stash@{0} falhou em /etc/kryonix: no git"),
        DropStep::Continue { .. } => panic!(),
    }
    assert_eq!(cleanup_line("/etc/kryonix", 2), "/etc/kryonix: 2 stash(es) automático(s) removido(s)");
    assert_eq!(cleanup_line("/etc/kryonix", 0), "/etc/kryonix: nenhum stash automático para limpar");
    assert_eq!(stash_list_exit_error("/r", None), "git stash list falhou em /r (exit None)");
    assert_eq!(stash_list_exit_error("/r", Some(-2)), "git stash list falhou em /r (exit Some(-2))");
    assert_eq!(stash_list_spawn_error("/r", "e"), "git stash list falhou em /r: e");
}

#[test]
fn pull_default_mode() {
    let r = req(true, false, false);
    assert!(pull_needs_status(false));
    let s = pull_step(&r, &PullEvent::Begin { dirty: false });
    assert!(s.notice.is_none());
    assert_eq!(run_args(&s.action), vec!["-C", "/etc/kryonix", "pull", "origin", "main", "--ff-only"]);
    let s = pull_step(&req(false, false, false), &PullEvent::Begin { dirty: false });
    assert_eq!(run_args(&s.action)[5], "--no-rebase");
    let s = pull_step(&r, &PullEvent::Begin { dirty: true });
    assert!(is_stash(&s.action));
    assert_eq!(
        run_args(&s.action),
        vec!["-C", "/etc/kryonix", "stash", "push", "-u", "-m", "kryx-auto: local changes before pull"]
    );
    let s = pull_step(&r, &PullEvent::Stashed(exited(true)));
    let (level, text) = s.notice.unwrap();
    assert_eq!(level, NoticeLevel::Info);
    assert_eq!(
        text,
        "Stash automático criado em /etc/kryonix (marcado kryx-auto:). Use --cleanup-stash para remover."
    );
    assert_eq!(run_args(&s.action)[5], "--ff-only");
    let s = pull_step(&r, &PullEvent::Pulled(exited(false)));
    assert_eq!(
        finish(&s.action),
        Err("git pull falhou em /etc/kryonix (exit exit status: 1). Use 'kryx update --force-sync' para fazer stash das alterações locais.".to_string())
    );
    let s = pull_step(&r, &PullEvent::Pulled(exited(true)));
    assert_eq!(finish(&s.action), Ok(()));
}

#[test]
fn pull_force_sync_and_no_stash() {
    let r = req(false, true, false);
    assert!(!pull_needs_status(true));
    let s = pull_step(&r, &PullEvent::Begin { dirty: false });
    assert_eq!(run_args(&s.action)[6], "kryx-auto: force-sync");
    let s = pull_step(&r, &PullEvent::Stashed(exited(true)));
    assert_eq!(s.notice.unwrap().0, NoticeLevel::Warn);
    let s = pull_step(&r, &PullEvent::Stashed(exited(false)));
    assert_eq!(
        finish(&s.action),
        Err("git stash push falhou em /etc/kryonix (exit exit status: 1). Abortando.".to_string())
    );
    let s = pull_step(&r, &PullEvent::Pulled(exited(false)));
    assert_eq!(
        finish(&s.action),
        Err("git pull falhou em /etc/kryonix (exit exit status: 1). Suas alterações estão no stash — recupere com: git -C /etc/kryonix stash pop".to_string())
    );

    let r = req(true, false, true);
    let s = pull_step(&r, &PullEvent::Begin { dirty: true });
    assert_eq!(
        finish(&s.action),
        Err("/etc/kryonix tem alterações locais fora de flake.lock e --no-stash foi passado. Faça commit, git restore, ou rode sem --no-stash.".to_string())
    );
    let s = pull_step(&r, &PullEvent::Begin { dirty: false });
    assert!(!is_stash(&s.action));
    assert_eq!(run_args(&s.action)[2], "pull");
    let s = pull_step(&r, &PullEvent::Pulled(ProcOutcome::NotStarted { error: "gone".to_string() }));
    assert_eq!(finish(&s.action), Err("Falha ao invocar git em /etc/kryonix: gone".to_string()));
    let s = pull_step(&r, &PullEvent::Stashed(ProcOutcome::NotStarted { error: "gone".to_string() }));
    assert_eq!(finish(&s.action), Err("git stash push falhou em /etc/kryonix: gone".to_string()));
}

#[test]
fn flake_update_environment() {
    assert_eq!(config_repos(), vec!["/etc/kryonix", "/etc/kryonixos"]);
    assert_eq!(flake_update_args(), vec!["flake", "update", "--flake", "/etc/kryonixos"]);
    assert_eq!(flake_update_path("/nix/store/x/bin", "/usr/bin"), "/nix/store/x/bin:/usr/bin");
    assert_eq!(flake_update_home(&None), "/home/rocha");
    assert_eq!(flake_update_home(&Some("ana".to_string())), "/home/ana");
    assert_eq!(flake_update_result(&exited(true)), Ok(()));
    assert_eq!(flake_update_result(&exited(false)), Err("Falha ao atualizar flake lock".to_string()));
    assert_eq!(
        flake_update_result(&ProcOutcome::NotStarted { error: "x".to_string() }),
        Err("Falha ao invocar nix flake update: x".to_string())
    );
}

#[test]
fn lock_only_tree_is_pulled_without_stash() {
    let r = req(false, false, false);
    let dirty = has_changes_outside_lock(&Some(" M flake.lock\n".to_string()));
    let s = pull_step(&r, &PullEvent::Begin { dirty });
    assert!(!is_stash(&s.action));
    assert_eq!(run_args(&s.action), vec!["-C", "/etc/kryonix", "pull", "origin", "main", "--no-rebase"]);
}

fn notices(s: &kryx::update::UpdateStep) -> Vec<String> {
    s.notices.iter().map(|(_, t)| t.clone()).collect()
}

#[test]
fn update_runs_in_order_and_stops_on_a_failed_pull() {
    let o = UpdateOptions { force_sync: false, no_stash: false, cleanup_stash: true };
    let s = update_step(&o, UpdateEvent::Begin);
    assert_eq!(notices(&s), vec!["Atualizando repositórios e locks de flake..."]);
    assert!(matches!(&s.action, UpdateAction::CleanupStashes { index: 0, repo } if repo == "/etc/kryonix"));
    let s = update_step(&o, UpdateEvent::CleanedUp { repo: 0, result: Ok(2) });
    assert_eq!(notices(&s), vec!["/etc/kryonix: 2 stash(es) automático(s) removido(s)"]);
    assert!(matches!(&s.action, UpdateAction::CleanupStashes { index: 1, repo } if repo == "/etc/kryonixos"));
    let s = update_step(&o, UpdateEvent::CleanedUp { repo: 1, result: Err("boom".to_string()) });
    assert_eq!(notices(&s), vec!["boom", "Sincronizando /etc/kryonix..."]);
    match &s.action {
        UpdateAction::Pull { index, request } => {
            assert_eq!(*index, 0);
            assert_eq!(request.repo, "/etc/kryonix");
            assert!(request.ff_only && !request.force_sync && !request.no_stash);
        }
        _ => panic!("expected a pull"),
    }
    let s = update_step(&o, UpdateEvent::Pulled { repo: 0, result: Err("git pull falhou".to_string()) });
    assert!(matches!(&s.action, UpdateAction::Finish { result: Err(e) } if e == "git pull falhou"));
    let s = update_step(&o, UpdateEvent::Pulled { repo: 0, result: Ok(()) });
    assert!(matches!(&s.action, UpdateAction::Pull { index: 1, .. }));
    let s = update_step(&o, UpdateEvent::Pulled { repo: 1, result: Ok(()) });
    assert_eq!(notices(&s), vec!["Atualizando locks de flake em /etc/kryonixos..."]);
    assert!(matches!(&s.action, UpdateAction::LocateRealNix));
    let s = update_step(&o, UpdateEvent::RealNixFound { dir: None });
    assert!(matches!(&s.action, UpdateAction::Finish { result: Err(e) } if e.starts_with("Could not locate a real nix binary")));
    let s = update_step(&o, UpdateEvent::RealNixFound { dir: Some("/nix/store/x/bin".to_string()) });
    assert_eq!(notices(&s), vec!["Real nix path: /nix/store/x/bin"]);
    assert!(matches!(&s.action, UpdateAction::FlakeUpdate { real_nix_dir } if real_nix_dir == "/nix/store/x/bin"));
    let s = update_step(&o, UpdateEvent::FlakeUpdated(exited(true)));
    assert_eq!(notices(&s), vec!["Atualização concluída com sucesso!"]);
    assert!(matches!(&s.action, UpdateAction::Finish { result: Ok(()) }));
    let forced = UpdateOptions { force_sync: true, no_stash: false, cleanup_stash: false };
    match update_step(&forced, UpdateEvent::Begin).action {
        UpdateAction::Pull { request, .. } => assert!(!request.ff_only && request.force_sync),
        _ => panic!("expected a pull"),
    }
}
