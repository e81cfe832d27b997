use kryx::cleanup::{
    freed_candidates, gc_args, gc_exit_error, gc_summary, human_bytes, is_hm_backup_name,
    is_kryx_tmp_name, is_result_link_name, run_full_cleanup, CleanupReport, DEFAULT_GC_KEEP,
};

/// The freed-bytes figure of the garbage collector's output: the first
/// candidate whose number parses, scaled by its unit.
fn parse_bytes_freed(stdout: &str) -> u64 {
    for (num, mult) in freed_candidates(stdout) {
        if let Ok(n) = num.parse::<f64>() {
            return (n * mult as f64) as u64;
        }
    }
    0
}

#[test]
fn human_bytes_formats_correctly() {
    assert_eq!(human_bytes(0), "0 B");
    assert_eq!(human_bytes(512), "512 B");
    assert_eq!(human_bytes(1024), "1.0 KiB");
    assert_eq!(human_bytes(1024 * 1024), "1.0 MiB");
    assert_eq!(human_bytes(1024 * 1024 * 1024), "1.0 GiB");
}

#[test]
fn parse_bytes_freed_handles_garbage() {
    assert_eq!(parse_bytes_freed("nothing here"), 0);
    assert_eq!(parse_bytes_freed("123.45 MiB freed"), 129446707);
    assert_eq!(parse_bytes_freed("  7.5 KiB freed  \n"), 7680);
}

#[test]
fn cleanup_report_summary_empty() {
    let r = CleanupReport::default();
    assert!(r.is_empty());
    assert_eq!(r.summary(), "nothing to clean");
}

#[test]
fn cleanup_report_summary_includes_counts() {
    let r = CleanupReport {
        gc_runs: 1,
        gc_bytes_freed: 1024 * 1024 * 50,
        hm_baks_removed: 3,
        result_symlinks_removed: 1,
        tmp_files_removed: 2,
        errors: vec![],
    };
    let s = r.summary();
    assert!(s.contains("gc×1"));
    assert!(s.contains("50.0 MiB"));
    assert!(s.contains("3 hm-bak"));
    assert!(s.contains("1 result"));
    assert!(s.contains("2 tmp"));
    assert!(!s.contains("error"));
}

/// `human_bytes` agrees with the one-decimal float formatting it stands
/// for, over a sweep of sizes (ties included).
#[test]
fn human_bytes_matches_float_formatting() {
    let units = ["B", "KiB", "MiB", "GiB", "TiB"];
    let mut samples: Vec<u64> = Vec::new();
    for k in 0..5000u64 {
        samples.push(k);
        samples.push(k * 51);
        samples.push(k * 1024 + 51);
        samples.push(k * 1024 * 1024 + k * 97);
        samples.push(1024 * 1024 * 1024 * (k % 40) + k * 104857);
    }
    samples.push(1280);
    samples.push(u64::MAX);
    samples.push(1024u64.pow(4) * 3 / 2);
    samples.push(1024u64.pow(5));
    for n in samples {
        let mut size = n as f64;
        let mut i = 0;
        while size >= 1024.0 && i < units.len() - 1 {
            size /= 1024.0;
            i += 1;
        }
        let expected = if i == 0 {
            format!("{} {}", n, units[0])
        } else {
            format!("{:.1} {}", size, units[i])
        };
        assert_eq!(human_bytes(n), expected, "n = {}", n);
    }
}

#[test]
fn human_bytes_exact_values() {
    assert_eq!(human_bytes(1023), "1023 B");
    assert_eq!(human_bytes(1536), "1.5 KiB");
    assert_eq!(human_bytes(1024 * 1024 * 1024 * 1024), "1.0 TiB");
    assert_eq!(human_bytes(1024 * 1024 * 1024 * 1024 * 1024), "1024.0 TiB");
}

#[test]
fn summary_lists_errors_and_freed_space() {
    let r = CleanupReport {
        gc_runs: 0,
        gc_bytes_freed: 0,
        hm_baks_removed: 0,
        result_symlinks_removed: 0,
        tmp_files_removed: 0,
        errors: vec!["tmp: denied".to_string(), "result: gone".to_string()],
    };
    assert!(!r.is_empty());
    assert_eq!(r.summary(), "2 errors");
    let r = CleanupReport {
        gc_runs: 1,
        gc_bytes_freed: 2048,
        hm_baks_removed: 0,
        result_symlinks_removed: 0,
        tmp_files_removed: 4,
        errors: vec![],
    };
    assert_eq!(r.summary(), "gc×1 · 2.0 KiB freed · 4 tmp");
}

#[test]
fn full_cleanup_collects_counts_and_errors() {
    let r = run_full_cleanup(
        Some(Ok(4096)),
        Ok(2),
        Err("cannot read CWD".to_string()),
        Ok(1),
    );
    assert_eq!(r.gc_runs, 1);
    assert_eq!(r.gc_bytes_freed, 4096);
    assert_eq!(r.hm_baks_removed, 2);
    assert_eq!(r.result_symlinks_removed, 0);
    assert_eq!(r.tmp_files_removed, 1);
    assert_eq!(r.errors, vec!["result: cannot read CWD".to_string()]);

    let r = run_full_cleanup(Some(Err("exit 1: boom".to_string())), Ok(0), Ok(0), Ok(0));
    assert_eq!(r.gc_runs, 0);
    assert_eq!(r.errors, vec!["gc: exit 1: boom".to_string()]);

    let r = run_full_cleanup(None, Ok(0), Ok(0), Ok(0));
    assert!(r.is_empty());
}

#[test]
fn sweep_name_rules() {
    assert!(is_hm_backup_name(".config.hm-bak-123"));
    assert!(!is_hm_backup_name("config.hm-bak-123"));
    assert!(!is_hm_backup_name(".config"));
    assert!(is_result_link_name("result"));
    assert!(is_result_link_name("result-2"));
    assert!(is_result_link_name("result-12345"));
    assert!(!is_result_link_name("result-123456"));
    assert!(!is_result_link_name("results"));
    assert!(is_kryx_tmp_name("kryx-doctor-1.json"));
    assert!(!is_kryx_tmp_name("nix-build-1"));
}

#[test]
fn freed_candidates_pick_number_and_unit() {
    assert_eq!(
        freed_candidates("deleting x\n12.5 MiB freed\n"),
        vec![("12.5".to_string(), 1024 * 1024)]
    );
    assert_eq!(freed_candidates("freed"), vec![("0".to_string(), 1)]);
    assert_eq!(freed_candidates("3 GB FREED"), vec![("3".to_string(), 1024 * 1024 * 1024)]);
    assert!(freed_candidates("nothing").is_empty());
    assert!(freed_candidates("deleting x\nremoving y\n").is_empty());
}

#[test]
fn gc_run_plan_and_messages() {
    assert_eq!(DEFAULT_GC_KEEP, "2d");
    assert_eq!(gc_args("2d"), vec!["-d", "--delete-older-than", "2d"]);
    assert_eq!(gc_exit_error("exit status: 1", "  oops \n"), "exit exit status: 1: oops");
    assert_eq!(gc_summary(0), "done");
    assert_eq!(gc_summary(1024), "freed 1.0 KiB");
}
