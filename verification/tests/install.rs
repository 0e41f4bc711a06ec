use nixos_installer::app::UserEntry;
use nixos_installer::disk::{full_disk_plan, plan_entry, FsType};
use nixos_installer::install::{InstallJob, InstallPipeline, InstallState, Stage, Work};
use nixos_installer::nix::NixModule;

fn module(name: &str, selected: bool) -> NixModule {
    NixModule { name: name.to_string(), selected }
}

fn user(name: &str) -> UserEntry {
    UserEntry {
        username: name.to_string(),
        password: String::new(),
        hm_modules: vec![module("git", true), module("zsh", false)],
        package_modules: vec![module("packages-dev", true)],
        needs_hm_selection: true,
    }
}

fn job(is_custom: bool, users: Vec<UserEntry>, pre: &[&str], post: &[&str]) -> InstallJob {
    InstallJob {
        disk_path: "/dev/sda".to_string(),
        partitions: full_disk_plan(4),
        base_path: "/tmp/nixos-dotfiles".to_string(),
        host_name: "laptop".to_string(),
        is_custom,
        nixos_modules: vec![module("desktop", true), module("server", false)],
        system_packages: vec![module("packages-base", true)],
        users,
        accept_flake_config: true,
        hm_base_modules: vec!["home".to_string(), "shell".to_string()],
        pre_hooks: pre.iter().map(|s| s.to_string()).collect(),
        post_hooks: post.iter().map(|s| s.to_string()).collect(),
    }
}

fn ok() -> Result<String, String> {
    Ok(String::new())
}

#[test]
fn a_run_counts_nine_stages_and_one_for_each_hook() {
    let p = InstallPipeline::new(job(true, vec![user("alice")], &[], &[])).unwrap();
    let s = p.fresh_state();
    assert_eq!(s.total, 9);
    assert_eq!(s.progress, 0);
    assert!(s.log.is_empty());
    assert!(s.error.is_none());
    assert!(!s.done);
    let p = InstallPipeline::new(job(true, vec![], &["a", "b"], &["c"])).unwrap();
    assert_eq!(p.fresh_state().total, 12);
    assert_eq!(p.stage(), Stage::Partition);
}

#[test]
fn a_job_whose_plan_leaves_the_range_has_no_pipeline() {
    let mut j = job(true, vec![], &[], &[]);
    j.partitions = vec![
        plan_entry("a", "/a", Some(u64::MAX - 1), FsType::Ext4),
        plan_entry("b", "/", Some(1), FsType::Ext4),
    ];
    assert!(!j.is_sound());
    assert!(InstallPipeline::new(j).is_none());
    assert!(job(false, vec![user("a")], &["x"], &["y"]).is_sound());
}

#[test]
fn a_failure_at_the_third_stage_ends_the_run() {
    let mut p = InstallPipeline::new(job(true, vec![user("alice")], &["pre.sh"], &[])).unwrap();
    let mut s = p.fresh_state();

    assert!(matches!(p.next(&mut s), Work::Run(_)));
    assert_eq!(s.progress, 1);
    p.complete(&mut s, ok());
    assert!(matches!(p.next(&mut s), Work::Run(_)));
    assert_eq!(s.progress, 2);
    p.complete(&mut s, ok());
    assert!(matches!(p.next(&mut s), Work::GenerateHardwareConfig));
    assert_eq!(s.progress, 3);
    p.complete(&mut s, Err("nixos-generate-config failed (exit Some(1)):\nno hardware".to_string()));

    assert_eq!(s.progress, 3);
    assert_eq!(
        s.error.as_deref(),
        Some("Hardware config generation failed: nixos-generate-config failed (exit Some(1)):\nno hardware")
    );
    assert!(!s.done);
    assert_eq!(p.stage(), Stage::Failed);
    assert_eq!(
        s.log,
        vec![
            "Partitioning /dev/sda...",
            "Formatting and mounting partitions...",
            "Generating hardware configuration...",
            "ERROR: Hardware config generation failed: nixos-generate-config failed (exit Some(1)):",
            "ERROR: no hardware",
        ]
    );

    let before = s.log.clone();
    assert!(matches!(p.next(&mut s), Work::Nothing));
    p.complete(&mut s, ok());
    assert!(matches!(p.next(&mut s), Work::Nothing));
    assert_eq!(s.log, before);
    assert_eq!(s.progress, 3);
    assert!(!s.done);
    assert_eq!(s.total, 10);
}

#[test]
fn a_custom_host_runs_every_stage_in_order() {
    let users = vec![user("alice"), user("bob")];
    let mut p = InstallPipeline::new(job(true, users, &["/h/pre1", "/h/pre2"], &["/h/post"])).unwrap();
    let mut s = p.fresh_state();
    assert_eq!(s.total, 12);
    let mut seen: Vec<(String, usize)> = Vec::new();
    let mut guard = 0;
    loop {
        guard += 1;
        assert!(guard < 100);
        let work = p.next(&mut s);
        let what = match &work {
            Work::Run(lines) => format!("run {} {}", lines[0].program, lines.len()),
            Work::GenerateHardwareConfig => "generate".to_string(),
            Work::WriteHardwareConfig { content } => format!("hardware [{}]", content),
            Work::WriteHostConfig { content } => format!("host {}", content.len()),
            Work::WriteUserConfig { username, content } => {
                assert!(content.contains(&format!("users.users.{} =", username)));
                format!("user {}", username)
            }
            Work::StageFiles => "stage".to_string(),
            Work::RunHook { script } => format!("hook {}", script),
            Work::RunInstall { flake, accept_flake_config } => {
                format!("install {} {}", flake, accept_flake_config)
            }
            Work::Nothing => break,
        };
        seen.push((what, s.progress));
        assert!(matches!(p.next(&mut s), Work::Nothing));
        let outcome = match work {
            Work::GenerateHardwareConfig => Ok("{ hardware }".to_string()),
            Work::RunHook { .. } => Ok("  out one \n\n\tout two\r\n".to_string()),
            _ => ok(),
        };
        p.complete(&mut s, outcome);
    }
    let expected: Vec<(String, usize)> = vec![
        ("run wipefs 6", 1),
        ("run mkfs.fat 7", 2),
        ("generate", 3),
        ("hardware [{ hardware }]", 4),
        ("host 443", 5),
        ("user alice", 5),
        ("user bob", 5),
        ("stage", 6),
        ("hook /h/pre1", 7),
        ("hook /h/pre2", 8),
        ("install /tmp/nixos-dotfiles#laptop true", 9),
        ("run mkdir 2", 10),
        ("hook /h/post", 11),
    ]
    .into_iter()
    .map(|(a, b)| (a.to_string(), b))
    .collect();
    assert_eq!(seen.len(), expected.len());
    for (got, want) in seen.iter().zip(expected.iter()) {
        if want.0.starts_with("host ") {
            assert!(got.0.starts_with("host "));
            assert_eq!(got.1, want.1);
        } else {
            assert_eq!(got, want);
        }
    }
    assert!(s.done);
    assert!(s.error.is_none());
    assert_eq!(s.progress, 12);
    assert_eq!(p.stage(), Stage::Finished);
    assert_eq!(
        s.log,
        vec![
            "Partitioning /dev/sda...",
            "Formatting and mounting partitions...",
            "Generating hardware configuration...",
            "Writing hardware configuration...",
            "Writing host configuration...",
            "Writing user-alice.nix...",
            "Writing user-bob.nix...",
            "Staging generated files (git add)...",
            "Running pre-install hook: /h/pre1...",
            "  [hook] out one",
            "  [hook] out two",
            "Running pre-install hook: /h/pre2...",
            "  [hook] out one",
            "  [hook] out two",
            "Running nixos-install (this may take a while)...",
            "Copying repository to /mnt/etc/nixos/...",
            "Running post-install hook: /h/post...",
            "  [hook] out one",
            "  [hook] out two",
            "Installation complete!",
        ]
    );
}

#[test]
fn a_preset_host_writes_no_host_configuration() {
    let mut p = InstallPipeline::new(job(false, vec![user("alice")], &[], &[])).unwrap();
    let mut s = p.fresh_state();
    let mut stages = Vec::new();
    loop {
        stages.push(p.stage());
        if matches!(p.next(&mut s), Work::Nothing) {
            break;
        }
        p.complete(&mut s, ok());
    }
    assert_eq!(
        stages,
        vec![
            Stage::Partition,
            Stage::FormatAndMount,
            Stage::GenerateHardware,
            Stage::WriteHardware,
            Stage::WriteUser(0),
            Stage::StageFiles,
            Stage::Install,
            Stage::CopyRepo,
            Stage::Finished,
        ]
    );
    assert!(s.done);
    assert_eq!(s.progress, 9);
    assert!(!s.log.iter().any(|l| l == "Writing host configuration..."));
}

#[test]
fn a_run_without_users_and_hooks_skips_to_the_staging() {
    let mut p = InstallPipeline::new(job(false, vec![], &[], &[])).unwrap();
    let mut s = p.fresh_state();
    for _ in 0..4 {
        let _ = p.next(&mut s);
        p.complete(&mut s, ok());
    }
    assert_eq!(p.stage(), Stage::StageFiles);
    assert!(matches!(p.next(&mut s), Work::StageFiles));
    assert_eq!(s.progress, 6);
}

#[test]
fn each_stage_fails_with_its_own_words() {
    let expected = [
        "Partitioning failed: boom",
        "Format/mount failed: boom",
        "Hardware config generation failed: boom",
        "Failed to write hardware config: boom",
        "Failed to write configuration: boom",
        "Failed to write user config: boom",
        "git add failed: boom",
        "Pre-install hook failed: boom",
        "boom",
        "Failed to copy repo to target: boom",
        "Post-install hook failed: boom",
    ];
    for (n, want) in expected.iter().enumerate() {
        let mut p = InstallPipeline::new(job(true, vec![user("a")], &["pre"], &["post"])).unwrap();
        let mut s = p.fresh_state();
        for _ in 0..n {
            assert!(!matches!(p.next(&mut s), Work::Nothing));
            p.complete(&mut s, ok());
        }
        assert!(!matches!(p.next(&mut s), Work::Nothing));
        let lines_before = s.log.len();
        p.complete(&mut s, Err("boom".to_string()));
        assert_eq!(s.error.as_deref(), Some(*want));
        assert_eq!(s.log.len(), lines_before + 1);
        assert_eq!(s.log.last().unwrap(), &format!("ERROR: {}", want));
        assert!(!s.done);
        assert_eq!(p.stage(), Stage::Failed);
    }
}

#[test]
fn a_failing_hook_stops_before_the_install_command() {
    let mut p = InstallPipeline::new(job(false, vec![], &["one", "two"], &[])).unwrap();
    let mut s = p.fresh_state();
    loop {
        match p.next(&mut s) {
            Work::RunHook { script } => {
                assert_eq!(script, "one");
                p.complete(&mut s, Err("Hook 'one' failed with exit code Some(2)\nbad".to_string()));
                break;
            }
            Work::Nothing => panic!("no hook"),
            _ => p.complete(&mut s, ok()),
        }
    }
    assert_eq!(s.progress, 7);
    assert!(matches!(p.next(&mut s), Work::Nothing));
    assert!(!s.log.iter().any(|l| l.contains("nixos-install")));
    assert!(!s.log.iter().any(|l| l.contains("hook: two")));
    assert_eq!(
        &s.log[s.log.len() - 2..],
        &[
            "ERROR: Pre-install hook failed: Hook 'one' failed with exit code Some(2)".to_string(),
            "ERROR: bad".to_string(),
        ]
    );
}

#[test]
fn reporting_without_work_under_way_changes_nothing() {
    let mut p = InstallPipeline::new(job(false, vec![], &[], &[])).unwrap();
    let mut s = p.fresh_state();
    p.complete(&mut s, Err("stray".to_string()));
    assert!(s.error.is_none());
    assert!(s.log.is_empty());
    assert_eq!(p.stage(), Stage::Partition);
}

#[test]
fn a_record_that_has_failed_hands_out_no_work() {
    let mut p = InstallPipeline::new(job(false, vec![], &[], &[])).unwrap();
    let mut s = p.fresh_state();
    s.fail("worker crashed".to_string());
    assert!(matches!(p.next(&mut s), Work::Nothing));
    assert!(s.log.is_empty());
    assert_eq!(s.progress, 0);
    let mut done = p.fresh_state();
    done.done = true;
    assert!(matches!(p.next(&mut done), Work::Nothing));
}

#[test]
fn the_record_logs_lines_errors_and_streamed_output() {
    let mut s = InstallState::new(9);
    s.log("one");
    s.log_error("first\nsecond\r\n\nfourth");
    s.log_streamed("  building '/nix/store/x'  \n");
    s.log_streamed("   ");
    s.log_streamed("");
    s.log_hook_output("a\n \n  b  ");
    s.set_progress(4);
    assert_eq!(
        s.log,
        vec![
            "one",
            "ERROR: first",
            "ERROR: second",
            "ERROR: ",
            "ERROR: fourth",
            "building '/nix/store/x'",
            "  [hook] a",
            "  [hook] b",
        ]
    );
    assert_eq!(s.progress, 4);
    assert_eq!(s.total, 9);
    assert!(s.error.is_none());
    s.fail("x".to_string());
    assert_eq!(s.error.as_deref(), Some("x"));
    assert!(!s.done);
}
