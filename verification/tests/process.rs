use nixos_installer::clone::ProcessExit;
use nixos_installer::disk::{full_disk_plan, partition_disk, CommandLine};
use nixos_installer::process::{
    after_command, first_command,
    chpasswd_input, run_cmd, disk_listing_outcome, generate_hardware_config, run_hook,
    install_outcome, set_root_password, git_add_all, set_user_password_in_target, PasswordRun,
    ProcessOutput,
};

fn ran(success: bool, code: Option<i32>, stdout: &str, stderr: &str) -> Result<ProcessOutput, String> {
    Ok(ProcessOutput { success, code, stdout: stdout.to_string(), stderr: stderr.to_string() })
}

fn not_started() -> Result<ProcessOutput, String> {
    Err("No such file or directory (os error 2)".to_string())
}

#[test]
fn a_command_that_succeeds_reports_nothing() {
    assert_eq!(run_cmd("parted", &ran(true, Some(0), "out", "warn")), Ok(String::new()));
}

#[test]
fn a_command_that_fails_shows_what_it_wrote() {
    assert_eq!(
        run_cmd("parted", &ran(false, Some(1), " some out \n", "\n bad disk \n")),
        Err("Command 'parted' failed with exit code Some(1)\n--- stderr ---\nbad disk\n--- stdout ---\nsome out".to_string())
    );
    assert_eq!(
        run_cmd("mount", &ran(false, None, "", "")),
        Err("Command 'mount' failed with exit code None".to_string())
    );
    assert_eq!(
        run_cmd("mount", &ran(false, Some(32), "", "  ")),
        Err("Command 'mount' failed with exit code Some(32)\n--- stderr ---\n".to_string())
    );
    assert_eq!(
        run_cmd("wipefs", &not_started()),
        Err("Failed to run 'wipefs': No such file or directory (os error 2)".to_string())
    );
}

#[test]
fn a_hook_reports_what_it_wrote() {
    assert_eq!(run_hook("/h.sh", &ran(true, Some(0), "one\n", "two\n")), Ok("one\ntwo\n".to_string()));
    assert_eq!(
        run_hook("/h.sh", &ran(false, Some(3), " one\n", "two \n")),
        Err("Hook '/h.sh' failed with exit code Some(3)\none\ntwo".to_string())
    );
    assert_eq!(
        run_hook("/h.sh", &not_started()),
        Err("Failed to run hook '/h.sh': No such file or directory (os error 2)".to_string())
    );
}

#[test]
fn staging_reports_the_error_stream() {
    assert_eq!(git_add_all(&ran(true, Some(0), "", "")), Ok(String::new()));
    assert_eq!(
        git_add_all(&ran(false, Some(128), "", "fatal: not a git repository\n")),
        Err("git add failed: fatal: not a git repository".to_string())
    );
    assert_eq!(
        git_add_all(&not_started()),
        Err("Failed to run 'git add': No such file or directory (os error 2)".to_string())
    );
}

#[test]
fn tools_that_are_run_for_their_output() {
    assert_eq!(generate_hardware_config(&ran(true, Some(0), "{ config }\n", "note")), Ok("{ config }\n".to_string()));
    assert_eq!(
        generate_hardware_config(&ran(false, Some(1), "", " no /mnt \n")),
        Err("nixos-generate-config failed (exit Some(1)):\nno /mnt".to_string())
    );
    assert_eq!(
        generate_hardware_config(&not_started()),
        Err("Failed to run nixos-generate-config: No such file or directory (os error 2)".to_string())
    );
    assert_eq!(disk_listing_outcome(&ran(true, Some(0), "{}", "")), Ok("{}".to_string()));
    assert_eq!(
        disk_listing_outcome(&ran(false, Some(64), "", "lsblk: bad option\n")),
        Err("lsblk failed (exit Some(64)): lsblk: bad option".to_string())
    );
    assert_eq!(
        disk_listing_outcome(&not_started()),
        Err("Failed to run lsblk: No such file or directory (os error 2)".to_string())
    );
}

#[test]
fn the_install_command_reports_how_it_ended() {
    assert_eq!(install_outcome(&ProcessExit::Success), Ok(String::new()));
    assert_eq!(
        install_outcome(&ProcessExit::Failed(Some(1))),
        Err("nixos-install failed with exit code Some(1)".to_string())
    );
    assert_eq!(
        install_outcome(&ProcessExit::Failed(None)),
        Err("nixos-install failed with exit code None".to_string())
    );
    assert_eq!(
        install_outcome(&ProcessExit::WaitFailed("gone".to_string())),
        Err("Failed to wait for nixos-install: gone".to_string())
    );
    assert_eq!(
        install_outcome(&ProcessExit::SpawnFailed("missing".to_string())),
        Err("Failed to run nixos-install: missing".to_string())
    );
}

#[test]
fn passwords_are_handed_over_on_one_line() {
    assert_eq!(chpasswd_input("root", "s3cret"), "root:s3cret\n");
    assert_eq!(chpasswd_input("alice", "a:b c"), "alice:a:b c\n");
}

#[test]
fn changing_a_password_reports_how_far_it_got() {
    assert_eq!(set_root_password(&PasswordRun::Ended(true)), Ok(()));
    assert_eq!(set_user_password_in_target(&PasswordRun::Ended(true)), Ok(()));
    assert_eq!(set_root_password(&PasswordRun::Ended(false)), Err("chpasswd failed in target".to_string()));
    assert_eq!(set_user_password_in_target(&PasswordRun::Ended(false)), Err("chpasswd failed in target".to_string()));
    let e = "x".to_string();
    assert_eq!(set_root_password(&PasswordRun::NotStarted(e.clone())), Err("Failed to run nixos-enter: x".to_string()));
    assert_eq!(set_user_password_in_target(&PasswordRun::NotStarted(e.clone())), Err("Failed to run nixos-enter: x".to_string()));
    assert_eq!(set_root_password(&PasswordRun::NotWritten(e.clone())), Err("Failed to write password: x".to_string()));
    assert_eq!(set_user_password_in_target(&PasswordRun::NotWritten(e.clone())), Err("Failed to write: x".to_string()));
    assert_eq!(set_root_password(&PasswordRun::NotAwaited(e.clone())), Err("Failed to wait for chpasswd: x".to_string()));
    assert_eq!(set_user_password_in_target(&PasswordRun::NotAwaited(e.clone())), Err("chpasswd failed: x".to_string()));
}

fn drive(lines: &Vec<CommandLine>, failing: Option<usize>) -> (Vec<usize>, Result<(), String>) {
    let mut issued = Vec::new();
    let mut next = first_command(lines);
    while let Some(index) = next {
        issued.push(index);
        let outcome = if Some(index) == failing {
            ran(false, Some(1), "", "boom")
        } else {
            ran(true, Some(0), "", "")
        };
        match after_command(lines, index, &outcome) {
            Ok(n) => next = n,
            Err(why) => return (issued, Err(why)),
        }
    }
    (issued, Ok(()))
}

#[test]
fn a_list_of_commands_is_run_in_order_to_its_end() {
    let lines = partition_disk("/dev/sda", &full_disk_plan(4));
    assert_eq!(lines.len(), 6);
    let (issued, result) = drive(&lines, None);
    assert_eq!(issued, vec![0, 1, 2, 3, 4, 5]);
    assert_eq!(result, Ok(()));
    let none: Vec<CommandLine> = Vec::new();
    assert_eq!(first_command(&none), None);
    assert_eq!(drive(&none, None), (Vec::new(), Ok(())));
}

#[test]
fn no_command_is_run_after_one_that_fails() {
    let lines = partition_disk("/dev/sda", &full_disk_plan(4));
    for j in 0..lines.len() {
        let (issued, result) = drive(&lines, Some(j));
        assert_eq!(issued, (0..=j).collect::<Vec<usize>>());
        assert_eq!(
            result,
            Err(format!(
                "Command '{}' failed with exit code Some(1)\n--- stderr ---\nboom",
                lines[j].program
            ))
        );
    }
    assert_eq!(
        after_command(&lines, 2, &Err("not found".to_string())),
        Err("Failed to run 'parted': not found".to_string())
    );
}

#[test]
fn after_a_command_comes_the_next_or_the_end() {
    let lines = partition_disk("/dev/sda", &full_disk_plan(0));
    assert_eq!(lines.len(), 5);
    assert_eq!(first_command(&lines), Some(0));
    let ok = ran(true, Some(0), "", "");
    assert_eq!(after_command(&lines, 0, &ok), Ok(Some(1)));
    assert_eq!(after_command(&lines, 3, &ok), Ok(Some(4)));
    assert_eq!(after_command(&lines, 4, &ok), Ok(None));
    assert_eq!(after_command(&lines, 5, &ok), Ok(None));
    assert_eq!(after_command(&lines, 9, &ran(false, Some(1), "", "x")), Ok(None));
}
