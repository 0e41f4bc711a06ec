//! What the tools that the installer runs report, turned into the results
//! and messages that the pipelines and the wizard work with.

use crate::clone::{ProcessExit, ProcessExitView};
use crate::disk::{CommandLine, CommandLineView};
use crate::text;
use vstd::prelude::*;

verus! {

/// What a process that ran to its end left behind.
#[derive(Debug)]
pub struct ProcessOutput {
    /// Whether it reported success.
    pub success: bool,
    /// Its exit code; absent where a signal ended it.
    pub code: Option<i32>,
    pub stdout: String,
    pub stderr: String,
}

/// What a [`ProcessOutput`] holds.
pub ghost struct ProcessOutputView {
    pub success: bool,
    pub code: Option<i32>,
    pub stdout: Seq<char>,
    pub stderr: Seq<char>,
}

impl DeepView for ProcessOutput {
    type V = ProcessOutputView;

    open spec fn deep_view(&self) -> ProcessOutputView {
        ProcessOutputView {
            success: self.success,
            code: self.code,
            stdout: self.stdout@,
            stderr: self.stderr@,
        }
    }
}

impl View for ProcessOutput {
    type V = ProcessOutputView;

    open spec fn view(&self) -> ProcessOutputView {
        self.deep_view()
    }
}

/// What came of running a process: its output, or why it could not be
/// started.
pub open spec fn ran_view(ran: Result<ProcessOutput, String>) -> Result<
    ProcessOutputView,
    Seq<char>,
> {
    match ran {
        Ok(output) => Ok(output@),
        Err(why) => Err(why@),
    }
}

/// The view of a result that is text either way.
pub open spec fn text_result(r: Result<String, String>) -> Result<Seq<char>, Seq<char>> {
    match r {
        Ok(t) => Ok(t@),
        Err(t) => Err(t@),
    }
}

/// One stream of a failed command as it is shown in the error: nothing
/// where the stream is empty, else a heading and the stream without the
/// white space around it.
pub open spec fn stream_report(heading: Seq<char>, stream: Seq<char>) -> Seq<char> {
    if stream.len() > 0 {
        heading + text::trimmed(stream)
    } else {
        Seq::empty()
    }
}

/// What came of a command that is run for its effect: nothing on success,
/// and on failure an error that names the command and its exit code and
/// shows what it wrote.
pub open spec fn command_result(cmd: Seq<char>, ran: Result<ProcessOutputView, Seq<char>>)
    -> Result<Seq<char>, Seq<char>> {
    match ran {
        Err(why) => Err("Failed to run '"@ + cmd + "': "@ + why),
        Ok(output) => if output.success {
            Ok(Seq::empty())
        } else {
            Err(
                "Command '"@ + cmd + "' failed with exit code "@ + text::exit_code_text(output.code)
                    + stream_report("\n--- stderr ---\n"@, output.stderr) + stream_report(
                    "\n--- stdout ---\n"@,
                    output.stdout,
                ),
            )
        },
    }
}

fn push_stream(msg: &mut String, heading: &str, stream: &str)
    ensures
        final(msg)@ == old(msg)@ + stream_report(heading@, stream@),
{
    if !stream.is_empty() {
        let mut part = String::from_str(heading);
        part.append(text::trim(stream).as_str());
        msg.append(part.as_str());
    } else {
        assert(msg@ + Seq::<char>::empty() == msg@);
    }
}

/// Says what came of running the command `cmd` for its effect.
pub fn run_cmd(cmd: &str, ran: &Result<ProcessOutput, String>) -> (r: Result<String, String>)
    ensures
        text_result(r) == command_result(cmd@, ran_view(*ran)),
{
    match ran {
        Err(why) => {
            let mut msg = String::from_str("Failed to run '");
            msg.append(cmd);
            msg.append("': ");
            msg.append(why.as_str());
            Err(msg)
        },
        Ok(output) => {
            if output.success {
                Ok(String::new())
            } else {
                let mut msg = String::from_str("Command '");
                msg.append(cmd);
                msg.append("' failed with exit code ");
                text::push_exit_code(&mut msg, output.code);
                push_stream(&mut msg, "\n--- stderr ---\n", output.stderr.as_str());
                push_stream(&mut msg, "\n--- stdout ---\n", output.stdout.as_str());
                Err(msg)
            }
        },
    }
}

/// What came of a hook: on success what it wrote, standard output first,
/// and on failure an error that names the script and its exit code and
/// shows what it wrote.
pub open spec fn hook_result(script: Seq<char>, ran: Result<ProcessOutputView, Seq<char>>)
    -> Result<Seq<char>, Seq<char>> {
    match ran {
        Err(why) => Err("Failed to run hook '"@ + script + "': "@ + why),
        Ok(output) => if output.success {
            Ok(output.stdout + output.stderr)
        } else {
            Err(
                "Hook '"@ + script + "' failed with exit code "@ + text::exit_code_text(output.code)
                    + "\n"@ + text::trimmed(output.stdout + output.stderr),
            )
        },
    }
}

/// Says what came of running the hook `script`.
pub fn run_hook(script: &str, ran: &Result<ProcessOutput, String>) -> (r: Result<String, String>)
    ensures
        text_result(r) == hook_result(script@, ran_view(*ran)),
{
    match ran {
        Err(why) => {
            let mut msg = String::from_str("Failed to run hook '");
            msg.append(script);
            msg.append("': ");
            msg.append(why.as_str());
            Err(msg)
        },
        Ok(output) => {
            let mut combined = output.stdout.clone();
            combined.append(output.stderr.as_str());
            if output.success {
                Ok(combined)
            } else {
                let mut msg = String::from_str("Hook '");
                msg.append(script);
                msg.append("' failed with exit code ");
                text::push_exit_code(&mut msg, output.code);
                msg.append("\n");
                msg.append(text::trim(combined.as_str()).as_str());
                Err(msg)
            }
        },
    }
}

/// What came of staging the generated files.
pub open spec fn staging_result(ran: Result<ProcessOutputView, Seq<char>>) -> Result<
    Seq<char>,
    Seq<char>,
> {
    match ran {
        Err(why) => Err("Failed to run 'git add': "@ + why),
        Ok(output) => if output.success {
            Ok(Seq::empty())
        } else {
            Err("git add failed: "@ + text::trimmed(output.stderr))
        },
    }
}

/// Says what came of staging the generated files.
pub fn git_add_all(ran: &Result<ProcessOutput, String>) -> (r: Result<String, String>)
    ensures
        text_result(r) == staging_result(ran_view(*ran)),
{
    match ran {
        Err(why) => {
            let mut msg = String::from_str("Failed to run 'git add': ");
            msg.append(why.as_str());
            Err(msg)
        },
        Ok(output) => {
            if output.success {
                Ok(String::new())
            } else {
                let mut msg = String::from_str("git add failed: ");
                msg.append(text::trim(output.stderr.as_str()).as_str());
                Err(msg)
            }
        },
    }
}

/// What came of a tool that is run for what it writes: on success its
/// standard output, and on failure an error that names the tool and its
/// exit code and shows its standard error after `gap`.
pub open spec fn report_result(
    tool: Seq<char>,
    gap: Seq<char>,
    ran: Result<ProcessOutputView, Seq<char>>,
) -> Result<Seq<char>, Seq<char>> {
    match ran {
        Err(why) => Err("Failed to run "@ + tool + ": "@ + why),
        Ok(output) => if output.success {
            Ok(output.stdout)
        } else {
            Err(
                tool + " failed (exit "@ + text::exit_code_text(output.code) + "):"@ + gap
                    + text::trimmed(output.stderr),
            )
        },
    }
}

fn report_outcome(tool: &str, gap: &str, ran: &Result<ProcessOutput, String>) -> (r: Result<
    String,
    String,
>)
    ensures
        text_result(r) == report_result(tool@, gap@, ran_view(*ran)),
{
    match ran {
        Err(why) => {
            let mut msg = String::from_str("Failed to run ");
            msg.append(tool);
            msg.append(": ");
            msg.append(why.as_str());
            Err(msg)
        },
        Ok(output) => {
            if output.success {
                Ok(output.stdout.clone())
            } else {
                let mut msg = String::from_str(tool);
                msg.append(" failed (exit ");
                text::push_exit_code(&mut msg, output.code);
                msg.append("):");
                msg.append(gap);
                msg.append(text::trim(output.stderr.as_str()).as_str());
                Err(msg)
            }
        },
    }
}

/// Says what came of having the hardware described: the description, or
/// why there is none.
pub fn generate_hardware_config(ran: &Result<ProcessOutput, String>) -> (r: Result<String, String>)
    ensures
        text_result(r) == report_result("nixos-generate-config"@, "\n"@, ran_view(*ran)),
{
    report_outcome("nixos-generate-config", "\n", ran)
}

/// Says what came of having the disks listed: the list as the tool wrote
/// it, or why there is none.
pub fn disk_listing_outcome(ran: &Result<ProcessOutput, String>) -> (r: Result<String, String>)
    ensures
        text_result(r) == report_result("lsblk"@, " "@, ran_view(*ran)),
{
    report_outcome("lsblk", " ", ran)
}

/// What came of the install command.
pub open spec fn install_result(exit: ProcessExitView) -> Result<Seq<char>, Seq<char>> {
    match exit {
        ProcessExitView::Success => Ok(Seq::empty()),
        ProcessExitView::Failed(code) => Err(
            "nixos-install failed with exit code "@ + text::exit_code_text(code),
        ),
        ProcessExitView::WaitFailed(why) => Err("Failed to wait for nixos-install: "@ + why),
        ProcessExitView::SpawnFailed(why) => Err("Failed to run nixos-install: "@ + why),
    }
}

/// Says what came of the install command.
pub fn install_outcome(exit: &ProcessExit) -> (r: Result<String, String>)
    ensures
        text_result(r) == install_result(exit@),
{
    match exit {
        ProcessExit::Success => Ok(String::new()),
        ProcessExit::Failed(code) => {
            let mut msg = String::from_str("nixos-install failed with exit code ");
            text::push_exit_code(&mut msg, *code);
            Err(msg)
        },
        ProcessExit::WaitFailed(why) => {
            let mut msg = String::from_str("Failed to wait for nixos-install: ");
            msg.append(why.as_str());
            Err(msg)
        },
        ProcessExit::SpawnFailed(why) => {
            let mut msg = String::from_str("Failed to run nixos-install: ");
            msg.append(why.as_str());
            Err(msg)
        },
    }
}

/// How far the command that changes a password got.
#[derive(Debug)]
pub enum PasswordRun {
    /// It could not be started.
    NotStarted(String),
    /// The password could not be handed to it.
    NotWritten(String),
    /// Its end could not be awaited.
    NotAwaited(String),
    /// It ended, with success or without.
    Ended(bool),
}

/// What a [`PasswordRun`] holds.
pub ghost enum PasswordRunView {
    NotStarted(Seq<char>),
    NotWritten(Seq<char>),
    NotAwaited(Seq<char>),
    Ended(bool),
}

impl DeepView for PasswordRun {
    type V = PasswordRunView;

    open spec fn deep_view(&self) -> PasswordRunView {
        match self {
            PasswordRun::NotStarted(why) => PasswordRunView::NotStarted(why@),
            PasswordRun::NotWritten(why) => PasswordRunView::NotWritten(why@),
            PasswordRun::NotAwaited(why) => PasswordRunView::NotAwaited(why@),
            PasswordRun::Ended(success) => PasswordRunView::Ended(*success),
        }
    }
}

impl View for PasswordRun {
    type V = PasswordRunView;

    open spec fn view(&self) -> PasswordRunView {
        self.deep_view()
    }
}

/// What is handed to the command that changes a password: the account and
/// the password on one line.
pub open spec fn password_line(account: Seq<char>, password: Seq<char>) -> Seq<char> {
    account + ":"@ + password + "\n"@
}

/// Writes what is handed to the command that changes a password.
pub fn chpasswd_input(account: &str, password: &str) -> (line: String)
    ensures
        line@ == password_line(account@, password@),
{
    let mut line = String::from_str(account);
    line.append(":");
    line.append(password);
    line.append("\n");
    line
}

/// What came of changing a password, with the words that stand before the
/// reason where the password could not be handed over and where the end
/// could not be awaited.
pub open spec fn password_result(run: PasswordRunView, unwritten: Seq<char>, unawaited: Seq<char>)
    -> Result<(), Seq<char>> {
    match run {
        PasswordRunView::NotStarted(why) => Err("Failed to run nixos-enter: "@ + why),
        PasswordRunView::NotWritten(why) => Err(unwritten + why),
        PasswordRunView::NotAwaited(why) => Err(unawaited + why),
        PasswordRunView::Ended(success) => if success {
            Ok(())
        } else {
            Err("chpasswd failed in target"@)
        },
    }
}

/// The view of what came of changing a password.
pub open spec fn unit_result(r: Result<(), String>) -> Result<(), Seq<char>> {
    match r {
        Ok(_) => Ok(()),
        Err(why) => Err(why@),
    }
}

fn password_outcome(run: &PasswordRun, unwritten: &str, unawaited: &str) -> (r: Result<(), String>)
    ensures
        unit_result(r) == password_result(run@, unwritten@, unawaited@),
{
    match run {
        PasswordRun::NotStarted(why) => {
            let mut msg = String::from_str("Failed to run nixos-enter: ");
            msg.append(why.as_str());
            Err(msg)
        },
        PasswordRun::NotWritten(why) => {
            let mut msg = String::from_str(unwritten);
            msg.append(why.as_str());
            Err(msg)
        },
        PasswordRun::NotAwaited(why) => {
            let mut msg = String::from_str(unawaited);
            msg.append(why.as_str());
            Err(msg)
        },
        PasswordRun::Ended(success) => {
            if *success {
                Ok(())
            } else {
                Err(String::from_str("chpasswd failed in target"))
            }
        },
    }
}

/// Says what came of changing the root password.
pub fn set_root_password(run: &PasswordRun) -> (r: Result<(), String>)
    ensures
        unit_result(r) == password_result(
            run@,
            "Failed to write password: "@,
            "Failed to wait for chpasswd: "@,
        ),
{
    password_outcome(run, "Failed to write password: ", "Failed to wait for chpasswd: ")
}

/// Says what came of changing the password of a user.
pub fn set_user_password_in_target(run: &PasswordRun) -> (r: Result<(), String>)
    ensures
        unit_result(r) == password_result(run@, "Failed to write: "@, "chpasswd failed: "@),
{
    password_outcome(run, "Failed to write: ", "chpasswd failed: ")
}


/// The command of a list that is run first, where the list has one.
pub open spec fn first_step(lines: Seq<CommandLineView>) -> Option<int> {
    if lines.len() > 0 {
        Some(0)
    } else {
        None
    }
}

/// What follows the command at `index` of a list, given what running it
/// gave: its failure ends the list with the error that names it, and no
/// command is run after it; its success leads to the command behind it, or
/// to the end of the list where it was the last. Beyond the list there is
/// nothing to run.
pub open spec fn command_step(
    lines: Seq<CommandLineView>,
    index: int,
    ran: Result<ProcessOutputView, Seq<char>>,
) -> Result<Option<int>, Seq<char>> {
    if 0 <= index < lines.len() {
        match command_result(lines[index].program, ran) {
            Err(why) => Err(why),
            Ok(_) => Ok(
                if index + 1 < lines.len() {
                    Some(index + 1)
                } else {
                    None
                },
            ),
        }
    } else {
        Ok(None)
    }
}

/// The view of what follows a command.
pub open spec fn step_view(r: Result<Option<usize>, String>) -> Result<Option<int>, Seq<char>> {
    match r {
        Ok(Some(next)) => Ok(Some(next as int)),
        Ok(None) => Ok(None),
        Err(why) => Err(why@),
    }
}

/// The command of a list that is to be run first.
pub fn first_command(lines: &Vec<CommandLine>) -> (first: Option<usize>)
    ensures
        match first {
            Some(index) => first_step(lines.deep_view()) == Some(index as int),
            None => first_step(lines.deep_view()) is None,
        },
{
    if lines.len() > 0 {
        Some(0)
    } else {
        None
    }
}

/// Says what follows the command at `index` of a list that is run in order
/// until a command fails, given what running that command gave: the index
/// of the command to run next, none where the list is through, or the
/// error that ends the list.
pub fn after_command(lines: &Vec<CommandLine>, index: usize, ran: &Result<ProcessOutput, String>)
    -> (r: Result<Option<usize>, String>)
    ensures
        step_view(r) == command_step(lines.deep_view(), index as int, ran_view(*ran)),
        r matches Ok(Some(next)) ==> next < lines.len(),
{
    if index >= lines.len() {
        return Ok(None);
    }
    assert(lines.deep_view()[index as int].program == lines@[index as int].program@);
    match run_cmd(lines[index].program.as_str(), ran) {
        Err(why) => Err(why),
        Ok(_) => {
            if index + 1 < lines.len() {
                Ok(Some(index + 1))
            } else {
                Ok(None)
            }
        },
    }
}

/// What a run of a list of commands comes to.
pub ghost struct BatchView {
    /// The number of commands that were run.
    pub issued: nat,
    /// Nothing, or the error of the command that failed.
    pub result: Result<(), Seq<char>>,
}

/// What running the commands of a list from `at` on comes to, where
/// `outcomes` holds for each command what running it gives: the commands
/// are run in order, and the first that fails is the last that is run.
pub open spec fn batch_from(
    lines: Seq<CommandLineView>,
    outcomes: Seq<Result<ProcessOutputView, Seq<char>>>,
    at: int,
) -> BatchView
    decreases lines.len() - at,
{
    if at < 0 || at >= lines.len() {
        BatchView { issued: 0, result: Ok(()) }
    } else {
        match command_step(lines, at, outcomes[at]) {
            Err(why) => BatchView { issued: 1, result: Err(why) },
            Ok(_) => BatchView {
                issued: 1 + batch_from(lines, outcomes, at + 1).issued,
                result: batch_from(lines, outcomes, at + 1).result,
            },
        }
    }
}

/// Whether running the command at `index` gives a failure.
pub open spec fn command_fails(
    lines: Seq<CommandLineView>,
    outcomes: Seq<Result<ProcessOutputView, Seq<char>>>,
    index: int,
) -> bool {
    command_result(lines[index].program, outcomes[index]) is Err
}

/// A list of commands stops at the first failure: where the command at
/// `failing` is the first that fails, it and every command before it are
/// run and none after it, and the run ends with the error that names that
/// command.
pub proof fn lemma_batch_stops_at_first_failure(
    lines: Seq<CommandLineView>,
    outcomes: Seq<Result<ProcessOutputView, Seq<char>>>,
    at: int,
    failing: int,
)
    requires
        0 <= at <= failing < lines.len(),
        forall|k: int| at <= k < failing ==> !command_fails(lines, outcomes, k),
        command_fails(lines, outcomes, failing),
    ensures
        batch_from(lines, outcomes, at).issued == failing - at + 1,
        batch_from(lines, outcomes, at).result == Err::<(), Seq<char>>(
            command_result(lines[failing].program, outcomes[failing])->Err_0,
        ),
    decreases failing - at,
{
    if at < failing {
        assert(!command_fails(lines, outcomes, at));
        lemma_batch_stops_at_first_failure(lines, outcomes, at + 1, failing);
    }
}

/// A list of commands of which none fails is run to its end and comes to
/// no error.
pub proof fn lemma_batch_runs_through(
    lines: Seq<CommandLineView>,
    outcomes: Seq<Result<ProcessOutputView, Seq<char>>>,
    at: int,
)
    requires
        0 <= at <= lines.len(),
        forall|k: int| at <= k < lines.len() ==> !command_fails(lines, outcomes, k),
    ensures
        batch_from(lines, outcomes, at).issued == lines.len() - at,
        batch_from(lines, outcomes, at).result == Ok::<(), Seq<char>>(()),
    decreases lines.len() - at,
{
    if at < lines.len() {
        assert(!command_fails(lines, outcomes, at));
        lemma_batch_runs_through(lines, outcomes, at + 1);
    }
}

} // verus!
