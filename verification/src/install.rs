//! The install pipeline: an ordered list of stages, each of which may fail
//! and end the run. The worker asks for the next piece of work, performs it
//! and reports how it went; the shared progress record is written here.

use crate::app::{UserEntry, UserEntryView};
use crate::disk::{
    copy_repo_lines, copy_repo_to_target, format_and_mount, format_and_mount_lines, partition_disk,
    partition_lines, plan_fits, plan_size, CommandLine, CommandLineView, PartitionPlan,
    PartitionPlanView,
};
use crate::lists::{empty_list, push_deep};
use crate::nix::{
    configuration_text, generate_configuration_nix, generate_user_nix, user_text, NixModule,
    NixModuleView,
};
use crate::text;
use vstd::prelude::*;

verus! {

/// The progress of the installation, shared between the worker that writes
/// it and the wizard that shows it.
#[derive(Debug)]
pub struct InstallState {
    /// Every line reported so far, oldest first.
    pub log: Vec<String>,
    /// The number of the stage that was started last.
    pub progress: usize,
    /// The number of stages of the run.
    pub total: usize,
    /// Why the run failed, once it has.
    pub error: Option<String>,
    pub done: bool,
}

/// What an [`InstallState`] holds.
pub ghost struct InstallStateView {
    pub log: Seq<Seq<char>>,
    pub progress: usize,
    pub total: usize,
    pub error: Option<Seq<char>>,
    pub done: bool,
}

impl DeepView for InstallState {
    type V = InstallStateView;

    open spec fn deep_view(&self) -> InstallStateView {
        InstallStateView {
            log: self.log.deep_view(),
            progress: self.progress,
            total: self.total,
            error: self.error.deep_view(),
            done: self.done,
        }
    }
}

impl View for InstallState {
    type V = InstallStateView;

    open spec fn view(&self) -> InstallStateView {
        self.deep_view()
    }
}

impl Clone for InstallState {
    fn clone(&self) -> (r: Self)
        ensures
            r@ == self@,
    {
        let log = self.log.clone();
        assert(log.deep_view() =~= self.log.deep_view());
        InstallState {
            log,
            progress: self.progress,
            total: self.total,
            error: self.error.clone(),
            done: self.done,
        }
    }
}

/// The lines that an error message is logged as: each of its lines, marked
/// as an error.
pub open spec fn error_lines(msg: Seq<char>) -> Seq<Seq<char>> {
    let lines = text::lines_of(msg);
    Seq::new(lines.len(), |i: int| "ERROR: "@ + lines[i])
}

/// The lines that the output of a hook is logged as: each of its lines that
/// is not blank, without the white space around it, marked as a hook's.
pub open spec fn hook_lines(lines: Seq<Seq<char>>) -> Seq<Seq<char>>
    decreases lines.len(),
{
    if lines.len() == 0 {
        Seq::empty()
    } else if text::trimmed(lines.last()).len() > 0 {
        hook_lines(lines.drop_last()).push("  [hook] "@ + text::trimmed(lines.last()))
    } else {
        hook_lines(lines.drop_last())
    }
}

/// The record of a run of `total` stages that has not begun.
pub open spec fn fresh_install(total: usize) -> InstallStateView {
    InstallStateView { log: Seq::empty(), progress: 0, total, error: None, done: false }
}

impl InstallStateView {
    /// Whether the run is over: it has completed or it has failed.
    pub open spec fn settled(self) -> bool {
        self.done || self.error is Some
    }
}

impl InstallState {
    /// The record of a run of `total` stages that has not begun.
    pub fn new(total: usize) -> (s: InstallState)
        ensures
            s@ == fresh_install(total),
    {
        InstallState { log: empty_list(), progress: 0, total, error: None, done: false }
    }

    /// Appends one line to the log.
    pub fn log(&mut self, msg: &str)
        ensures
            final(self)@ == (InstallStateView { log: old(self)@.log.push(msg@), ..old(self)@ }),
    {
        push_deep(&mut self.log, String::from_str(msg));
    }

    /// Appends an error message to the log, line by line.
    pub fn log_error(&mut self, msg: &str)
        ensures
            final(self)@ == (InstallStateView {
                log: old(self)@.log + error_lines(msg@),
                ..old(self)@
            }),
    {
        let lines = text::lines(msg);
        let ghost all = lines.deep_view();
        let ghost before = self.log.deep_view();
        let mut i: usize = 0;
        assert(self.log.deep_view() =~= before + Seq::new(0, |k: int| "ERROR: "@ + all[k]));
        while i < lines.len()
            invariant
                i <= lines.len(),
                all == lines.deep_view(),
                self.log.deep_view() == before + Seq::new(i as nat, |k: int| "ERROR: "@ + all[k]),
                self.progress == old(self).progress,
                self.total == old(self).total,
                self.error == old(self).error,
                self.done == old(self).done,
            decreases lines.len() - i,
        {
            let mut line = String::from_str("ERROR: ");
            line.append(lines[i].as_str());
            push_deep(&mut self.log, line);
            i += 1;
            assert(self.log.deep_view() =~= before + Seq::new(
                i as nat,
                |k: int| "ERROR: "@ + all[k],
            ));
        }
    }

    /// Appends one line that the install command wrote, without the white
    /// space around it; a blank line is not logged.
    pub fn log_streamed(&mut self, line: &str)
        ensures
            final(self)@ == (InstallStateView {
                log: if text::trimmed(line@).len() > 0 {
                    old(self)@.log.push(text::trimmed(line@))
                } else {
                    old(self)@.log
                },
                ..old(self)@
            }),
    {
        let t = text::trim(line);
        if !t.as_str().is_empty() {
            push_deep(&mut self.log, t);
        }
    }

    /// Appends what a hook wrote to the log.
    pub fn log_hook_output(&mut self, output: &str)
        ensures
            final(self)@ == (InstallStateView {
                log: old(self)@.log + hook_lines(text::lines_of(output@)),
                ..old(self)@
            }),
    {
        let lines = text::lines(output);
        let ghost all = lines.deep_view();
        let ghost before = self.log.deep_view();
        let mut i: usize = 0;
        assert(self.log.deep_view() =~= before + hook_lines(all.take(0)));
        while i < lines.len()
            invariant
                i <= lines.len(),
                all == lines.deep_view(),
                self.log.deep_view() == before + hook_lines(all.take(i as int)),
                self.progress == old(self).progress,
                self.total == old(self).total,
                self.error == old(self).error,
                self.done == old(self).done,
            decreases lines.len() - i,
        {
            let t = text::trim(lines[i].as_str());
            proof {
                assert(all.take(i + 1).drop_last() == all.take(i as int));
                assert(all.take(i + 1).last() == lines@[i as int]@);
            }
            if !t.as_str().is_empty() {
                let mut line = String::from_str("  [hook] ");
                line.append(t.as_str());
                push_deep(&mut self.log, line);
            }
            i += 1;
            assert(self.log.deep_view() =~= before + hook_lines(all.take(i as int)));
        }
        assert(all.take(lines.len() as int) == all);
    }

    /// Notes the stage that is started.
    pub fn set_progress(&mut self, progress: usize)
        ensures
            final(self)@ == (InstallStateView { progress, ..old(self)@ }),
    {
        self.progress = progress;
    }

    /// Ends the run with an error.
    pub fn fail(&mut self, msg: String)
        ensures
            final(self)@ == (InstallStateView { error: Some(msg@), ..old(self)@ }),
    {
        self.error = Some(msg);
    }
}


/// What a run installs, taken from the wizard by value when the run is
/// started.
#[derive(Debug)]
pub struct InstallJob {
    /// The device of the disk to install on.
    pub disk_path: String,
    pub partitions: Vec<PartitionPlan>,
    /// The root of the configuration repository.
    pub base_path: String,
    pub host_name: String,
    /// Whether the host is a new one, whose configuration has to be
    /// written, and not a preset.
    pub is_custom: bool,
    pub nixos_modules: Vec<NixModule>,
    pub system_packages: Vec<NixModule>,
    pub users: Vec<UserEntry>,
    pub accept_flake_config: bool,
    pub hm_base_modules: Vec<String>,
    pub pre_hooks: Vec<String>,
    pub post_hooks: Vec<String>,
}

/// What an [`InstallJob`] holds.
pub ghost struct InstallJobView {
    pub disk_path: Seq<char>,
    pub partitions: Seq<PartitionPlanView>,
    pub base_path: Seq<char>,
    pub host_name: Seq<char>,
    pub is_custom: bool,
    pub nixos_modules: Seq<NixModuleView>,
    pub system_packages: Seq<NixModuleView>,
    pub users: Seq<UserEntryView>,
    pub accept_flake_config: bool,
    pub hm_base_modules: Seq<Seq<char>>,
    pub pre_hooks: Seq<Seq<char>>,
    pub post_hooks: Seq<Seq<char>>,
}

impl DeepView for InstallJob {
    type V = InstallJobView;

    open spec fn deep_view(&self) -> InstallJobView {
        InstallJobView {
            disk_path: self.disk_path@,
            partitions: self.partitions.deep_view(),
            base_path: self.base_path@,
            host_name: self.host_name@,
            is_custom: self.is_custom,
            nixos_modules: self.nixos_modules.deep_view(),
            system_packages: self.system_packages.deep_view(),
            users: self.users.deep_view(),
            accept_flake_config: self.accept_flake_config,
            hm_base_modules: self.hm_base_modules.deep_view(),
            pre_hooks: self.pre_hooks.deep_view(),
            post_hooks: self.post_hooks.deep_view(),
        }
    }
}

impl View for InstallJob {
    type V = InstallJobView;

    open spec fn view(&self) -> InstallJobView {
        self.deep_view()
    }
}

/// The number of stages that a run has besides its hooks.
pub const BASE_STAGES: usize = 9;

impl InstallJobView {
    /// The number of stages of the run: the fixed ones and one for each
    /// hook.
    pub open spec fn total(self) -> nat {
        BASE_STAGES as nat + self.pre_hooks.len() + self.post_hooks.len()
    }

    /// Whether the run can be counted and laid out: its stage numbers are
    /// `usize` and its partition boundaries `u64`.
    pub open spec fn wf(self) -> bool {
        self.total() <= usize::MAX && plan_fits(self.partitions)
    }

    /// The names of the users, in the order in which they were added.
    pub open spec fn usernames(self) -> Seq<Seq<char>> {
        Seq::new(self.users.len(), |i: int| self.users[i].username)
    }
}

/// The stages of a run, in the order in which they are listed, and the two
/// ways in which it ends.
#[derive(Debug, Clone, Copy, PartialEq, Eq, Structural)]
pub enum Stage {
    Partition,
    FormatAndMount,
    GenerateHardware,
    WriteHardware,
    WriteHost,
    /// Writes the file of the user with this index.
    WriteUser(usize),
    StageFiles,
    /// Runs the pre-install hook with this index.
    PreHook(usize),
    Install,
    CopyRepo,
    /// Runs the post-install hook with this index.
    PostHook(usize),
    Finished,
    Failed,
}

/// What the worker is asked to do for a stage.
#[derive(Debug)]
pub enum Work {
    /// Run these commands in order until one fails.
    Run(Vec<CommandLine>),
    /// Have the hardware of the machine described, and report the
    /// description.
    GenerateHardwareConfig,
    /// Write the description of the hardware into the host's directory.
    WriteHardwareConfig { content: String },
    /// Write the host's configuration file.
    WriteHostConfig { content: String },
    /// Write the file of one user into the host's directory.
    WriteUserConfig { username: String, content: String },
    /// Put the files that were written under version control, so that the
    /// install command sees them.
    StageFiles,
    /// Run a hook script and report what it wrote.
    RunHook { script: String },
    /// Run the install command for `flake`, logging what it writes as it
    /// goes.
    RunInstall { flake: String, accept_flake_config: bool },
    /// Nothing: the run is over, or work is under way already.
    Nothing,
}

/// What a [`Work`] holds.
pub ghost enum WorkView {
    Run(Seq<CommandLineView>),
    GenerateHardwareConfig,
    WriteHardwareConfig { content: Seq<char> },
    WriteHostConfig { content: Seq<char> },
    WriteUserConfig { username: Seq<char>, content: Seq<char> },
    StageFiles,
    RunHook { script: Seq<char> },
    RunInstall { flake: Seq<char>, accept_flake_config: bool },
    Nothing,
}

impl DeepView for Work {
    type V = WorkView;

    open spec fn deep_view(&self) -> WorkView {
        match self {
            Work::Run(lines) => WorkView::Run(lines.deep_view()),
            Work::GenerateHardwareConfig => WorkView::GenerateHardwareConfig,
            Work::WriteHardwareConfig { content } => WorkView::WriteHardwareConfig {
                content: content@,
            },
            Work::WriteHostConfig { content } => WorkView::WriteHostConfig { content: content@ },
            Work::WriteUserConfig { username, content } => WorkView::WriteUserConfig {
                username: username@,
                content: content@,
            },
            Work::StageFiles => WorkView::StageFiles,
            Work::RunHook { script } => WorkView::RunHook { script: script@ },
            Work::RunInstall { flake, accept_flake_config } => WorkView::RunInstall {
                flake: flake@,
                accept_flake_config: *accept_flake_config,
            },
            Work::Nothing => WorkView::Nothing,
        }
    }
}

impl View for Work {
    type V = WorkView;

    open spec fn view(&self) -> WorkView {
        self.deep_view()
    }
}

/// The stage that runs where `stage` is due: `stage` itself, or, where it
/// has nothing to do, the first after it that has.
pub open spec fn settle(job: InstallJobView, stage: Stage) -> Stage {
    match stage {
        Stage::WriteHost => if job.is_custom {
            Stage::WriteHost
        } else if 0 < job.users.len() {
            Stage::WriteUser(0)
        } else {
            Stage::StageFiles
        },
        Stage::WriteUser(i) => if i < job.users.len() {
            stage
        } else {
            Stage::StageFiles
        },
        Stage::PreHook(i) => if i < job.pre_hooks.len() {
            stage
        } else {
            Stage::Install
        },
        Stage::PostHook(i) => if i < job.post_hooks.len() {
            stage
        } else {
            Stage::Finished
        },
        _ => stage,
    }
}

/// The stage that is due once `stage` has succeeded.
pub open spec fn following(stage: Stage) -> Stage {
    match stage {
        Stage::Partition => Stage::FormatAndMount,
        Stage::FormatAndMount => Stage::GenerateHardware,
        Stage::GenerateHardware => Stage::WriteHardware,
        Stage::WriteHardware => Stage::WriteHost,
        Stage::WriteHost => Stage::WriteUser(0),
        Stage::WriteUser(i) => Stage::WriteUser((i + 1) as usize),
        Stage::StageFiles => Stage::PreHook(0),
        Stage::PreHook(i) => Stage::PreHook((i + 1) as usize),
        Stage::Install => Stage::CopyRepo,
        Stage::CopyRepo => Stage::PostHook(0),
        Stage::PostHook(i) => Stage::PostHook((i + 1) as usize),
        Stage::Finished => Stage::Finished,
        Stage::Failed => Stage::Failed,
    }
}

/// Whether `stage` is one that a run of `job` can be at: it has work to
/// do, or the run is over.
pub open spec fn stage_valid(job: InstallJobView, stage: Stage) -> bool {
    settle(job, stage) == stage
}

/// The number of a stage, as the progress record counts them.
pub open spec fn progress_of(job: InstallJobView, stage: Stage) -> nat {
    match stage {
        Stage::Partition => 1,
        Stage::FormatAndMount => 2,
        Stage::GenerateHardware => 3,
        Stage::WriteHardware => 4,
        Stage::WriteHost => 5,
        Stage::WriteUser(_) => 5,
        Stage::StageFiles => 6,
        Stage::PreHook(i) => 7 + i as nat,
        Stage::Install => 7 + job.pre_hooks.len(),
        Stage::CopyRepo => 8 + job.pre_hooks.len(),
        Stage::PostHook(i) => 9 + job.pre_hooks.len() + i as nat,
        Stage::Finished => job.total(),
        Stage::Failed => 0,
    }
}

/// The line that is logged when a stage starts.
pub open spec fn start_message(job: InstallJobView, stage: Stage) -> Seq<char> {
    match stage {
        Stage::Partition => "Partitioning "@ + job.disk_path + "..."@,
        Stage::FormatAndMount => "Formatting and mounting partitions..."@,
        Stage::GenerateHardware => "Generating hardware configuration..."@,
        Stage::WriteHardware => "Writing hardware configuration..."@,
        Stage::WriteHost => "Writing host configuration..."@,
        Stage::WriteUser(i) => "Writing user-"@ + job.users[i as int].username + ".nix..."@,
        Stage::StageFiles => "Staging generated files (git add)..."@,
        Stage::PreHook(i) => "Running pre-install hook: "@ + job.pre_hooks[i as int] + "..."@,
        Stage::Install => "Running nixos-install (this may take a while)..."@,
        Stage::CopyRepo => "Copying repository to /mnt/etc/nixos/..."@,
        Stage::PostHook(i) => "Running post-install hook: "@ + job.post_hooks[i as int] + "..."@,
        Stage::Finished => "Installation complete!"@,
        Stage::Failed => Seq::empty(),
    }
}

/// What stands before the reason in the error of a stage that failed.
pub open spec fn failure_prefix(stage: Stage) -> Seq<char> {
    match stage {
        Stage::Partition => "Partitioning failed: "@,
        Stage::FormatAndMount => "Format/mount failed: "@,
        Stage::GenerateHardware => "Hardware config generation failed: "@,
        Stage::WriteHardware => "Failed to write hardware config: "@,
        Stage::WriteHost => "Failed to write configuration: "@,
        Stage::WriteUser(_) => "Failed to write user config: "@,
        Stage::StageFiles => "git add failed: "@,
        Stage::PreHook(_) => "Pre-install hook failed: "@,
        Stage::Install => Seq::empty(),
        Stage::CopyRepo => "Failed to copy repo to target: "@,
        Stage::PostHook(_) => "Post-install hook failed: "@,
        Stage::Finished => Seq::empty(),
        Stage::Failed => Seq::empty(),
    }
}

/// What a pipeline holds.
pub ghost struct PipelineView {
    /// What is installed.
    pub job: InstallJobView,
    /// The stage that is due or under way.
    pub stage: Stage,
    /// Whether the work of `stage` has been handed out and not reported
    /// back.
    pub running: bool,
    /// The description of the hardware, once it has been generated.
    pub hardware_config: Seq<char>,
}

/// The work of the stage that a pipeline is at.
pub open spec fn work_of(p: PipelineView) -> WorkView {
    let job = p.job;
    match p.stage {
        Stage::Partition => WorkView::Run(partition_lines(job.disk_path, job.partitions)),
        Stage::FormatAndMount => WorkView::Run(
            format_and_mount_lines(job.disk_path, job.partitions),
        ),
        Stage::GenerateHardware => WorkView::GenerateHardwareConfig,
        Stage::WriteHardware => WorkView::WriteHardwareConfig { content: p.hardware_config },
        Stage::WriteHost => WorkView::WriteHostConfig {
            content: configuration_text(
                job.host_name,
                job.nixos_modules,
                job.system_packages,
                job.usernames(),
            ),
        },
        Stage::WriteUser(i) => WorkView::WriteUserConfig {
            username: job.users[i as int].username,
            content: user_text(
                job.host_name,
                job.users[i as int].username,
                job.users[i as int].hm_modules,
                job.users[i as int].package_modules,
                job.hm_base_modules,
            ),
        },
        Stage::StageFiles => WorkView::StageFiles,
        Stage::PreHook(i) => WorkView::RunHook { script: job.pre_hooks[i as int] },
        Stage::Install => WorkView::RunInstall {
            flake: job.base_path + "#"@ + job.host_name,
            accept_flake_config: job.accept_flake_config,
        },
        Stage::CopyRepo => WorkView::Run(copy_repo_lines(job.base_path)),
        Stage::PostHook(i) => WorkView::RunHook { script: job.post_hooks[i as int] },
        Stage::Finished => WorkView::Nothing,
        Stage::Failed => WorkView::Nothing,
    }
}

/// Whether a pipeline hands out work when asked: no work is under way, the
/// run is not over, and the record says so too.
pub open spec fn can_start(p: PipelineView, s: InstallStateView) -> bool {
    !p.running && !s.settled() && p.stage != Stage::Finished && p.stage != Stage::Failed
}

/// The record after the work of stage `stage` has been handed out: the
/// stage's start is logged and its number noted.
pub open spec fn started(job: InstallJobView, stage: Stage, s: InstallStateView)
    -> InstallStateView {
    InstallStateView {
        log: s.log.push(start_message(job, stage)),
        progress: progress_of(job, stage) as usize,
        ..s
    }
}

/// The record after the work of stage `stage` has failed for the reason
/// `why`: the error is logged and set, and nothing else changes.
pub open spec fn failed(stage: Stage, s: InstallStateView, why: Seq<char>) -> InstallStateView {
    InstallStateView {
        log: s.log + error_lines(failure_prefix(stage) + why),
        error: Some(failure_prefix(stage) + why),
        ..s
    }
}

/// The record after the work of stage `stage` has succeeded with the
/// output `output`: what a hook wrote is logged, and where no stage is
/// left the run is complete.
pub open spec fn succeeded(job: InstallJobView, stage: Stage, s: InstallStateView, output: Seq<char>)
    -> InstallStateView {
    let log = if stage is PreHook || stage is PostHook {
        s.log + hook_lines(text::lines_of(output))
    } else {
        s.log
    };
    if settle(job, following(stage)) == Stage::Finished {
        InstallStateView {
            log: log.push(start_message(job, Stage::Finished)),
            progress: job.total() as usize,
            done: true,
            ..s
        }
    } else {
        InstallStateView { log, ..s }
    }
}

/// The pipeline after the work of its stage has been reported.
pub open spec fn reported(p: PipelineView, outcome: Result<Seq<char>, Seq<char>>) -> PipelineView {
    match outcome {
        Ok(output) => PipelineView {
            stage: settle(p.job, following(p.stage)),
            running: false,
            hardware_config: if p.stage == Stage::GenerateHardware {
                output
            } else {
                p.hardware_config
            },
            ..p
        },
        Err(_) => PipelineView { stage: Stage::Failed, running: false, ..p },
    }
}

/// The view of what a piece of work reports.
pub open spec fn outcome_view(outcome: Result<String, String>) -> Result<Seq<char>, Seq<char>> {
    match outcome {
        Ok(output) => Ok(output@),
        Err(why) => Err(why@),
    }
}

/// A run of the install pipeline.
#[derive(Debug)]
pub struct InstallPipeline {
    job: InstallJob,
    stage: Stage,
    running: bool,
    hardware_config: String,
}

impl View for InstallPipeline {
    type V = PipelineView;

    closed spec fn view(&self) -> PipelineView {
        PipelineView {
            job: self.job@,
            stage: self.stage,
            running: self.running,
            hardware_config: self.hardware_config@,
        }
    }
}

impl InstallJob {
    /// Decides whether the job can be run.
    pub fn is_sound(&self) -> (r: bool)
        ensures
            r == self@.wf(),
    {
        let pre = self.pre_hooks.len();
        let post = self.post_hooks.len();
        if pre > usize::MAX - BASE_STAGES || post > usize::MAX - BASE_STAGES - pre {
            return false;
        }
        plan_size(&self.partitions).is_some()
    }

    fn usernames(&self) -> (names: Vec<String>)
        ensures
            names.deep_view() == self@.usernames(),
    {
        let mut names: Vec<String> = empty_list();
        let ghost users = self.users.deep_view();
        let mut i: usize = 0;
        assert(names.deep_view() =~= Seq::new(0, |k: int| users[k].username));
        while i < self.users.len()
            invariant
                i <= self.users.len(),
                users == self.users.deep_view(),
                names.deep_view() == Seq::new(i as nat, |k: int| users[k].username),
            decreases self.users.len() - i,
        {
            push_deep(&mut names, self.users[i].username.clone());
            i += 1;
            assert(names.deep_view() =~= Seq::new(i as nat, |k: int| users[k].username));
        }
        names
    }
}

impl InstallPipeline {
    #[verifier::type_invariant]
    spec fn inv(self) -> bool {
        self.job@.wf() && stage_valid(self.job@, self.stage)
    }

    /// A pipeline for `job` that has not begun; none where the job cannot
    /// be run.
    pub fn new(job: InstallJob) -> (r: Option<InstallPipeline>)
        ensures
            r is Some <==> job@.wf(),
            r is Some ==> r->0@ == (PipelineView {
                job: job@,
                stage: Stage::Partition,
                running: false,
                hardware_config: Seq::empty(),
            }),
    {
        if job.is_sound() {
            Some(
                InstallPipeline {
                    job,
                    stage: Stage::Partition,
                    running: false,
                    hardware_config: String::new(),
                },
            )
        } else {
            None
        }
    }

    /// The progress record for this run, before it begins. Its total is
    /// the number of stages of the run and stays what it is.
    pub fn fresh_state(&self) -> (s: InstallState)
        ensures
            s@ == fresh_install(self@.job.total() as usize),
            self@.job.wf(),
    {
        proof {
            use_type_invariant(self);
        }
        InstallState::new(BASE_STAGES + self.job.pre_hooks.len() + self.job.post_hooks.len())
    }

    /// The stage that is due or under way.
    pub fn stage(&self) -> (stage: Stage)
        ensures
            stage == self@.stage,
            stage_valid(self@.job, stage),
            self@.job.wf(),
    {
        proof {
            use_type_invariant(self);
        }
        self.stage
    }

    /// Hands out the work of the stage that is due, after logging its start
    /// and noting its number in `state`. Once the run has completed or
    /// failed, and while work is under way, there is nothing to hand out
    /// and nothing changes.
    pub fn next(&mut self, state: &mut InstallState) -> (work: Work)
        ensures
            can_start(old(self)@, old(state)@) ==> {
                &&& final(self)@ == (PipelineView { running: true, ..old(self)@ })
                &&& final(state)@ == started(old(self)@.job, old(self)@.stage, old(state)@)
                &&& work@ == work_of(old(self)@)
            },
            !can_start(old(self)@, old(state)@) ==> {
                &&& final(self)@ == old(self)@
                &&& final(state)@ == old(state)@
                &&& work@ == WorkView::Nothing
            },
    {
        proof {
            use_type_invariant(&*self);
        }
        if self.running || state.done || state.error.is_some() {
            return Work::Nothing;
        }
        let ghost job = self.job@;
        let pre = self.job.pre_hooks.len();
        let (message, progress, work) = match self.stage {
            Stage::Partition => {
                let mut m = String::from_str("Partitioning ");
                m.append(self.job.disk_path.as_str());
                m.append("...");
                (m, 1, Work::Run(partition_disk(self.job.disk_path.as_str(), &self.job.partitions)))
            },
            Stage::FormatAndMount => (
                String::from_str("Formatting and mounting partitions..."),
                2,
                Work::Run(format_and_mount(self.job.disk_path.as_str(), &self.job.partitions)),
            ),
            Stage::GenerateHardware => (
                String::from_str("Generating hardware configuration..."),
                3,
                Work::GenerateHardwareConfig,
            ),
            Stage::WriteHardware => (
                String::from_str("Writing hardware configuration..."),
                4,
                Work::WriteHardwareConfig { content: self.hardware_config.clone() },
            ),
            Stage::WriteHost => {
                let names = self.job.usernames();
                (
                    String::from_str("Writing host configuration..."),
                    5,
                    Work::WriteHostConfig {
                        content: generate_configuration_nix(
                            self.job.host_name.as_str(),
                            &self.job.nixos_modules,
                            &self.job.system_packages,
                            &names,
                        ),
                    },
                )
            },
            Stage::WriteUser(i) => {
                let user = &self.job.users[i];
                assert(job.users[i as int] == user@);
                let mut m = String::from_str("Writing user-");
                m.append(user.username.as_str());
                m.append(".nix...");
                (
                    m,
                    5,
                    Work::WriteUserConfig {
                        username: user.username.clone(),
                        content: generate_user_nix(
                            self.job.host_name.as_str(),
                            user.username.as_str(),
                            &user.hm_modules,
                            &user.package_modules,
                            &self.job.hm_base_modules,
                        ),
                    },
                )
            },
            Stage::StageFiles => (
                String::from_str("Staging generated files (git add)..."),
                6,
                Work::StageFiles,
            ),
            Stage::PreHook(i) => {
                let hook = &self.job.pre_hooks[i];
                assert(job.pre_hooks[i as int] == hook@);
                let mut m = String::from_str("Running pre-install hook: ");
                m.append(hook.as_str());
                m.append("...");
                (m, 7 + i, Work::RunHook { script: hook.clone() })
            },
            Stage::Install => {
                let mut flake = self.job.base_path.clone();
                flake.append("#");
                flake.append(self.job.host_name.as_str());
                (
                    String::from_str("Running nixos-install (this may take a while)..."),
                    7 + pre,
                    Work::RunInstall {
                        flake,
                        accept_flake_config: self.job.accept_flake_config,
                    },
                )
            },
            Stage::CopyRepo => (
                String::from_str("Copying repository to /mnt/etc/nixos/..."),
                8 + pre,
                Work::Run(copy_repo_to_target(self.job.base_path.as_str())),
            ),
            Stage::PostHook(i) => {
                let hook = &self.job.post_hooks[i];
                assert(job.post_hooks[i as int] == hook@);
                let mut m = String::from_str("Running post-install hook: ");
                m.append(hook.as_str());
                m.append("...");
                (m, 9 + pre + i, Work::RunHook { script: hook.clone() })
            },
            Stage::Finished => {
                return Work::Nothing;
            },
            Stage::Failed => {
                return Work::Nothing;
            },
        };
        push_deep(&mut state.log, message);
        state.progress = progress;
        self.running = true;
        work
    }

    /// Takes in how the work that was handed out last went. A failure ends
    /// the run: the reason, after the stage's own words, is logged and set
    /// as the record's error, and no later stage is started. A success
    /// moves on to the next stage that has work, and completes the run
    /// where none is left. Where no work is under way nothing changes.
    pub fn complete(&mut self, state: &mut InstallState, outcome: Result<String, String>)
        ensures
            old(self)@.running ==> {
                &&& final(self)@ == reported(old(self)@, outcome_view(outcome))
                &&& final(state)@ == match outcome {
                    Ok(output) => succeeded(
                        old(self)@.job,
                        old(self)@.stage,
                        old(state)@,
                        output@,
                    ),
                    Err(why) => failed(old(self)@.stage, old(state)@, why@),
                }
            },
            !old(self)@.running ==> final(self)@ == old(self)@ && final(state)@ == old(state)@,
    {
        proof {
            use_type_invariant(&*self);
        }
        if !self.running {
            return ;
        }
        self.running = false;
        match outcome {
            Err(why) => {
                let mut msg = match self.stage {
                    Stage::Partition => String::from_str("Partitioning failed: "),
                    Stage::FormatAndMount => String::from_str("Format/mount failed: "),
                    Stage::GenerateHardware => String::from_str(
                        "Hardware config generation failed: ",
                    ),
                    Stage::WriteHardware => String::from_str("Failed to write hardware config: "),
                    Stage::WriteHost => String::from_str("Failed to write configuration: "),
                    Stage::WriteUser(_) => String::from_str("Failed to write user config: "),
                    Stage::StageFiles => String::from_str("git add failed: "),
                    Stage::PreHook(_) => String::from_str("Pre-install hook failed: "),
                    Stage::Install => String::new(),
                    Stage::CopyRepo => String::from_str("Failed to copy repo to target: "),
                    Stage::PostHook(_) => String::from_str("Post-install hook failed: "),
                    Stage::Finished => String::new(),
                    Stage::Failed => String::new(),
                };
                msg.append(why.as_str());
                state.log_error(msg.as_str());
                state.error = Some(msg);
                self.stage = Stage::Failed;
            },
            Ok(output) => {
                let stage = self.stage;
                let next = self.settled_after(stage);
                match stage {
                    Stage::PreHook(_) => {
                        state.log_hook_output(output.as_str());
                    },
                    Stage::PostHook(_) => {
                        state.log_hook_output(output.as_str());
                    },
                    Stage::GenerateHardware => {
                        self.hardware_config = output;
                    },
                    _ => {},
                }
                self.stage = next;
                if next == Stage::Finished {
                    state.progress = BASE_STAGES + self.job.pre_hooks.len()
                        + self.job.post_hooks.len();
                    push_deep(&mut state.log, String::from_str("Installation complete!"));
                    state.done = true;
                }
            },
        }
    }

    fn settled_after(&self, stage: Stage) -> (next: Stage)
        requires
            stage_valid(self@.job, stage),
        ensures
            next == settle(self@.job, following(stage)),
            stage_valid(self@.job, next),
    {
        proof {
            use_type_invariant(self);
            assert(self@.job.users.len() == self.job.users.len());
            assert(self@.job.pre_hooks.len() == self.job.pre_hooks.len());
            assert(self@.job.post_hooks.len() == self.job.post_hooks.len());
        }
        match stage {
            Stage::Partition => Stage::FormatAndMount,
            Stage::FormatAndMount => Stage::GenerateHardware,
            Stage::GenerateHardware => Stage::WriteHardware,
            Stage::WriteHardware => {
                if self.job.is_custom {
                    Stage::WriteHost
                } else {
                    self.user_stage(0)
                }
            },
            Stage::WriteHost => self.user_stage(0),
            Stage::WriteUser(i) => self.user_stage(i + 1),
            Stage::StageFiles => self.pre_stage(0),
            Stage::PreHook(i) => self.pre_stage(i + 1),
            Stage::Install => Stage::CopyRepo,
            Stage::CopyRepo => self.post_stage(0),
            Stage::PostHook(i) => self.post_stage(i + 1),
            Stage::Finished => Stage::Finished,
            Stage::Failed => Stage::Failed,
        }
    }

    fn user_stage(&self, i: usize) -> (next: Stage)
        ensures
            next == settle(self@.job, Stage::WriteUser(i)),
            stage_valid(self@.job, next),
    {
        if i < self.job.users.len() {
            Stage::WriteUser(i)
        } else {
            Stage::StageFiles
        }
    }

    fn pre_stage(&self, i: usize) -> (next: Stage)
        ensures
            next == settle(self@.job, Stage::PreHook(i)),
            stage_valid(self@.job, next),
    {
        if i < self.job.pre_hooks.len() {
            Stage::PreHook(i)
        } else {
            Stage::Install
        }
    }

    fn post_stage(&self, i: usize) -> (next: Stage)
        ensures
            next == settle(self@.job, Stage::PostHook(i)),
            stage_valid(self@.job, next),
    {
        if i < self.job.post_hooks.len() {
            Stage::PostHook(i)
        } else {
            Stage::Finished
        }
    }
}


/// The progress record only grows: whatever a stage does to it, the lines
/// that were logged stay where they are, in their order, and the total
/// stays what it was.
pub proof fn lemma_record_grows(
    job: InstallJobView,
    stage: Stage,
    s: InstallStateView,
    text: Seq<char>,
)
    ensures
        s.log.is_prefix_of(started(job, stage, s).log),
        s.log.is_prefix_of(failed(stage, s, text).log),
        s.log.is_prefix_of(succeeded(job, stage, s, text).log),
        started(job, stage, s).total == s.total,
        failed(stage, s, text).total == s.total,
        succeeded(job, stage, s, text).total == s.total,
{
}

/// A stage that fails ends the run: the error is set, the progress stays
/// at the number of the stage that failed, the run is not marked as done,
/// nothing but the error is logged after the stage's start, and no work is
/// handed out any more.
pub proof fn lemma_failure_ends_run(p: PipelineView, s: InstallStateView, why: Seq<char>)
    requires
        can_start(p, s),
    ensures
        ({
            let begun = started(p.job, p.stage, s);
            let ended = failed(p.stage, begun, why);
            let stopped = reported(PipelineView { running: true, ..p }, Err(why));
            &&& ended.error == Some(failure_prefix(p.stage) + why)
            &&& ended.progress == progress_of(p.job, p.stage) as usize
            &&& !ended.done
            &&& ended.log == s.log.push(start_message(p.job, p.stage)) + error_lines(
                failure_prefix(p.stage) + why,
            )
            &&& !can_start(stopped, ended)
            &&& stopped.stage == Stage::Failed
        }),
{
}

/// Once the record says that the run has completed or failed, no stage is
/// started: asking for work changes nothing.
pub proof fn lemma_settled_run_stays(p: PipelineView, s: InstallStateView)
    requires
        s.settled(),
    ensures
        !can_start(p, s),
{
}

/// A run is marked as done only by the success of its last stage.
pub proof fn lemma_done_only_at_the_end(
    job: InstallJobView,
    stage: Stage,
    s: InstallStateView,
    text: Seq<char>,
)
    requires
        !s.done,
    ensures
        !started(job, stage, s).done,
        !failed(stage, s, text).done,
        succeeded(job, stage, s, text).done <==> settle(job, following(stage)) == Stage::Finished,
        succeeded(job, stage, s, text).done ==> succeeded(job, stage, s, text).progress
            == job.total() as usize,
{
}


/// The progress never falls: the stage that follows a stage has a number
/// that is no smaller, and no stage has a number beyond the total, which
/// is the number that a completed run ends on.
pub proof fn lemma_progress_rises(job: InstallJobView, stage: Stage)
    requires
        job.wf(),
        job.users.len() <= usize::MAX,
        stage_valid(job, stage),
        stage != Stage::Failed,
    ensures
        progress_of(job, stage) <= progress_of(job, settle(job, following(stage))),
        progress_of(job, stage) <= job.total(),
        progress_of(job, Stage::Finished) == job.total(),
        stage_valid(job, settle(job, following(stage))),
{
}

} // verus!
