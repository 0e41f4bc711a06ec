//! The two pipelines as the wizard sees them: what it copies from their
//! records on every tick, and how it starts the installation.

use crate::app::{clone_users, App, AppView, Shared};
use crate::clone::CloneState;
use crate::disk::clone_plan;
use crate::install::{
    fresh_install, InstallJob, InstallJobView, InstallPipeline, InstallState, InstallStateView,
    PipelineView, Stage, BASE_STAGES,
};
use crate::lists::push_deep;
use crate::nix::{clone_modules, clone_strings};
use vstd::prelude::*;

verus! {

/// The number of stages of a run with so many hooks, as far as it can be
/// counted.
pub open spec fn counted_total(pre_hooks: nat, post_hooks: nat) -> usize {
    if BASE_STAGES + pre_hooks + post_hooks <= usize::MAX {
        (BASE_STAGES + pre_hooks + post_hooks) as usize
    } else {
        usize::MAX
    }
}

/// The record of a run that was refused before its first stage.
pub open spec fn refused_install(total: usize, why: Seq<char>) -> InstallStateView {
    InstallStateView {
        log: seq!["ERROR: "@ + why],
        progress: 0,
        total,
        error: Some(why),
        done: false,
    }
}

impl AppView {
    /// The state with what a look at the clone's record gave: a copy of
    /// the record, or, where the worker ended abnormally, the clone ended
    /// with an error. The log on screen follows its last line unless the
    /// operator has scrolled away from it.
    pub open spec fn synced_clone(self, read: Shared<CloneState>) -> AppView {
        let copied = match read {
            Shared::Held(s) => AppView {
                clone_log: s@.log,
                clone_phase: s@.phase,
                clone_percent: s@.percent,
                clone_error: s@.error,
                clone_done: s@.done,
                ..self
            },
            Shared::Poisoned => AppView {
                clone_error: Some("Clone thread crashed unexpectedly"@),
                clone_done: true,
                ..self
            },
            Shared::Absent => self,
        };
        AppView {
            clone_log_scroll: if copied.auto_scroll && copied.clone_log.len() > 0 {
                (copied.clone_log.len() - 1) as usize
            } else {
                copied.clone_log_scroll
            },
            ..copied
        }
    }

    /// The state with what a look at the installation's record gave: a
    /// copy of the record, or, where the worker ended abnormally, an
    /// error. The log on screen follows its last line unless the operator
    /// has scrolled away from it.
    pub open spec fn synced_install(self, read: Shared<InstallState>) -> AppView {
        let copied = match read {
            Shared::Held(s) => AppView {
                install_log: s@.log,
                install_progress: s@.progress,
                install_total: s@.total,
                install_error: s@.error,
                install_done: s@.done,
                ..self
            },
            Shared::Poisoned => AppView {
                install_error: Some("Installation thread crashed unexpectedly"@),
                ..self
            },
            Shared::Absent => self,
        };
        AppView {
            log_scroll: if copied.auto_scroll && copied.install_log.len() > 0 {
                (copied.install_log.len() - 1) as usize
            } else {
                copied.log_scroll
            },
            ..copied
        }
    }

    /// What is to be installed, where a disk has been selected.
    pub open spec fn install_job(self) -> Option<InstallJobView> {
        match self.selected_disk {
            Some(disk) => Some(
                InstallJobView {
                    disk_path: disk.path,
                    partitions: self.partitions,
                    base_path: self.base_path,
                    host_name: self.host_name,
                    is_custom: self.is_custom,
                    nixos_modules: self.nixos_modules,
                    system_packages: self.system_packages,
                    users: self.users,
                    accept_flake_config: self.accept_flake_config,
                    hm_base_modules: self.config.hm_base_modules,
                    pre_hooks: self.config.pre_install_hooks,
                    post_hooks: self.config.post_install_hooks,
                },
            ),
            None => None,
        }
    }

    /// The number of stages of the installation, as far as it can be
    /// counted.
    pub open spec fn stage_total(self) -> usize {
        counted_total(self.config.pre_install_hooks.len(), self.config.post_install_hooks.len())
    }
}

impl App {
    /// Takes in what a look at the clone's record gave.
    pub fn sync_clone_state(&mut self, read: Shared<CloneState>)
        ensures
            final(self)@ == old(self)@.synced_clone(read),
    {
        match read {
            Shared::Held(s) => {
                self.clone_log = s.log;
                self.clone_phase = s.phase;
                self.clone_percent = s.percent;
                self.clone_error = s.error;
                self.clone_done = s.done;
            },
            Shared::Poisoned => {
                self.clone_error = Some(String::from_str("Clone thread crashed unexpectedly"));
                self.clone_done = true;
            },
            Shared::Absent => {},
        }
        if self.auto_scroll && self.clone_log.len() > 0 {
            self.clone_log_scroll = self.clone_log.len() - 1;
        }
    }

    /// Takes in what a look at the installation's record gave.
    pub fn sync_install_state(&mut self, read: Shared<InstallState>)
        ensures
            final(self)@ == old(self)@.synced_install(read),
    {
        match read {
            Shared::Held(s) => {
                self.install_log = s.log;
                self.install_progress = s.progress;
                self.install_total = s.total;
                self.install_error = s.error;
                self.install_done = s.done;
            },
            Shared::Poisoned => {
                self.install_error = Some(
                    String::from_str("Installation thread crashed unexpectedly"),
                );
            },
            Shared::Absent => {},
        }
        if self.auto_scroll && self.install_log.len() > 0 {
            self.log_scroll = self.install_log.len() - 1;
        }
    }

    fn stage_total(&self) -> (total: usize)
        ensures
            total == self@.stage_total(),
    {
        let pre = self.config.pre_install_hooks.len();
        let post = self.config.post_install_hooks.len();
        if pre > usize::MAX - BASE_STAGES || post > usize::MAX - BASE_STAGES - pre {
            usize::MAX
        } else {
            BASE_STAGES + pre + post
        }
    }

    fn install_job(&self) -> (job: Option<InstallJob>)
        ensures
            job.deep_view() == self@.install_job(),
    {
        match &self.selected_disk {
            Some(disk) => Some(
                InstallJob {
                    disk_path: disk.path.clone(),
                    partitions: clone_plan(&self.partitions),
                    base_path: self.base_path.clone(),
                    host_name: self.host_name.clone(),
                    is_custom: self.is_custom,
                    nixos_modules: clone_modules(&self.nixos_modules),
                    system_packages: clone_modules(&self.system_packages),
                    users: clone_users(&self.users),
                    accept_flake_config: self.accept_flake_config,
                    hm_base_modules: clone_strings(&self.config.hm_base_modules),
                    pre_hooks: clone_strings(&self.config.pre_install_hooks),
                    post_hooks: clone_strings(&self.config.post_install_hooks),
                },
            ),
            None => None,
        }
    }

    fn refuse_install(&self, why: &str) -> (state: InstallState)
        ensures
            state@ == refused_install(self@.stage_total(), why@),
    {
        let mut state = InstallState::new(self.stage_total());
        let mut line = String::from_str("ERROR: ");
        line.append(why);
        push_deep(&mut state.log, line);
        state.error = Some(String::from_str(why));
        assert(state@.log =~= seq!["ERROR: "@ + why@]);
        state
    }

    /// Sets up the installation: the record that the worker and the wizard
    /// share, and the pipeline for the worker to run, which holds a copy
    /// of everything that is to be installed. Without a disk there is no
    /// pipeline and the record holds the error; so it is with a plan or a
    /// list of hooks too large to lay out.
    pub fn start_installation(&self) -> (r: (InstallState, Option<InstallPipeline>))
        ensures
            match self@.install_job() {
                None => r.1 is None && r.0@ == refused_install(
                    self@.stage_total(),
                    "No disk selected"@,
                ),
                Some(job) => if job.wf() {
                    &&& r.1 is Some
                    &&& r.1->0@ == (PipelineView {
                        job,
                        stage: Stage::Partition,
                        running: false,
                        hardware_config: Seq::empty(),
                    })
                    &&& r.0@ == fresh_install(job.total() as usize)
                } else {
                    r.1 is None && r.0@ == refused_install(
                        self@.stage_total(),
                        "Installation plan is too large"@,
                    )
                },
            },
    {
        match self.install_job() {
            None => (self.refuse_install("No disk selected"), None),
            Some(job) => {
                match InstallPipeline::new(job) {
                    Some(pipeline) => {
                        let state = pipeline.fresh_state();
                        (state, Some(pipeline))
                    },
                    None => (self.refuse_install("Installation plan is too large"), None),
                }
            },
        }
    }
}

} // verus!
