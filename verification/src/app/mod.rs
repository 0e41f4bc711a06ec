//! The wizard: which screen is current, what the operator has entered so
//! far, and how each key moves it on.

use crate::config::{InstallerConfig, InstallerConfigView};
use crate::disk::{
    plan_fits, plan_size, BlockDevice, BlockDeviceView, PartitionPlan, PartitionPlanView,
};
use crate::nix::{HostPreset, HostPresetView, NixModule, NixModuleView};
use crate::text;
use crate::theme::Theme;
use vstd::prelude::*;

pub mod disks;
pub mod hosts;
pub mod keys;
pub mod laws;
pub mod navigation;
pub mod passwords;
pub mod progress;
pub mod setup;
pub mod titles;
pub mod users;

verus! {

/// A user account that the operator has added.
#[derive(Debug)]
pub struct UserEntry {
    pub username: String,
    /// Held only until it has been applied to the installed system.
    pub password: String,
    pub hm_modules: Vec<NixModule>,
    pub package_modules: Vec<NixModule>,
    /// Whether the operator has to select modules for this user. It is
    /// decided once, when the user is added: a user for whom the host
    /// already holds a configuration needs no selection.
    pub needs_hm_selection: bool,
}

/// What a [`UserEntry`] holds.
pub ghost struct UserEntryView {
    pub username: Seq<char>,
    pub password: Seq<char>,
    pub hm_modules: Seq<NixModuleView>,
    pub package_modules: Seq<NixModuleView>,
    pub needs_hm_selection: bool,
}

impl DeepView for UserEntry {
    type V = UserEntryView;

    open spec fn deep_view(&self) -> UserEntryView {
        UserEntryView {
            username: self.username@,
            password: self.password@,
            hm_modules: self.hm_modules.deep_view(),
            package_modules: self.package_modules.deep_view(),
            needs_hm_selection: self.needs_hm_selection,
        }
    }
}

impl View for UserEntry {
    type V = UserEntryView;

    open spec fn view(&self) -> UserEntryView {
        self.deep_view()
    }
}

impl Clone for UserEntry {
    fn clone(&self) -> (r: Self)
        ensures
            r@ == self@,
    {
        let hm_modules = self.hm_modules.clone();
        let package_modules = self.package_modules.clone();
        assert(hm_modules.deep_view() =~= self.hm_modules.deep_view());
        assert(package_modules.deep_view() =~= self.package_modules.deep_view());
        UserEntry {
            username: self.username.clone(),
            password: self.password.clone(),
            hm_modules,
            package_modules,
            needs_hm_selection: self.needs_hm_selection,
        }
    }
}

/// A copy of a list of users.
pub fn clone_users(users: &Vec<UserEntry>) -> (r: Vec<UserEntry>)
    ensures
        r.deep_view() == users.deep_view(),
{
    let r = users.clone();
    assert(r.deep_view() =~= users.deep_view());
    r
}

/// How the disk is to be divided.
#[derive(Debug, Clone, Copy, PartialEq, Eq, Structural)]
pub enum PartitionMode {
    FullDisk,
    Custom,
}

/// The screens of the wizard.
#[derive(Debug, Clone, Copy, PartialEq, Eq, Structural)]
pub enum Step {
    CloningRepo,
    SelectPreset,
    HostName,
    SelectNixosModules,
    SelectSystemPackages,
    CreateUser,
    AddAnotherUser,
    SelectHmModules,
    SelectUserPackages,
    SelectDisk,
    PartitionModeSelect,
    SwapSize,
    CustomPartitionMount,
    CustomPartitionSize,
    CustomPartitionFs,
    CustomPartitionAnother,
    Confirm,
    Installing,
    RootPassword,
    RootPasswordConfirm,
    UserPassword,
    UserPasswordConfirm,
    Complete,
}

/// The state of the wizard.
#[derive(Debug)]
pub struct App {
    /// The screen that is current.
    pub step: Step,
    /// Whether the program is to end.
    pub should_quit: bool,
    /// The root of the configuration repository.
    pub base_path: String,
    /// Where the repository is cloned from, where it is cloned.
    pub repo_url: Option<String>,
    pub clone_log: Vec<String>,
    pub clone_phase: String,
    pub clone_percent: u8,
    pub clone_error: Option<String>,
    pub clone_done: bool,
    pub clone_log_scroll: usize,
    /// The host presets on offer; the list shown ends with one more entry, for a new host.
    pub presets: Vec<HostPreset>,
    pub preset_cursor: usize,
    /// Whether the operator sets up a new host.
    pub is_custom: bool,
    /// The host name that was confirmed.
    pub host_name: String,
    pub host_name_input: String,
    pub nixos_modules: Vec<NixModule>,
    pub nixos_cursor: usize,
    pub system_packages: Vec<NixModule>,
    pub system_package_cursor: usize,
    /// The users added so far, in the order in which they were added.
    pub users: Vec<UserEntry>,
    pub current_username: String,
    pub current_password: String,
    pub current_password_confirm: String,
    pub password_mismatch: bool,
    /// The user whose modules are being selected.
    pub hm_user_index: usize,
    pub hm_modules: Vec<NixModule>,
    pub hm_cursor: usize,
    pub user_pkg_modules: Vec<NixModule>,
    pub user_pkg_cursor: usize,
    pub disks: Vec<BlockDevice>,
    pub disk_cursor: usize,
    pub selected_disk: Option<BlockDevice>,
    pub partition_mode: PartitionMode,
    pub partition_mode_cursor: usize,
    pub swap_size_input: String,
    /// The partition plan as far as it has been entered.
    pub partitions: Vec<PartitionPlan>,
    pub part_mount_input: String,
    pub part_size_input: String,
    pub part_fs_cursor: usize,
    pub confirm_cursor: usize,
    pub accept_flake_config: bool,
    pub root_password: String,
    pub root_password_confirm: String,
    pub root_password_mismatch: bool,
    /// The user whose password is being set.
    pub password_user_index: usize,
    pub another_user_cursor: usize,
    pub another_partition_cursor: usize,
    pub install_log: Vec<String>,
    pub install_progress: usize,
    pub install_total: usize,
    pub install_error: Option<String>,
    pub install_done: bool,
    pub log_scroll: usize,
    /// Whether the log on screen follows its last line.
    pub auto_scroll: bool,
    pub reboot_cursor: usize,
    /// A message shown over the screen until the next key.
    pub status_message: Option<String>,
    pub config: InstallerConfig,
    pub theme: Theme,
    pub branding_title: String,
}

/// What an [`App`] holds.
pub ghost struct AppView {
    pub step: Step,
    pub should_quit: bool,
    pub base_path: Seq<char>,
    pub repo_url: Option<Seq<char>>,
    pub clone_log: Seq<Seq<char>>,
    pub clone_phase: Seq<char>,
    pub clone_percent: u8,
    pub clone_error: Option<Seq<char>>,
    pub clone_done: bool,
    pub clone_log_scroll: usize,
    pub presets: Seq<HostPresetView>,
    pub preset_cursor: usize,
    pub is_custom: bool,
    pub host_name: Seq<char>,
    pub host_name_input: Seq<char>,
    pub nixos_modules: Seq<NixModuleView>,
    pub nixos_cursor: usize,
    pub system_packages: Seq<NixModuleView>,
    pub system_package_cursor: usize,
    pub users: Seq<UserEntryView>,
    pub current_username: Seq<char>,
    pub current_password: Seq<char>,
    pub current_password_confirm: Seq<char>,
    pub password_mismatch: bool,
    pub hm_user_index: usize,
    pub hm_modules: Seq<NixModuleView>,
    pub hm_cursor: usize,
    pub user_pkg_modules: Seq<NixModuleView>,
    pub user_pkg_cursor: usize,
    pub disks: Seq<BlockDeviceView>,
    pub disk_cursor: usize,
    pub selected_disk: Option<BlockDeviceView>,
    pub partition_mode: PartitionMode,
    pub partition_mode_cursor: usize,
    pub swap_size_input: Seq<char>,
    pub partitions: Seq<PartitionPlanView>,
    pub part_mount_input: Seq<char>,
    pub part_size_input: Seq<char>,
    pub part_fs_cursor: usize,
    pub confirm_cursor: usize,
    pub accept_flake_config: bool,
    pub root_password: Seq<char>,
    pub root_password_confirm: Seq<char>,
    pub root_password_mismatch: bool,
    pub password_user_index: usize,
    pub another_user_cursor: usize,
    pub another_partition_cursor: usize,
    pub install_log: Seq<Seq<char>>,
    pub install_progress: usize,
    pub install_total: usize,
    pub install_error: Option<Seq<char>>,
    pub install_done: bool,
    pub log_scroll: usize,
    pub auto_scroll: bool,
    pub reboot_cursor: usize,
    pub status_message: Option<Seq<char>>,
    pub config: InstallerConfigView,
    pub theme: Theme,
    pub branding_title: Seq<char>,
}

impl View for App {
    type V = AppView;

    open spec fn view(&self) -> AppView {
        AppView {
            step: self.step,
            should_quit: self.should_quit,
            base_path: self.base_path@,
            repo_url: self.repo_url.deep_view(),
            clone_log: self.clone_log.deep_view(),
            clone_phase: self.clone_phase@,
            clone_percent: self.clone_percent,
            clone_error: self.clone_error.deep_view(),
            clone_done: self.clone_done,
            clone_log_scroll: self.clone_log_scroll,
            presets: self.presets.deep_view(),
            preset_cursor: self.preset_cursor,
            is_custom: self.is_custom,
            host_name: self.host_name@,
            host_name_input: self.host_name_input@,
            nixos_modules: self.nixos_modules.deep_view(),
            nixos_cursor: self.nixos_cursor,
            system_packages: self.system_packages.deep_view(),
            system_package_cursor: self.system_package_cursor,
            users: self.users.deep_view(),
            current_username: self.current_username@,
            current_password: self.current_password@,
            current_password_confirm: self.current_password_confirm@,
            password_mismatch: self.password_mismatch,
            hm_user_index: self.hm_user_index,
            hm_modules: self.hm_modules.deep_view(),
            hm_cursor: self.hm_cursor,
            user_pkg_modules: self.user_pkg_modules.deep_view(),
            user_pkg_cursor: self.user_pkg_cursor,
            disks: self.disks.deep_view(),
            disk_cursor: self.disk_cursor,
            selected_disk: self.selected_disk.deep_view(),
            partition_mode: self.partition_mode,
            partition_mode_cursor: self.partition_mode_cursor,
            swap_size_input: self.swap_size_input@,
            partitions: self.partitions.deep_view(),
            part_mount_input: self.part_mount_input@,
            part_size_input: self.part_size_input@,
            part_fs_cursor: self.part_fs_cursor,
            confirm_cursor: self.confirm_cursor,
            accept_flake_config: self.accept_flake_config,
            root_password: self.root_password@,
            root_password_confirm: self.root_password_confirm@,
            root_password_mismatch: self.root_password_mismatch,
            password_user_index: self.password_user_index,
            another_user_cursor: self.another_user_cursor,
            another_partition_cursor: self.another_partition_cursor,
            install_log: self.install_log.deep_view(),
            install_progress: self.install_progress,
            install_total: self.install_total,
            install_error: self.install_error.deep_view(),
            install_done: self.install_done,
            log_scroll: self.log_scroll,
            auto_scroll: self.auto_scroll,
            reboot_cursor: self.reboot_cursor,
            status_message: self.status_message.deep_view(),
            config: self.config@,
            theme: self.theme,
            branding_title: self.branding_title@,
        }
    }
}

/// Whether a character may stand in a user name.
pub open spec fn username_char(c: char) -> bool {
    ('a' <= c && c <= 'z') || ('0' <= c && c <= '9') || c == '-' || c == '_'
}

/// Whether a character may begin a user name.
pub open spec fn username_start(c: char) -> bool {
    ('a' <= c && c <= 'z') || c == '_'
}

/// Whether a text can be a user name: it is not empty, begins with a
/// lowercase letter or an underscore, and holds nothing but lowercase
/// letters, digits, hyphens and underscores.
pub open spec fn username_valid(name: Seq<char>) -> bool {
    &&& name.len() > 0
    &&& username_start(name[0])
    &&& forall|i: int| 0 <= i < name.len() ==> username_char(#[trigger] name[i])
}

/// Whether one of the users has this name already.
pub open spec fn username_taken(users: Seq<UserEntryView>, name: Seq<char>) -> bool {
    exists|i: int| 0 <= i < users.len() && (#[trigger] users[i]).username == name
}

/// Whether what the operator typed is accepted as the name of one more
/// user: without the white space around it, it can be a user name and none
/// of the users has it.
pub open spec fn username_accepted(users: Seq<UserEntryView>, input: Seq<char>) -> bool {
    username_valid(text::trimmed(input)) && !username_taken(users, text::trimmed(input))
}

/// Whether no two users have the same name.
pub open spec fn distinct_usernames(users: Seq<UserEntryView>) -> bool {
    forall|i: int, j: int|
        0 <= i < users.len() && 0 <= j < users.len() && (#[trigger] users[i]).username == (
        #[trigger] users[j]).username ==> i == j
}

/// A user who has just been added.
pub open spec fn new_user(name: Seq<char>, needs_hm_selection: bool) -> UserEntryView {
    UserEntryView {
        username: name,
        password: Seq::empty(),
        hm_modules: Seq::empty(),
        package_modules: Seq::empty(),
        needs_hm_selection,
    }
}

/// The entry after `cursor` in a list of `len` entries, the first after the
/// last; `cursor` itself in an empty list.
pub open spec fn next_index(len: usize, cursor: usize) -> usize {
    if len == 0 {
        cursor
    } else {
        ((cursor + 1) % (len as int)) as usize
    }
}

/// The entry before `cursor` in a list of `len` entries, the last before
/// the first; `cursor` itself in an empty list.
pub open spec fn prev_index(len: usize, cursor: usize) -> usize {
    if len == 0 {
        cursor
    } else if cursor == 0 {
        (len - 1) as usize
    } else {
        (cursor - 1) as usize
    }
}

impl AppView {
    /// What holds of every state that the wizard reaches: the index of the
    /// user at hand is that of a user wherever a screen is about one, the
    /// cursors of the disk and filesystem lists point into them, the
    /// partition plan can be laid out, and no two users have the same
    /// name. No operation needs it; each keeps it.
    pub open spec fn wf(self) -> bool {
        &&& (self.step == Step::SelectHmModules || self.step == Step::SelectUserPackages)
            ==> self.hm_user_index < self.users.len()
        &&& (self.step == Step::UserPassword || self.step == Step::UserPasswordConfirm)
            ==> self.password_user_index < self.users.len()
        &&& self.disks.len() > 0 ==> self.disk_cursor < self.disks.len()
        &&& self.part_fs_cursor < 4
        &&& plan_fits(self.partitions)
        &&& distinct_usernames(self.users)
    }

    /// Whether the lists of the state are no longer than a machine can
    /// hold, as they are in every state of a running wizard.
    pub open spec fn bounded(self) -> bool {
        &&& self.users.len() <= usize::MAX
        &&& self.presets.len() <= usize::MAX
        &&& self.disks.len() <= usize::MAX
        &&& self.nixos_modules.len() <= usize::MAX
        &&& self.system_packages.len() <= usize::MAX
        &&& self.hm_modules.len() <= usize::MAX
        &&& self.user_pkg_modules.len() <= usize::MAX
        &&& self.clone_log.len() <= usize::MAX
        &&& self.install_log.len() <= usize::MAX
    }

    /// Whether "back" is refused because the current screen follows the
    /// adding of a user or of a partition: the screens from the question
    /// for another user to the selection of the disk, the user name once
    /// there is a user, the question for another partition, and the mount
    /// point once there is a partition.
    pub open spec fn after_commit(self) -> bool {
        ||| self.step == Step::AddAnotherUser
        ||| self.step == Step::SelectHmModules
        ||| self.step == Step::SelectUserPackages
        ||| self.step == Step::SelectDisk
        ||| self.step == Step::CustomPartitionAnother
        ||| (self.step == Step::CreateUser && self.users.len() > 0)
        ||| (self.step == Step::CustomPartitionMount && self.partitions.len() > 0)
    }

    /// The state with `msg` shown to the operator.
    pub open spec fn says(self, msg: Seq<char>) -> AppView {
        AppView { status_message: Some(msg), ..self }
    }

    /// The state at another screen.
    pub open spec fn at(self, step: Step) -> AppView {
        AppView { step, ..self }
    }

    /// The entries of the preset list: the name of each preset, and one
    /// entry for a new host.
    pub open spec fn preset_items(self) -> Seq<Seq<char>> {
        Seq::new(self.presets.len(), |i: int| self.presets[i].name).push("Custom"@)
    }

    /// Where "back" leads from the current screen, if anywhere. It leads
    /// nowhere from the first screens, from the screens that follow the
    /// adding of a user or of a partition, and from the installation on.
    pub open spec fn back_target(self) -> Option<Step> {
        match self.step {
            Step::HostName => Some(Step::SelectPreset),
            Step::SelectNixosModules => Some(Step::HostName),
            Step::SelectSystemPackages => Some(Step::SelectNixosModules),
            Step::CreateUser => if self.users.len() > 0 {
                None
            } else if self.is_custom {
                Some(Step::SelectSystemPackages)
            } else {
                Some(Step::SelectPreset)
            },
            Step::PartitionModeSelect => Some(Step::SelectDisk),
            Step::SwapSize => Some(Step::PartitionModeSelect),
            Step::CustomPartitionMount => if self.partitions.len() > 0 {
                None
            } else {
                Some(Step::PartitionModeSelect)
            },
            Step::CustomPartitionSize => Some(Step::CustomPartitionMount),
            Step::CustomPartitionFs => Some(Step::CustomPartitionSize),
            Step::Confirm => Some(Step::PartitionModeSelect),
            _ => None,
        }
    }

    /// The state after "back".
    pub open spec fn gone_back(self) -> AppView {
        match self.back_target() {
            Some(step) => self.at(step),
            None => self,
        }
    }

    /// The state with the configured default in the user name field, where
    /// there is a default, no user yet and nothing typed.
    pub open spec fn prefilled(self) -> AppView {
        AppView {
            current_username: if self.users.len() == 0 && self.current_username.len() == 0
                && self.config.default_username is Some {
                self.config.default_username->0
            } else {
                self.current_username
            },
            ..self
        }
    }

    /// The state after the preset list has been confirmed: the last entry
    /// begins a new host, any other takes the preset's name for the host
    /// and goes on to the users.
    pub open spec fn confirmed_preset(self) -> AppView {
        if self.preset_cursor > self.presets.len() {
            self
        } else if self.preset_cursor == self.presets.len() {
            AppView { is_custom: true, step: Step::HostName, ..self }
        } else {
            AppView {
                is_custom: false,
                host_name: self.presets[self.preset_cursor as int].name,
                ..self
            }.prefilled().at(Step::CreateUser)
        }
    }

    /// The state after the host name has been confirmed.
    pub open spec fn confirmed_host_name(self) -> AppView {
        let name = text::trimmed(self.host_name_input);
        if name.len() == 0 {
            self.says("Host name cannot be empty"@)
        } else {
            AppView {
                host_name: name,
                step: Step::SelectNixosModules,
                status_message: None,
                ..self
            }
        }
    }

    /// The state after a user name has been confirmed, given whether the
    /// host holds a configuration for that user already.
    pub open spec fn confirmed_username(self, config_exists: bool) -> AppView {
        let name = text::trimmed(self.current_username);
        if name.len() == 0 {
            self.says("Username cannot be empty"@)
        } else if !username_valid(name) {
            self.says("Username must start with a lowercase letter or underscore"@)
        } else if username_taken(self.users, name) {
            self.says("User already exists"@)
        } else {
            AppView {
                status_message: None,
                users: self.users.push(new_user(name, !config_exists)),
                current_username: Seq::empty(),
                step: Step::AddAnotherUser,
                ..self
            }
        }
    }
}

/// Decides [`distinct_usernames`].
pub fn has_distinct_usernames(users: &Vec<UserEntry>) -> (r: bool)
    ensures
        r == distinct_usernames(users.deep_view()),
{
    let ghost all = users.deep_view();
    let mut i: usize = 0;
    while i < users.len()
        invariant
            i <= users.len(),
            all == users.deep_view(),
            forall|a: int, b: int|
                0 <= a < i && 0 <= b < all.len() && (#[trigger] all[a]).username == (
                #[trigger] all[b]).username ==> a == b,
        decreases users.len() - i,
    {
        let mut j: usize = 0;
        while j < users.len()
            invariant
                i < users.len(),
                j <= users.len(),
                all == users.deep_view(),
                forall|b: int|
                    0 <= b < j && all[i as int].username == (#[trigger] all[b]).username ==> b
                        == i,
            decreases users.len() - j,
        {
            if j != i && text::same_text(users[i].username.as_str(), users[j].username.as_str()) {
                assert(all[i as int].username == all[j as int].username);
                return false;
            }
            j += 1;
        }
        i += 1;
    }
    true
}

impl App {
    /// Decides [`AppView::wf`].
    pub fn is_wf(&self) -> (r: bool)
        ensures
            r == self@.wf(),
    {
        let users = self.users.len();
        let at_selection = self.step == Step::SelectHmModules || self.step
            == Step::SelectUserPackages;
        let at_password = self.step == Step::UserPassword || self.step
            == Step::UserPasswordConfirm;
        (!at_selection || self.hm_user_index < users) && (!at_password || self.password_user_index
            < users) && (self.disks.len() == 0 || self.disk_cursor < self.disks.len())
            && self.part_fs_cursor < 4 && plan_size(&self.partitions).is_some()
            && has_distinct_usernames(&self.users)
    }

    pub(crate) fn say(&mut self, msg: &str)
        ensures
            final(self)@ == old(self)@.says(msg@),
    {
        self.status_message = Some(String::from_str(msg));
    }

}


/// What the wizard needs from outside before it can go on. Whoever drives
/// the wizard carries it out and hands back what came of it.
#[derive(Debug, Clone, Copy, PartialEq, Eq, Structural)]
pub enum Effect {
    /// Nothing.
    Nothing,
    /// Nothing but to show the screen anew, without waiting for a key.
    Redraw,
    /// Look up whether the host holds a configuration for the user named by
    /// [`App::username_candidate`], then call [`App::confirm_username`].
    ProbeUser,
    /// Scan the repository for per-user modules and package sets, then call
    /// [`App::load_user_modules`].
    ScanUserModules,
    /// List the disks of the machine, then call
    /// [`App::go_to_disk_selection`].
    ListDisks,
    /// Start the install pipeline with [`App::start_installation`].
    StartInstall,
    /// Apply the root password to the installed system, then call
    /// [`App::root_password_applied`].
    SetRootPassword,
    /// Apply the password of the user at hand to the installed system,
    /// then call [`App::user_password_applied`].
    SetUserPassword,
    /// Restart the machine.
    Reboot,
    /// Scan the repository that has just been cloned, then call
    /// [`App::finish_clone`].
    RescanRepo,
}

/// The index of the first user from `from` on for whom modules have to be
/// selected, or the number of users where there is none.
pub open spec fn next_needing(users: Seq<UserEntryView>, from: int) -> int
    decreases users.len() - from,
{
    if from >= users.len() {
        users.len() as int
    } else if users[from].needs_hm_selection {
        from
    } else {
        next_needing(users, from + 1)
    }
}

/// The user at `index` with other lists of modules.
pub open spec fn with_modules(
    user: UserEntryView,
    hm_modules: Seq<NixModuleView>,
    package_modules: Seq<NixModuleView>,
) -> UserEntryView {
    UserEntryView { hm_modules, package_modules, ..user }
}

impl AppView {
    /// The state after the walk through the users has moved on from the
    /// user at hand: at the selection of modules for the next user who
    /// needs one, with an empty list until the modules have been scanned,
    /// or at the selection of the disk, with an empty list until the disks
    /// have been listed.
    pub open spec fn advanced_from(self, from: int) -> AppView {
        let next = next_needing(self.users, from);
        if next < self.users.len() {
            AppView {
                hm_user_index: next as usize,
                hm_modules: Seq::empty(),
                hm_cursor: 0,
                step: Step::SelectHmModules,
                ..self
            }
        } else {
            AppView {
                hm_user_index: next as usize,
                disks: Seq::empty(),
                disk_cursor: 0,
                step: Step::SelectDisk,
                ..self
            }
        }
    }

    /// What the walk through the users needs from outside after it has
    /// moved on.
    pub open spec fn advance_effect(self, from: int) -> Effect {
        if next_needing(self.users, from) < self.users.len() {
            Effect::ScanUserModules
        } else {
            Effect::ListDisks
        }
    }

    /// The state after the question for another user has been answered.
    pub open spec fn confirmed_another_user(self) -> AppView {
        if self.another_user_cursor == 0 {
            AppView { step: Step::CreateUser, another_user_cursor: 0, ..self }
        } else {
            AppView { another_user_cursor: 0, ..self.advanced_from(0) }
        }
    }

    /// The state after the modules that were scanned have arrived: they
    /// are the lists of the user at hand and the list on screen.
    pub open spec fn loaded_user_modules(
        self,
        hm_modules: Seq<NixModuleView>,
        package_modules: Seq<NixModuleView>,
    ) -> AppView {
        if self.hm_user_index < self.users.len() {
            AppView {
                users: self.users.update(
                    self.hm_user_index as int,
                    with_modules(self.users[self.hm_user_index as int], hm_modules, package_modules),
                ),
                hm_modules,
                hm_cursor: 0,
                ..self
            }
        } else {
            self
        }
    }

    /// The state after the disks have been listed, or could not be.
    pub open spec fn at_disk_selection(self, listed: Result<Seq<BlockDeviceView>, Seq<char>>)
        -> AppView {
        match listed {
            Ok(disks) => AppView { disks, disk_cursor: 0, step: Step::SelectDisk, ..self },
            Err(why) => AppView {
                disks: Seq::empty(),
                status_message: Some("Failed to list disks: "@ + why),
                disk_cursor: 0,
                step: Step::SelectDisk,
                ..self
            },
        }
    }

    /// The state after the selection of per-user modules has been
    /// confirmed: the selection is the user's, and the user's package sets
    /// are on screen.
    pub open spec fn confirmed_hm_modules(self) -> AppView {
        if self.hm_user_index < self.users.len() {
            let user = self.users[self.hm_user_index as int];
            AppView {
                users: self.users.update(
                    self.hm_user_index as int,
                    UserEntryView { hm_modules: self.hm_modules, ..user },
                ),
                user_pkg_modules: user.package_modules,
                user_pkg_cursor: 0,
                step: Step::SelectUserPackages,
                ..self
            }
        } else {
            self
        }
    }

    /// The state after the selection of per-user package sets has been
    /// confirmed: the selection is the user's, and the walk moves on.
    pub open spec fn confirmed_user_packages(self) -> AppView {
        if self.hm_user_index < self.users.len() {
            let user = self.users[self.hm_user_index as int];
            AppView {
                users: self.users.update(
                    self.hm_user_index as int,
                    UserEntryView { package_modules: self.user_pkg_modules, ..user },
                ),
                ..self
            }.advanced_from(self.hm_user_index + 1)
        } else {
            self
        }
    }
}


/// The users whom the walk stops at from `from` on, in the order in which
/// it stops at them: those for whom modules have to be selected.
pub open spec fn route(users: Seq<UserEntryView>, from: int) -> Seq<int>
    decreases users.len() - from,
{
    if from < 0 || from >= users.len() {
        Seq::empty()
    } else if users[from].needs_hm_selection {
        seq![from] + route(users, from + 1)
    } else {
        route(users, from + 1)
    }
}

/// Whether a list of users holds every user of an earlier list, at the
/// place where the user stood, under the same name and with the same need
/// for a selection of modules: no user has been removed or renamed, and
/// what was decided when a user was added has not been decided anew.
pub open spec fn keeps_users(before: Seq<UserEntryView>, after: Seq<UserEntryView>) -> bool {
    &&& before.len() <= after.len()
    &&& forall|i: int|
        0 <= i < before.len() ==> (#[trigger] after[i]).username == before[i].username
            && after[i].needs_hm_selection == before[i].needs_hm_selection
}

/// Whether two lists name the same users, each with the same need for a
/// selection of modules.
pub open spec fn same_needs(a: Seq<UserEntryView>, b: Seq<UserEntryView>) -> bool {
    &&& a.len() == b.len()
    &&& forall|i: int|
        0 <= i < a.len() ==> (#[trigger] a[i]).needs_hm_selection == b[i].needs_hm_selection
            && a[i].username == b[i].username
}


/// What a look at a record that is shared with a worker gave.
#[derive(Debug)]
pub enum Shared<S> {
    /// There is no such record: no worker has been started.
    Absent,
    /// A copy of the record.
    Held(S),
    /// The worker ended abnormally while it was writing the record.
    Poisoned,
}

} // verus!
