//! How the wizard begins: with a repository that is there already, or by
//! cloning one.

use crate::app::{App, AppView, PartitionMode, Step};
use crate::config::{load_repo_config, merged_config, InstallerConfig, InstallerConfigView};
use crate::lists::empty_list;
use crate::nix::{
    layout_warnings, validate_base_path, HostPreset, HostPresetView, NixModule, NixModuleView,
    RepoLayout,
};
use crate::text;
use crate::theme::Theme;
use vstd::prelude::*;

verus! {

/// What a look at the repository gave.
#[derive(Debug)]
pub struct RepoScan {
    /// Which of the expected directories are there.
    pub layout: RepoLayout,
    /// The repository's own configuration file, where it has one that
    /// can be read.
    pub config: Option<InstallerConfig>,
    pub presets: Vec<HostPreset>,
    pub nixos_modules: Vec<NixModule>,
    pub package_modules: Vec<NixModule>,
}

/// What a [`RepoScan`] holds.
pub ghost struct RepoScanView {
    pub layout: RepoLayout,
    pub config: Option<InstallerConfigView>,
    pub presets: Seq<HostPresetView>,
    pub nixos_modules: Seq<NixModuleView>,
    pub package_modules: Seq<NixModuleView>,
}

impl DeepView for RepoScan {
    type V = RepoScanView;

    open spec fn deep_view(&self) -> RepoScanView {
        RepoScanView {
            layout: self.layout,
            config: self.config.deep_view(),
            presets: self.presets.deep_view(),
            nixos_modules: self.nixos_modules.deep_view(),
            package_modules: self.package_modules.deep_view(),
        }
    }
}

impl View for RepoScan {
    type V = RepoScanView;

    open spec fn view(&self) -> RepoScanView {
        self.deep_view()
    }
}

/// Where the repository is cloned to.
pub open spec fn clone_target() -> Seq<char> {
    "/tmp/nixos-dotfiles"@
}

/// The configuration in force with a repository's own laid over it.
pub open spec fn config_with(existing: InstallerConfigView, repo: Option<InstallerConfigView>)
    -> InstallerConfigView {
    match repo {
        Some(r) => merged_config(existing, r),
        None => existing,
    }
}

/// What is shown for the warnings about a repository: nothing where there
/// are none, else one warning to a line.
pub open spec fn warnings_shown(warnings: Seq<Seq<char>>) -> Option<Seq<char>> {
    if warnings.len() == 0 {
        None
    } else {
        Some(text::joined(warnings, "\n"@))
    }
}

/// `value` where it is set, else `fallback`.
pub open spec fn or_text(value: Option<Seq<char>>, fallback: Seq<char>) -> Seq<char> {
    match value {
        Some(v) => v,
        None => fallback,
    }
}

/// The state in which the wizard begins.
pub open spec fn initial(
    step: Step,
    base_path: Seq<char>,
    repo_url: Option<Seq<char>>,
    config: InstallerConfigView,
    theme: Theme,
    presets: Seq<HostPresetView>,
    nixos_modules: Seq<NixModuleView>,
    system_packages: Seq<NixModuleView>,
    status_message: Option<Seq<char>>,
) -> AppView {
    let host_name_input = or_text(config.default_hostname, Seq::empty());
    let swap_size_input = or_text(config.default_swap_size, "4"@);
    let branding_title = or_text(config.branding_title, "NixOS Installer"@);
    AppView {
        step,
        should_quit: false,
        base_path,
        repo_url,
        clone_log: Seq::empty(),
        clone_phase: Seq::empty(),
        clone_percent: 0,
        clone_error: None,
        clone_done: false,
        clone_log_scroll: 0,
        presets,
        preset_cursor: 0,
        is_custom: false,
        host_name: Seq::empty(),
        host_name_input,
        nixos_modules,
        nixos_cursor: 0,
        system_packages,
        system_package_cursor: 0,
        users: Seq::empty(),
        current_username: Seq::empty(),
        current_password: Seq::empty(),
        current_password_confirm: Seq::empty(),
        password_mismatch: false,
        hm_user_index: 0,
        hm_modules: Seq::empty(),
        hm_cursor: 0,
        user_pkg_modules: Seq::empty(),
        user_pkg_cursor: 0,
        disks: Seq::empty(),
        disk_cursor: 0,
        selected_disk: None,
        partition_mode: PartitionMode::FullDisk,
        partition_mode_cursor: 0,
        swap_size_input,
        partitions: Seq::empty(),
        part_mount_input: Seq::empty(),
        part_size_input: Seq::empty(),
        part_fs_cursor: 0,
        confirm_cursor: 0,
        accept_flake_config: true,
        root_password: Seq::empty(),
        root_password_confirm: Seq::empty(),
        root_password_mismatch: false,
        password_user_index: 0,
        another_user_cursor: 0,
        another_partition_cursor: 0,
        install_log: Seq::empty(),
        install_progress: 0,
        install_total: 8,
        install_error: None,
        install_done: false,
        log_scroll: 0,
        auto_scroll: true,
        reboot_cursor: 0,
        status_message,
        config,
        theme,
        branding_title,
    }
}

/// The state in which the wizard begins: at the presets of the repository
/// at `base_path` where there is one, with the warnings that its scan gave
/// and its own configuration laid over the machine's; else at the clone,
/// with nothing to select from yet.
pub open spec fn started(
    base_path: Option<Seq<char>>,
    repo_url: Option<Seq<char>>,
    config: InstallerConfigView,
    theme: Theme,
    scan: RepoScanView,
) -> AppView {
    match base_path {
        Some(path) => initial(
            Step::SelectPreset,
            path,
            repo_url,
            config_with(config, scan.config),
            theme,
            scan.presets,
            scan.nixos_modules,
            scan.package_modules,
            warnings_shown(layout_warnings(path, scan.layout)),
        ),
        None => initial(
            Step::CloningRepo,
            clone_target(),
            repo_url,
            config,
            theme,
            Seq::empty(),
            Seq::empty(),
            Seq::empty(),
            None,
        ),
    }
}

impl AppView {
    /// The state after the clone has finished and the repository has been
    /// scanned: at the presets, with what the scan gave and the
    /// repository's own configuration laid over the one in force. The
    /// defaults of that configuration fill the host name where nothing
    /// stands there, and replace the swap size and the title.
    pub open spec fn finished_clone(self, scan: RepoScanView) -> AppView {
        let config = config_with(self.config, scan.config);
        let warnings = layout_warnings(self.base_path, scan.layout);
        AppView {
            status_message: if warnings.len() == 0 {
                self.status_message
            } else {
                warnings_shown(warnings)
            },
            config,
            presets: scan.presets,
            nixos_modules: scan.nixos_modules,
            system_packages: scan.package_modules,
            host_name_input: if self.host_name_input.len() == 0 {
                or_text(config.default_hostname, self.host_name_input)
            } else {
                self.host_name_input
            },
            swap_size_input: or_text(config.default_swap_size, self.swap_size_input),
            branding_title: or_text(config.branding_title, self.branding_title),
            step: Step::SelectPreset,
            ..self
        }
    }
}

fn show_warnings(warnings: &Vec<String>) -> (shown: Option<String>)
    ensures
        shown.deep_view() == warnings_shown(warnings.deep_view()),
{
    if warnings.len() == 0 {
        None
    } else {
        Some(text::join(warnings, "\n"))
    }
}

fn text_or(value: &Option<String>, fallback: &str) -> (r: String)
    ensures
        r@ == or_text(value.deep_view(), fallback@),
{
    match value {
        Some(v) => v.clone(),
        None => String::from_str(fallback),
    }
}

impl App {
    fn begin(
        step: Step,
        base_path: String,
        repo_url: Option<String>,
        config: InstallerConfig,
        theme: Theme,
        presets: Vec<HostPreset>,
        nixos_modules: Vec<NixModule>,
        system_packages: Vec<NixModule>,
        status_message: Option<String>,
    ) -> (app: App)
        ensures
            app@ == initial(
                step,
                base_path@,
                repo_url.deep_view(),
                config@,
                theme,
                presets.deep_view(),
                nixos_modules.deep_view(),
                system_packages.deep_view(),
                status_message.deep_view(),
            ),
    {
        let host_name_input = text_or(&config.default_hostname, "");
        let swap_size_input = text_or(&config.default_swap_size, "4");
        let branding_title = text_or(&config.branding_title, "NixOS Installer");
        proof {
            reveal_strlit("");
            assert(""@ =~= Seq::<char>::empty());
        }
        App {
            step,
            should_quit: false,
            base_path,
            repo_url,
            clone_log: empty_list(),
            clone_phase: String::new(),
            clone_percent: 0,
            clone_error: None,
            clone_done: false,
            clone_log_scroll: 0,
            presets,
            preset_cursor: 0,
            is_custom: false,
            host_name: String::new(),
            host_name_input,
            nixos_modules,
            nixos_cursor: 0,
            system_packages,
            system_package_cursor: 0,
            users: empty_list(),
            current_username: String::new(),
            current_password: String::new(),
            current_password_confirm: String::new(),
            password_mismatch: false,
            hm_user_index: 0,
            hm_modules: empty_list(),
            hm_cursor: 0,
            user_pkg_modules: empty_list(),
            user_pkg_cursor: 0,
            disks: empty_list(),
            disk_cursor: 0,
            selected_disk: None,
            partition_mode: PartitionMode::FullDisk,
            partition_mode_cursor: 0,
            swap_size_input,
            partitions: empty_list(),
            part_mount_input: String::new(),
            part_size_input: String::new(),
            part_fs_cursor: 0,
            confirm_cursor: 0,
            accept_flake_config: true,
            root_password: String::new(),
            root_password_confirm: String::new(),
            root_password_mismatch: false,
            password_user_index: 0,
            another_user_cursor: 0,
            another_partition_cursor: 0,
            install_log: empty_list(),
            install_progress: 0,
            install_total: 8,
            install_error: None,
            install_done: false,
            log_scroll: 0,
            auto_scroll: true,
            reboot_cursor: 0,
            status_message,
            config,
            theme,
            branding_title,
        }
    }

    /// The wizard at its beginning. With a repository at `base_path` it
    /// begins at the presets, with what the scan of the repository gave;
    /// without one it begins at the clone, which is then to be started.
    pub fn new(
        base_path: Option<String>,
        repo_url: Option<String>,
        installer_config: InstallerConfig,
        theme: Theme,
        scan: RepoScan,
    ) -> (app: App)
        ensures
            app@ == started(base_path.deep_view(), repo_url.deep_view(), installer_config@, theme, scan@),
    {
        match base_path {
            Some(path) => {
                let warnings = validate_base_path(path.as_str(), scan.layout);
                let status = show_warnings(&warnings);
                let config = load_repo_config(scan.config, &installer_config);
                App::begin(
                    Step::SelectPreset,
                    path,
                    repo_url,
                    config,
                    theme,
                    scan.presets,
                    scan.nixos_modules,
                    scan.package_modules,
                    status,
                )
            },
            None => App::begin(
                Step::CloningRepo,
                String::from_str("/tmp/nixos-dotfiles"),
                repo_url,
                installer_config,
                theme,
                empty_list(),
                empty_list(),
                empty_list(),
                None,
            ),
        }
    }

    /// Takes in what the scan of the repository that has just been cloned
    /// gave, and shows the presets.
    pub fn finish_clone(&mut self, scan: RepoScan)
        ensures
            final(self)@ == old(self)@.finished_clone(scan@),
    {
        let warnings = validate_base_path(self.base_path.as_str(), scan.layout);
        if warnings.len() > 0 {
            self.status_message = show_warnings(&warnings);
        }
        self.config = load_repo_config(scan.config, &self.config);
        self.presets = scan.presets;
        self.nixos_modules = scan.nixos_modules;
        self.system_packages = scan.package_modules;
        if self.host_name_input.as_str().is_empty() {
            match &self.config.default_hostname {
                Some(name) => {
                    self.host_name_input = name.clone();
                },
                None => {},
            }
        }
        self.swap_size_input = text_or(&self.config.default_swap_size, self.swap_size_input.as_str());
        self.branding_title = text_or(&self.config.branding_title, self.branding_title.as_str());
        self.step = Step::SelectPreset;
    }
}

} // verus!
