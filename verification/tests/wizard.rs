use nixos_installer::app::keys::{Key, KeyPress, Watch};
use nixos_installer::app::setup::RepoScan;
use nixos_installer::app::users::{is_username_taken, is_valid_username};
use nixos_installer::app::{App, Effect, PartitionMode, Shared, Step, UserEntry};
use nixos_installer::clone::CloneState;
use nixos_installer::config::InstallerConfig;
use nixos_installer::disk::{plan_entry, BlockDevice, FsType};
use nixos_installer::install::{InstallState, Stage};
use nixos_installer::nix::{HostPreset, NixModule, RepoLayout};
use nixos_installer::theme::ThemeName;

fn module(name: &str) -> NixModule {
    NixModule { name: name.to_string(), selected: false }
}

fn layout() -> RepoLayout {
    RepoLayout { modules: true, nixos_modules: true, home_manager_modules: true, packages: true, hosts: true }
}

fn scan() -> RepoScan {
    RepoScan {
        layout: layout(),
        config: None,
        presets: vec![
            HostPreset { name: "laptop".to_string(), path: "/repo/modules/hosts/laptop".to_string(), has_hardware_config: true },
            HostPreset { name: "server".to_string(), path: "/repo/modules/hosts/server".to_string(), has_hardware_config: false },
        ],
        nixos_modules: vec![module("audio"), module("desktop")],
        package_modules: vec![module("packages-base")],
    }
}

fn app_with(config: InstallerConfig) -> App {
    App::new(Some("/repo".to_string()), None, config, ThemeName::Nord.to_theme(), scan())
}

fn app() -> App {
    app_with(InstallerConfig::default())
}

fn press(app: &mut App, key: Key) -> Effect {
    app.handle_key(KeyPress { key, ctrl: false })
}

fn type_text(app: &mut App, text: &str) {
    for c in text.chars() {
        assert_eq!(press(app, Key::Char(c)), Effect::Nothing);
    }
}

fn user(name: &str, needs: bool) -> UserEntry {
    UserEntry {
        username: name.to_string(),
        password: String::new(),
        hm_modules: Vec::new(),
        package_modules: Vec::new(),
        needs_hm_selection: needs,
    }
}

fn disk(name: &str) -> BlockDevice {
    BlockDevice {
        name: name.to_string(),
        path: format!("/dev/{}", name),
        size_bytes: 500_000_000_000,
        size_human: "465.7 GiB".to_string(),
        model: "Disk".to_string(),
    }
}

#[test]
fn the_wizard_begins_at_the_presets_of_a_repository_that_is_there() {
    let a = app();
    assert_eq!(a.step, Step::SelectPreset);
    assert!(!a.should_quit);
    assert_eq!(a.base_path, "/repo");
    assert_eq!(a.presets.len(), 2);
    assert_eq!(a.nixos_modules.len(), 2);
    assert_eq!(a.system_packages.len(), 1);
    assert!(a.status_message.is_none());
    assert_eq!(a.swap_size_input, "4");
    assert_eq!(a.host_name_input, "");
    assert_eq!(a.branding_title, "NixOS Installer");
    assert_eq!(a.install_total, 8);
    assert!(a.accept_flake_config);
    assert!(a.auto_scroll);
    assert_eq!(a.partition_mode, PartitionMode::FullDisk);
    assert!(a.users.is_empty());
    assert!(a.partitions.is_empty());
    assert!(a.is_wf());
    assert_eq!(a.preset_display_items(), vec!["laptop", "server", "Custom"]);
    assert_eq!(a.watches(), Watch::Neither);
}

#[test]
fn the_wizard_begins_at_the_clone_without_a_repository() {
    let a = App::new(
        None,
        Some("https://example.org/dots.git".to_string()),
        InstallerConfig {
            default_hostname: Some("box".to_string()),
            default_swap_size: Some("16".to_string()),
            branding_title: Some("Acme".to_string()),
            ..InstallerConfig::default()
        },
        ThemeName::Gruvbox.to_theme(),
        scan(),
    );
    assert_eq!(a.step, Step::CloningRepo);
    assert_eq!(a.base_path, "/tmp/nixos-dotfiles");
    assert_eq!(a.repo_url.as_deref(), Some("https://example.org/dots.git"));
    assert!(a.presets.is_empty());
    assert!(a.nixos_modules.is_empty());
    assert!(a.system_packages.is_empty());
    assert_eq!(a.host_name_input, "box");
    assert_eq!(a.swap_size_input, "16");
    assert_eq!(a.branding_title, "Acme");
    assert_eq!(a.theme.name, "gruvbox");
    assert_eq!(a.watches(), Watch::Clone);
    assert_eq!(a.preset_display_items(), vec!["Custom"]);
}

#[test]
fn warnings_about_the_repository_are_shown_at_the_beginning() {
    let mut s = scan();
    s.layout = RepoLayout { packages: false, hosts: false, ..layout() };
    s.config = Some(InstallerConfig { branding_title: Some("Repo".to_string()), ..InstallerConfig::default() });
    let a = App::new(Some("/repo".to_string()), None, InstallerConfig::default(), ThemeName::Nord.to_theme(), s);
    assert_eq!(
        a.status_message.as_deref(),
        Some("modules/packages directory not found at '/repo/modules/packages'\nmodules/hosts directory not found at '/repo/modules/hosts'")
    );
    assert_eq!(a.branding_title, "Repo");
    assert_eq!(a.config.branding_title.as_deref(), Some("Repo"));
}

#[test]
fn user_names_are_accepted_by_the_rule() {
    let accepted = ["alice", "_svc", "a", "a-b_c9", "  bob  ", "z0", "_", "a--", "\tcarol\n"];
    for input in accepted {
        let mut a = app();
        a.step = Step::CreateUser;
        a.current_username = input.to_string();
        assert!(a.accepts_username(), "{:?}", input);
        assert_eq!(a.username_candidate(), input.trim());
        a.confirm_username(true);
        assert_eq!(a.users.len(), 1, "{:?}", input);
        assert_eq!(a.users[0].username, input.trim());
        assert!(!a.users[0].needs_hm_selection);
        assert_eq!(a.users[0].password, "");
        assert_eq!(a.step, Step::AddAnotherUser);
        assert_eq!(a.current_username, "");
        assert!(a.status_message.is_none());
    }
    let rejected = [
        ("", "Username cannot be empty"),
        ("   ", "Username cannot be empty"),
        ("Alice", "Username must start with a lowercase letter or underscore"),
        ("9lives", "Username must start with a lowercase letter or underscore"),
        ("-dash", "Username must start with a lowercase letter or underscore"),
        ("al ice", "Username must start with a lowercase letter or underscore"),
        ("bob!", "Username must start with a lowercase letter or underscore"),
        ("bób", "Username must start with a lowercase letter or underscore"),
        ("aB", "Username must start with a lowercase letter or underscore"),
        ("a.b", "Username must start with a lowercase letter or underscore"),
    ];
    for (input, message) in rejected {
        let mut a = app();
        a.step = Step::CreateUser;
        a.current_username = input.to_string();
        assert!(!a.accepts_username(), "{:?}", input);
        a.confirm_username(false);
        assert!(a.users.is_empty(), "{:?}", input);
        assert_eq!(a.step, Step::CreateUser);
        assert_eq!(a.current_username, input);
        assert_eq!(a.status_message.as_deref(), Some(message), "{:?}", input);
    }
    assert!(is_valid_username("alice"));
    assert!(!is_valid_username(""));
    assert!(!is_valid_username(" alice"));
    assert!(is_username_taken(&vec![user("alice", true)], "alice"));
    assert!(!is_username_taken(&vec![user("alice", true)], "alic"));
}

#[test]
fn a_user_name_that_is_taken_is_refused_and_stays_in_the_field() {
    let mut a = app();
    a.step = Step::CreateUser;
    a.current_username = "alice".to_string();
    a.confirm_username(false);
    assert!(a.users[0].needs_hm_selection);
    a.step = Step::CreateUser;
    a.current_username = " alice ".to_string();
    assert!(!a.accepts_username());
    a.confirm_username(false);
    assert_eq!(a.users.len(), 1);
    assert_eq!(a.current_username, " alice ");
    assert_eq!(a.step, Step::CreateUser);
    assert_eq!(a.status_message.as_deref(), Some("User already exists"));
    a.current_username = "alice2".to_string();
    a.confirm_username(true);
    assert_eq!(a.users.len(), 2);
    assert!(a.is_wf());
}

#[test]
fn back_leads_to_the_screen_before_and_changes_nothing_else() {
    let table = [
        (Step::HostName, false, Step::SelectPreset),
        (Step::SelectNixosModules, false, Step::HostName),
        (Step::SelectSystemPackages, false, Step::SelectNixosModules),
        (Step::CreateUser, false, Step::SelectPreset),
        (Step::CreateUser, true, Step::SelectSystemPackages),
        (Step::PartitionModeSelect, false, Step::SelectDisk),
        (Step::SwapSize, false, Step::PartitionModeSelect),
        (Step::CustomPartitionMount, false, Step::PartitionModeSelect),
        (Step::CustomPartitionSize, false, Step::CustomPartitionMount),
        (Step::CustomPartitionFs, false, Step::CustomPartitionSize),
        (Step::Confirm, false, Step::PartitionModeSelect),
    ];
    for (from, custom, to) in table {
        let mut a = app();
        a.step = from;
        a.is_custom = custom;
        a.host_name_input = "typed".to_string();
        a.part_mount_input = "/ho".to_string();
        assert!(a.go_back(), "{:?}", from);
        assert_eq!(a.step, to);
        assert_eq!(a.host_name_input, "typed");
        assert_eq!(a.part_mount_input, "/ho");
        assert_eq!(a.is_custom, custom);
        assert!(!a.should_quit);
    }
}

#[test]
fn back_is_refused_after_a_user_or_a_partition_has_been_added() {
    let refused = [
        Step::CloningRepo,
        Step::SelectPreset,
        Step::AddAnotherUser,
        Step::SelectHmModules,
        Step::SelectUserPackages,
        Step::SelectDisk,
        Step::CustomPartitionAnother,
        Step::Installing,
        Step::RootPassword,
        Step::RootPasswordConfirm,
        Step::UserPassword,
        Step::UserPasswordConfirm,
        Step::Complete,
    ];
    for from in refused {
        let mut a = app();
        a.users = vec![user("alice", true)];
        a.partitions = vec![plan_entry("root", "/", None, FsType::Ext4)];
        a.step = from;
        assert!(!a.go_back(), "{:?}", from);
        assert_eq!(a.step, from);
        assert_eq!(a.users.len(), 1);
        assert_eq!(a.partitions.len(), 1);
    }
    let mut a = app();
    a.users = vec![user("alice", true)];
    a.step = Step::CreateUser;
    a.current_username = "bo".to_string();
    assert!(!a.go_back());
    assert_eq!(a.step, Step::CreateUser);
    assert_eq!(a.users.len(), 1);
    assert_eq!(a.current_username, "bo");

    let mut a = app();
    a.partitions = vec![plan_entry("root", "/", Some(1024), FsType::Ext4)];
    a.step = Step::CustomPartitionMount;
    assert!(!a.go_back());
    assert_eq!(a.step, Step::CustomPartitionMount);
    assert_eq!(a.partitions.len(), 1);
    assert_eq!(press(&mut a, Key::Esc), Effect::Nothing);
    assert!(a.should_quit);
    assert_eq!(a.partitions.len(), 1);
}

#[test]
fn a_plan_without_root_is_refused_at_the_summary() {
    let mut a = app();
    a.step = Step::Confirm;
    a.selected_disk = Some(disk("sda"));
    a.partitions = vec![
        plan_entry("EFI", "/boot", Some(512), FsType::Fat32),
        plan_entry("home", "/home", None, FsType::Ext4),
    ];
    assert_eq!(a.confirm_install(), Effect::Nothing);
    assert_eq!(a.step, Step::Confirm);
    assert_eq!(
        a.status_message.as_deref(),
        Some("No root (/) partition defined. Please go back and add one.")
    );
    a.status_message = None;
    a.partitions = Vec::new();
    assert_eq!(press(&mut a, Key::Enter), Effect::Nothing);
    assert_eq!(a.step, Step::Confirm);
    assert!(a.status_message.is_some());

    a.status_message = None;
    a.partitions.push(plan_entry("root", "/", None, FsType::Ext4));
    assert_eq!(a.confirm_install(), Effect::StartInstall);
    assert_eq!(a.step, Step::Installing);

    let mut a = app();
    a.step = Step::Confirm;
    a.confirm_cursor = 1;
    assert_eq!(a.confirm_install(), Effect::Nothing);
    assert_eq!(a.step, Step::PartitionModeSelect);
    assert!(a.status_message.is_none());
}

#[test]
fn the_walk_stops_only_at_users_who_need_a_selection() {
    let mut a = app();
    a.users = vec![user("a", false), user("b", true), user("c", false), user("d", true), user("e", false)];
    a.step = Step::AddAnotherUser;
    a.another_user_cursor = 1;
    let mut visited: Vec<(usize, Step)> = Vec::new();
    let mut effect = a.confirm_another_user();
    assert_eq!(a.another_user_cursor, 0);
    let mut guard = 0;
    while effect == Effect::ScanUserModules {
        guard += 1;
        assert!(guard < 10);
        assert_eq!(a.step, Step::SelectHmModules);
        assert!(a.hm_modules.is_empty());
        a.load_user_modules(vec![module("git"), module("zsh")], vec![module("packages-dev")]);
        assert_eq!(a.hm_modules.len(), 2);
        assert_eq!(a.hm_cursor, 0);
        visited.push((a.hm_user_index, a.step));
        assert!(a.users[a.hm_user_index].needs_hm_selection);
        a.hm_modules[1].selected = true;
        a.confirm_hm_modules();
        visited.push((a.hm_user_index, a.step));
        assert_eq!(a.user_pkg_modules.len(), 1);
        a.user_pkg_modules[0].selected = true;
        effect = a.confirm_user_packages();
    }
    assert_eq!(effect, Effect::ListDisks);
    assert_eq!(a.step, Step::SelectDisk);
    assert_eq!(
        visited,
        vec![
            (1, Step::SelectHmModules),
            (1, Step::SelectUserPackages),
            (3, Step::SelectHmModules),
            (3, Step::SelectUserPackages),
        ]
    );
    for i in [0usize, 2, 4] {
        assert!(a.users[i].hm_modules.is_empty());
        assert!(a.users[i].package_modules.is_empty());
    }
    for i in [1usize, 3] {
        let selected: Vec<bool> = a.users[i].hm_modules.iter().map(|m| m.selected).collect();
        assert_eq!(selected, vec![false, true]);
        assert!(a.users[i].package_modules[0].selected);
    }
    assert_eq!(a.hm_user_index, 5);
    assert!(a.is_wf());
}

#[test]
fn users_with_a_configuration_skip_the_selection_altogether() {
    let mut a = app();
    a.users = vec![user("a", false), user("b", false)];
    a.step = Step::AddAnotherUser;
    a.another_user_cursor = 1;
    assert_eq!(a.confirm_another_user(), Effect::ListDisks);
    assert_eq!(a.step, Step::SelectDisk);
    a.go_to_disk_selection(Ok(vec![disk("sda"), disk("sdb")]));
    assert_eq!(a.step, Step::SelectDisk);
    assert_eq!(a.disks.len(), 2);
    assert_eq!(a.disk_cursor, 0);
    assert!(a.status_message.is_none());

    let mut a = app();
    a.disk_cursor = 3;
    a.go_to_disk_selection(Err("lsblk failed (exit Some(1)): x".to_string()));
    assert!(a.disks.is_empty());
    assert_eq!(a.disk_cursor, 0);
    assert_eq!(a.step, Step::SelectDisk);
    assert_eq!(a.status_message.as_deref(), Some("Failed to list disks: lsblk failed (exit Some(1)): x"));
    a.status_message = None;
    a.confirm_disk();
    assert_eq!(a.step, Step::SelectDisk);
    assert_eq!(a.status_message.as_deref(), Some("No disks available"));
}

#[test]
fn answering_yes_to_another_user_leads_back_to_the_user_name() {
    let mut a = app();
    a.users = vec![user("a", true)];
    a.step = Step::AddAnotherUser;
    assert_eq!(a.confirm_another_user(), Effect::Nothing);
    assert_eq!(a.step, Step::CreateUser);
    assert_eq!(a.step_title(), "Create User #2");
}

#[test]
fn a_preset_leads_straight_to_the_users() {
    let mut a = app_with(InstallerConfig {
        default_username: Some("admin".to_string()),
        ..InstallerConfig::default()
    });
    assert_eq!(press(&mut a, Key::Down), Effect::Nothing);
    assert_eq!(a.preset_cursor, 1);
    assert_eq!(press(&mut a, Key::Enter), Effect::Nothing);
    assert_eq!(a.step, Step::CreateUser);
    assert_eq!(a.host_name, "server");
    assert!(!a.is_custom);
    assert_eq!(a.current_username, "admin");
    assert_eq!(press(&mut a, Key::Enter), Effect::ProbeUser);
    assert_eq!(a.step, Step::CreateUser);
    assert!(a.users.is_empty());
    a.confirm_username(true);
    assert_eq!(a.step, Step::AddAnotherUser);
    assert_eq!(a.users[0].username, "admin");

    assert_eq!(press(&mut a, Key::Enter), Effect::Nothing);
    assert_eq!(a.step, Step::CreateUser);
    assert_eq!(a.current_username, "");
    assert!(!a.go_back());
}

#[test]
fn a_new_host_goes_through_its_name_and_its_modules() {
    let mut a = app();
    press(&mut a, Key::Up);
    assert_eq!(a.preset_cursor, 2);
    assert_eq!(press(&mut a, Key::Enter), Effect::Nothing);
    assert_eq!(a.step, Step::HostName);
    assert!(a.is_custom);

    assert_eq!(press(&mut a, Key::Enter), Effect::Nothing);
    assert_eq!(a.step, Step::HostName);
    assert_eq!(a.status_message.as_deref(), Some("Host name cannot be empty"));
    assert_eq!(press(&mut a, Key::Char('x')), Effect::Nothing);
    assert!(a.status_message.is_none());
    assert_eq!(a.host_name_input, "");

    type_text(&mut a, " my-hosq");
    press(&mut a, Key::Backspace);
    a.handle_key(KeyPress { key: Key::Char('h'), ctrl: true });
    a.handle_key(KeyPress { key: Key::Char('x'), ctrl: true });
    type_text(&mut a, "st ");
    assert_eq!(a.host_name_input, " my-host ");
    assert_eq!(a.current_input_ref(), Some(" my-host "));
    press(&mut a, Key::Enter);
    assert_eq!(a.host_name, "my-host");
    assert_eq!(a.step, Step::SelectNixosModules);

    press(&mut a, Key::Char(' '));
    press(&mut a, Key::Char('j'));
    press(&mut a, Key::Char(' '));
    press(&mut a, Key::Char(' '));
    press(&mut a, Key::Down);
    assert_eq!(a.nixos_cursor, 0);
    assert!(a.nixos_modules[0].selected);
    assert!(!a.nixos_modules[1].selected);
    press(&mut a, Key::Enter);
    assert_eq!(a.step, Step::SelectSystemPackages);
    press(&mut a, Key::Char(' '));
    assert!(a.system_packages[0].selected);
    press(&mut a, Key::Char('k'));
    assert_eq!(a.system_package_cursor, 0);
    press(&mut a, Key::Enter);
    assert_eq!(a.step, Step::CreateUser);
    assert_eq!(a.step_title(), "Create User #1");
    assert!(a.go_back());
    assert_eq!(a.step, Step::SelectSystemPackages);
    assert!(a.is_wf());
}

#[test]
fn keys_that_are_taken_before_the_screen_sees_them() {
    let mut a = app();
    assert_eq!(a.handle_key(KeyPress { key: Key::Char('c'), ctrl: true }), Effect::Nothing);
    assert!(a.should_quit);

    let mut a = app();
    a.status_message = Some("note".to_string());
    assert_eq!(press(&mut a, Key::Char('q')), Effect::Nothing);
    assert!(!a.should_quit);
    assert!(a.status_message.is_none());
    assert_eq!(press(&mut a, Key::Char('q')), Effect::Nothing);
    assert!(a.should_quit);

    let mut a = app();
    a.step = Step::HostName;
    press(&mut a, Key::Char('q'));
    assert!(!a.should_quit);
    assert_eq!(a.host_name_input, "q");
    press(&mut a, Key::Esc);
    assert_eq!(a.step, Step::SelectPreset);
    assert!(!a.should_quit);
    press(&mut a, Key::Esc);
    assert!(a.should_quit);

    for step in [Step::Installing, Step::Complete, Step::CloningRepo] {
        let mut a = app();
        a.step = step;
        press(&mut a, Key::Esc);
        assert!(!a.should_quit);
        assert_eq!(a.step, step);
        press(&mut a, Key::Other);
        assert_eq!(a.step, step);
    }
}

#[test]
fn the_swap_size_gives_the_full_disk_plan() {
    let mut a = app();
    a.step = Step::PartitionModeSelect;
    press(&mut a, Key::Enter);
    assert_eq!(a.step, Step::SwapSize);
    assert_eq!(a.partition_mode, PartitionMode::FullDisk);
    type_text(&mut a, "x.-");
    assert_eq!(a.swap_size_input, "4");
    press(&mut a, Key::Backspace);
    type_text(&mut a, "16");
    press(&mut a, Key::Enter);
    assert_eq!(a.step, Step::Confirm);
    let got: Vec<(String, String, Option<u64>, FsType)> = a
        .partitions
        .iter()
        .map(|p| (p.label.clone(), p.mount_point.clone(), p.size_mb, p.fs_type))
        .collect();
    assert_eq!(
        got,
        vec![
            ("EFI".to_string(), "/boot".to_string(), Some(512), FsType::Fat32),
            ("swap".to_string(), "swap".to_string(), Some(16384), FsType::Swap),
            ("root".to_string(), "/".to_string(), None, FsType::Ext4),
        ]
    );

    for (input, entries) in [("", 2usize), ("0", 2), ("  ", 2), ("000", 2), ("1", 3), (" 8 ", 3)] {
        let mut a = app();
        a.step = Step::SwapSize;
        a.swap_size_input = input.to_string();
        a.confirm_swap_size();
        assert_eq!(a.step, Step::Confirm, "{:?}", input);
        assert_eq!(a.partitions.len(), entries, "{:?}", input);
        assert_eq!(a.partitions.last().unwrap().size_mb, None);
        assert!(a.is_wf());
    }
    for input in ["four", "4.5", "-1", "18014398509481984", "99999999999999999999999"] {
        let mut a = app();
        a.step = Step::SwapSize;
        a.swap_size_input = input.to_string();
        a.partitions = vec![plan_entry("old", "/old", None, FsType::Ext4)];
        a.confirm_swap_size();
        assert_eq!(a.step, Step::SwapSize, "{:?}", input);
        assert_eq!(a.partitions.len(), 1);
        assert_eq!(
            a.status_message.as_deref(),
            Some("Invalid swap size. Enter a whole number in GiB (e.g. 4) or leave empty for no swap.")
        );
    }
    let mut a = app();
    a.step = Step::SwapSize;
    a.swap_size_input = "18014398509481983".to_string();
    a.confirm_swap_size();
    assert_eq!(a.step, Step::Confirm);
    assert_eq!(a.partitions[1].size_mb, Some(18014398509481983 * 1024));
}

#[test]
fn custom_partitions_are_entered_one_at_a_time() {
    let mut a = app();
    a.step = Step::PartitionModeSelect;
    a.partitions = vec![plan_entry("old", "/", None, FsType::Ext4)];
    press(&mut a, Key::Down);
    press(&mut a, Key::Enter);
    assert_eq!(a.partition_mode, PartitionMode::Custom);
    assert_eq!(a.step, Step::CustomPartitionMount);
    assert!(a.partitions.is_empty());

    press(&mut a, Key::Enter);
    assert_eq!(a.status_message.as_deref(), Some("Mount point cannot be empty"));
    press(&mut a, Key::Other);
    type_text(&mut a, "home");
    press(&mut a, Key::Enter);
    assert_eq!(a.step, Step::CustomPartitionMount);
    assert_eq!(a.status_message.as_deref(), Some("Mount point must start with '/' or be 'swap'"));
    press(&mut a, Key::Other);
    a.part_mount_input = " /var/lib ".to_string();
    press(&mut a, Key::Enter);
    assert_eq!(a.step, Step::CustomPartitionSize);

    type_text(&mut a, "2a0.");
    assert_eq!(a.part_size_input, "20.");
    press(&mut a, Key::Enter);
    assert_eq!(a.step, Step::CustomPartitionFs);
    press(&mut a, Key::Down);
    press(&mut a, Key::Down);
    assert_eq!(a.part_fs_cursor, 2);
    press(&mut a, Key::Enter);
    assert_eq!(a.step, Step::CustomPartitionFs);
    assert_eq!(
        a.status_message.as_deref(),
        Some("Invalid size. Enter a whole number in GiB or leave empty for remaining space.")
    );
    press(&mut a, Key::Other);
    a.part_size_input = "0".to_string();
    press(&mut a, Key::Enter);
    assert_eq!(a.status_message.as_deref(), Some("Size must be greater than 0."));
    assert!(a.partitions.is_empty());
    press(&mut a, Key::Other);
    a.part_size_input = " 20 ".to_string();
    press(&mut a, Key::Enter);
    assert_eq!(a.step, Step::CustomPartitionAnother);
    assert_eq!(a.partitions.len(), 1);
    assert_eq!(a.partitions[0].label, "var-lib");
    assert_eq!(a.partitions[0].mount_point, "/var/lib");
    assert_eq!(a.partitions[0].size_mb, Some(20480));
    assert_eq!(a.partitions[0].fs_type, FsType::Btrfs);
    assert_eq!(a.part_mount_input, "");
    assert_eq!(a.part_size_input, "");
    assert_eq!(a.part_fs_cursor, 0);
    assert!(!a.go_back());

    press(&mut a, Key::Right);
    press(&mut a, Key::Char('h'));
    assert_eq!(a.another_partition_cursor, 0);
    press(&mut a, Key::Enter);
    assert_eq!(a.step, Step::CustomPartitionMount);
    type_text(&mut a, "swap");
    press(&mut a, Key::Enter);
    press(&mut a, Key::Enter);
    a.part_fs_cursor = 3;
    press(&mut a, Key::Enter);
    assert_eq!(a.partitions[1].label, "swap");
    assert_eq!(a.partitions[1].size_mb, None);
    assert_eq!(a.partitions[1].fs_type, FsType::Swap);
    press(&mut a, Key::Char('l'));
    assert_eq!(a.another_partition_cursor, 1);
    press(&mut a, Key::Enter);
    assert_eq!(a.step, Step::Confirm);
    assert_eq!(a.another_partition_cursor, 0);
    assert!(a.is_wf());
    assert_eq!(press(&mut a, Key::Enter), Effect::Nothing);
    assert_eq!(a.step, Step::Confirm);
    assert!(a.status_message.is_some());
}

#[test]
fn a_partition_that_leaves_the_range_is_refused() {
    let mut a = app();
    a.step = Step::CustomPartitionFs;
    a.part_mount_input = "/".to_string();
    a.part_size_input = "18014398509481983".to_string();
    a.confirm_custom_fs();
    assert_eq!(a.partitions.len(), 1);
    assert_eq!(a.step, Step::CustomPartitionAnother);
    a.step = Step::CustomPartitionFs;
    a.part_mount_input = "/home".to_string();
    a.part_size_input = "1".to_string();
    a.confirm_custom_fs();
    assert_eq!(a.partitions.len(), 1);
    assert_eq!(a.step, Step::CustomPartitionFs);
    assert_eq!(
        a.status_message.as_deref(),
        Some("Invalid size. Enter a whole number in GiB or leave empty for remaining space.")
    );
    assert_eq!(a.part_size_input, "1");
    a.part_size_input = "18014398509481984".to_string();
    a.confirm_custom_fs();
    assert_eq!(a.partitions.len(), 1);
    a.part_size_input = String::new();
    a.confirm_custom_fs();
    assert_eq!(a.partitions.len(), 2);
    assert!(a.is_wf());

    let mut a = app();
    a.step = Step::CustomPartitionFs;
    a.part_fs_cursor = 4;
    a.part_mount_input = "/".to_string();
    a.confirm_custom_fs();
    assert!(a.partitions.is_empty());
    assert_eq!(a.step, Step::CustomPartitionFs);
    assert!(!a.is_wf());
}

#[test]
fn the_disk_under_the_cursor_is_selected() {
    let mut a = app();
    a.go_to_disk_selection(Ok(vec![disk("sda"), disk("nvme0n1"), disk("sdb")]));
    press(&mut a, Key::Up);
    assert_eq!(a.disk_cursor, 2);
    press(&mut a, Key::Down);
    press(&mut a, Key::Char('j'));
    assert_eq!(a.disk_cursor, 1);
    assert!(!a.go_back());
    press(&mut a, Key::Enter);
    assert_eq!(a.step, Step::PartitionModeSelect);
    assert_eq!(a.selected_disk.as_ref().unwrap().path, "/dev/nvme0n1");
    assert!(a.go_back());
    assert_eq!(a.step, Step::SelectDisk);
    a.disk_cursor = 7;
    a.confirm_disk();
    assert_eq!(a.step, Step::SelectDisk);
    assert!(a.status_message.is_none());
}

#[test]
fn lists_wrap_around() {
    let mut c = 0usize;
    App::list_next(3, &mut c);
    assert_eq!(c, 1);
    App::list_next(3, &mut c);
    App::list_next(3, &mut c);
    assert_eq!(c, 0);
    App::list_prev(3, &mut c);
    assert_eq!(c, 2);
    App::list_prev(3, &mut c);
    assert_eq!(c, 1);
    let mut c = 5usize;
    App::list_next(0, &mut c);
    assert_eq!(c, 5);
    App::list_prev(0, &mut c);
    assert_eq!(c, 5);
    let mut c = 7usize;
    App::list_next(3, &mut c);
    assert_eq!(c, 2);
    let mut c = usize::MAX;
    App::list_next(4, &mut c);
    assert_eq!(c, (usize::MAX % 4 + 1) % 4);
    let mut c = 0usize;
    App::list_next(1, &mut c);
    assert_eq!(c, 0);
    App::list_prev(1, &mut c);
    assert_eq!(c, 0);
}

#[test]
fn the_root_password_is_repeated_and_applied() {
    let mut a = app();
    a.users = vec![user("alice", true), user("bob", false)];
    a.step = Step::RootPassword;
    assert_eq!(press(&mut a, Key::Enter), Effect::Nothing);
    assert_eq!(a.status_message.as_deref(), Some("Root password cannot be empty"));
    press(&mut a, Key::Other);
    type_text(&mut a, "s3cret q");
    assert_eq!(a.root_password, "s3cret q");
    press(&mut a, Key::Enter);
    assert_eq!(a.step, Step::RootPasswordConfirm);
    type_text(&mut a, "s3cret");
    assert_eq!(press(&mut a, Key::Enter), Effect::Nothing);
    assert_eq!(a.step, Step::RootPassword);
    assert!(a.root_password_mismatch);
    assert_eq!(a.root_password, "");
    assert_eq!(a.root_password_confirm, "");
    assert!(!a.go_back());

    type_text(&mut a, "pw");
    press(&mut a, Key::Enter);
    type_text(&mut a, "pw");
    assert_eq!(press(&mut a, Key::Enter), Effect::SetRootPassword);
    assert_eq!(a.step, Step::RootPasswordConfirm);
    assert!(!a.root_password_mismatch);
    assert_eq!(a.install_log.last().unwrap(), "Setting root password...");
    a.root_password_applied(Err("chpasswd failed in target".to_string()));
    assert_eq!(a.step, Step::RootPassword);
    assert_eq!(
        a.status_message.as_deref(),
        Some("Failed to set root password: chpasswd failed in target. Press any key to retry.")
    );
    assert_eq!(a.root_password, "");

    a.status_message = None;
    a.root_password = "pw".to_string();
    a.root_password_confirm = "pw".to_string();
    a.step = Step::RootPasswordConfirm;
    assert_eq!(a.confirm_root_password_confirm(), Effect::SetRootPassword);
    a.password_user_index = 9;
    a.root_password_applied(Ok(()));
    assert_eq!(a.step, Step::UserPassword);
    assert_eq!(a.password_user_index, 0);
    assert_eq!(a.step_title(), "Set Password for 'alice'");
    assert!(a.is_wf());
}

#[test]
fn every_user_gets_a_password_in_turn() {
    let mut a = app();
    a.users = vec![user("alice", true), user("bob", false)];
    a.step = Step::UserPassword;
    assert_eq!(press(&mut a, Key::Enter), Effect::Nothing);
    assert_eq!(a.status_message.as_deref(), Some("Password cannot be empty"));
    press(&mut a, Key::Other);
    type_text(&mut a, "one");
    press(&mut a, Key::Enter);
    assert_eq!(a.step, Step::UserPasswordConfirm);
    assert_eq!(a.step_title(), "Confirm Password for 'alice'");
    type_text(&mut a, "two");
    assert_eq!(press(&mut a, Key::Enter), Effect::Nothing);
    assert_eq!(a.step, Step::UserPassword);
    assert!(a.password_mismatch);
    assert_eq!(a.current_password, "");
    assert_eq!(a.current_password_confirm, "");
    assert_eq!(a.password_user_index, 0);

    type_text(&mut a, "one");
    press(&mut a, Key::Enter);
    type_text(&mut a, "one");
    assert_eq!(press(&mut a, Key::Enter), Effect::SetUserPassword);
    assert!(!a.password_mismatch);
    assert_eq!(a.install_log.last().unwrap(), "Setting password for user 'alice'...");
    a.user_password_applied(Err("chpasswd failed in target".to_string()));
    assert_eq!(a.step, Step::UserPassword);
    assert_eq!(a.password_user_index, 0);
    assert_eq!(
        a.status_message.as_deref(),
        Some("Failed to set password for 'alice': chpasswd failed in target. Press any key to retry.")
    );
    assert_eq!(a.users[0].password, "");
    press(&mut a, Key::Other);

    type_text(&mut a, "one");
    press(&mut a, Key::Enter);
    type_text(&mut a, "one");
    assert_eq!(press(&mut a, Key::Enter), Effect::SetUserPassword);
    a.user_password_applied(Ok(()));
    assert_eq!(a.users[0].password, "one");
    assert_eq!(a.password_user_index, 1);
    assert_eq!(a.step, Step::UserPassword);
    assert_eq!(a.current_password, "");
    assert_eq!(a.step_title(), "Set Password for 'bob'");

    type_text(&mut a, "b");
    press(&mut a, Key::Enter);
    type_text(&mut a, "b");
    assert_eq!(press(&mut a, Key::Enter), Effect::SetUserPassword);
    a.user_password_applied(Ok(()));
    assert_eq!(a.users[1].password, "b");
    assert_eq!(a.step, Step::Complete);
    assert_eq!(a.password_user_index, 2);
    assert!(a.is_wf());

    press(&mut a, Key::Right);
    assert_eq!(a.reboot_cursor, 1);
    assert_eq!(press(&mut a, Key::Enter), Effect::Nothing);
    assert!(a.should_quit);
    let mut a = app();
    a.step = Step::Complete;
    assert_eq!(press(&mut a, Key::Enter), Effect::Reboot);
    assert!(a.should_quit);
}

#[test]
fn without_users_the_root_password_leads_to_the_end() {
    let mut a = app();
    a.step = Step::RootPasswordConfirm;
    a.root_password_applied(Ok(()));
    assert_eq!(a.step, Step::Complete);
    let mut a = app();
    a.step = Step::UserPasswordConfirm;
    assert_eq!(a.confirm_user_password_confirm(), Effect::Nothing);
    a.user_password_applied(Ok(()));
    assert_eq!(a.step, Step::UserPasswordConfirm);
    assert_eq!(a.step_title(), "Confirm User Password");
    a.step = Step::UserPassword;
    assert_eq!(a.step_title(), "Set User Password");
}

#[test]
fn the_clone_is_followed_and_finished() {
    let mut a = App::new(None, Some("u".to_string()), InstallerConfig::default(), ThemeName::Nord.to_theme(), scan());
    assert_eq!(a.auto_advance(), Effect::Nothing);
    a.sync_clone_state(Shared::Absent);
    assert!(a.clone_log.is_empty());
    let mut s = CloneState::new();
    s.begin("u");
    s.record_line("Receiving objects:  42% (123/456)".to_string());
    a.sync_clone_state(Shared::Held(s.clone()));
    assert_eq!(a.clone_percent, 42);
    assert_eq!(a.clone_phase, "Receiving objects:  42% (123/456)");
    assert_eq!(a.clone_log.len(), 2);
    assert_eq!(a.clone_log_scroll, 1);
    assert!(!a.clone_done);
    assert_eq!(a.auto_advance(), Effect::Nothing);

    press(&mut a, Key::Up);
    assert!(!a.auto_scroll);
    assert_eq!(a.clone_log_scroll, 0);
    press(&mut a, Key::Up);
    assert_eq!(a.clone_log_scroll, 0);
    s.record_line("more".to_string());
    a.sync_clone_state(Shared::Held(s.clone()));
    assert_eq!(a.clone_log_scroll, 0);
    press(&mut a, Key::Down);
    assert_eq!(a.clone_log_scroll, 1);
    assert!(!a.auto_scroll);
    press(&mut a, Key::Char('j'));
    assert_eq!(a.clone_log_scroll, 2);
    assert!(a.auto_scroll);
    press(&mut a, Key::Down);
    assert_eq!(a.clone_log_scroll, 2);
    assert_eq!(press(&mut a, Key::Enter), Effect::Nothing);
    assert!(!a.should_quit);

    s.finish(&nixos_installer::clone::ProcessExit::Success);
    a.sync_clone_state(Shared::Held(s));
    assert!(a.clone_done);
    assert_eq!(a.clone_percent, 100);
    assert_eq!(a.auto_advance(), Effect::RescanRepo);
    assert_eq!(a.step, Step::CloningRepo);
    let mut found = scan();
    found.layout = RepoLayout { hosts: false, ..layout() };
    found.config = Some(InstallerConfig {
        default_hostname: Some("from-repo".to_string()),
        default_swap_size: Some("2".to_string()),
        branding_title: Some("Repo".to_string()),
        ..InstallerConfig::default()
    });
    a.finish_clone(found);
    assert_eq!(a.step, Step::SelectPreset);
    assert_eq!(a.presets.len(), 2);
    assert_eq!(a.host_name_input, "from-repo");
    assert_eq!(a.swap_size_input, "2");
    assert_eq!(a.branding_title, "Repo");
    assert_eq!(
        a.status_message.as_deref(),
        Some("modules/hosts directory not found at '/tmp/nixos-dotfiles/modules/hosts'")
    );
    assert!(a.is_wf());
}

#[test]
fn a_clone_that_failed_or_crashed_is_not_followed_by_the_presets() {
    let mut a = App::new(None, None, InstallerConfig::default(), ThemeName::Nord.to_theme(), scan());
    a.sync_clone_state(Shared::Poisoned);
    assert!(a.clone_done);
    assert_eq!(a.clone_error.as_deref(), Some("Clone thread crashed unexpectedly"));
    assert_eq!(a.auto_advance(), Effect::Nothing);
    assert_eq!(a.step, Step::CloningRepo);
    assert_eq!(press(&mut a, Key::Enter), Effect::Nothing);
    assert!(a.should_quit);

    let mut a = App::new(None, None, InstallerConfig::default(), ThemeName::Nord.to_theme(), scan());
    a.host_name_input = "typed".to_string();
    a.finish_clone(scan());
    assert_eq!(a.host_name_input, "typed");
    assert_eq!(a.swap_size_input, "4");
    assert!(a.status_message.is_none());
}

#[test]
fn the_installation_is_followed_and_leads_to_the_root_password() {
    let mut a = app();
    a.step = Step::Installing;
    assert_eq!(a.watches(), Watch::Install);
    a.sync_install_state(Shared::Absent);
    assert_eq!(a.install_total, 8);
    let mut s = InstallState::new(11);
    s.log("Partitioning /dev/sda...");
    s.log("x");
    s.set_progress(1);
    a.sync_install_state(Shared::Held(s.clone()));
    assert_eq!(a.install_total, 11);
    assert_eq!(a.install_progress, 1);
    assert_eq!(a.install_log.len(), 2);
    assert_eq!(a.log_scroll, 1);
    press(&mut a, Key::Char('k'));
    assert_eq!(a.log_scroll, 0);
    assert!(!a.auto_scroll);
    s.log("y");
    a.sync_install_state(Shared::Held(s.clone()));
    assert_eq!(a.log_scroll, 0);
    assert_eq!(press(&mut a, Key::Enter), Effect::Nothing);
    assert_eq!(a.step, Step::Installing);
    assert!(!a.should_quit);
    assert_eq!(a.auto_advance(), Effect::Nothing);

    a.sync_install_state(Shared::Poisoned);
    assert_eq!(a.install_error.as_deref(), Some("Installation thread crashed unexpectedly"));
    assert!(!a.install_done);
    assert_eq!(a.install_log.len(), 3);
    assert_eq!(a.auto_advance(), Effect::Nothing);
    press(&mut a, Key::Enter);
    assert!(a.should_quit);

    let mut a = app();
    a.step = Step::Installing;
    s.done = true;
    a.sync_install_state(Shared::Held(s));
    assert!(a.install_done);
    assert_eq!(a.auto_advance(), Effect::Redraw);
    assert_eq!(a.step, Step::RootPassword);
    assert_eq!(a.auto_advance(), Effect::Nothing);
    let mut a = app();
    a.step = Step::Installing;
    a.install_done = true;
    press(&mut a, Key::Enter);
    assert_eq!(a.step, Step::RootPassword);
}

#[test]
fn the_installation_starts_with_a_copy_of_what_was_entered() {
    let mut a = app_with(InstallerConfig {
        hm_base_modules: vec!["home".to_string()],
        pre_install_hooks: vec!["/pre".to_string()],
        post_install_hooks: vec!["/post1".to_string(), "/post2".to_string()],
        ..InstallerConfig::default()
    });
    a.host_name = "laptop".to_string();
    a.users = vec![user("alice", true)];
    a.swap_size_input = "0".to_string();
    a.confirm_swap_size();
    let (state, pipeline) = a.start_installation();
    assert!(pipeline.is_none());
    assert_eq!(state.error.as_deref(), Some("No disk selected"));
    assert_eq!(state.log, vec!["ERROR: No disk selected"]);
    assert_eq!(state.total, 12);
    assert_eq!(state.progress, 0);
    assert!(!state.done);

    a.selected_disk = Some(disk("sda"));
    let (mut state, pipeline) = a.start_installation();
    let mut pipeline = pipeline.unwrap();
    assert!(state.error.is_none());
    assert!(state.log.is_empty());
    assert_eq!(state.total, 12);
    assert_eq!(pipeline.stage(), Stage::Partition);
    match pipeline.next(&mut state) {
        nixos_installer::install::Work::Run(lines) => {
            assert_eq!(lines[0].args, vec!["-a", "-f", "/dev/sda"]);
            assert_eq!(lines.len(), 5);
        }
        _ => panic!("expected commands"),
    }
    assert_eq!(state.log, vec!["Partitioning /dev/sda..."]);

    a.partitions = vec![
        plan_entry("a", "/", Some(u64::MAX - 1), FsType::Ext4),
        plan_entry("b", "/b", Some(5), FsType::Ext4),
    ];
    let (state, pipeline) = a.start_installation();
    assert!(pipeline.is_none());
    assert_eq!(state.error.as_deref(), Some("Installation plan is too large"));
    assert_eq!(state.log, vec!["ERROR: Installation plan is too large"]);
}

#[test]
fn the_summary_toggles_and_chooses() {
    let mut a = app();
    a.step = Step::Confirm;
    press(&mut a, Key::Char(' '));
    assert!(!a.accept_flake_config);
    press(&mut a, Key::Char(' '));
    assert!(a.accept_flake_config);
    press(&mut a, Key::Char('l'));
    assert_eq!(a.confirm_cursor, 1);
    press(&mut a, Key::Left);
    assert_eq!(a.confirm_cursor, 0);
    press(&mut a, Key::Right);
    assert_eq!(press(&mut a, Key::Enter), Effect::Nothing);
    assert_eq!(a.step, Step::PartitionModeSelect);
}

#[test]
fn screens_have_their_titles_and_chapters() {
    let table = [
        (Step::CloningRepo, 1, "Cloning Repository"),
        (Step::SelectPreset, 2, "Select Host Preset"),
        (Step::HostName, 3, "Enter Host Name"),
        (Step::SelectNixosModules, 3, "Select NixOS Modules"),
        (Step::SelectSystemPackages, 3, "Select System Packages"),
        (Step::CreateUser, 4, "Create User #1"),
        (Step::AddAnotherUser, 4, "Add Another User?"),
        (Step::SelectHmModules, 5, "Select Home Manager Modules"),
        (Step::SelectUserPackages, 5, "Select User Packages"),
        (Step::SelectDisk, 6, "Select Installation Disk"),
        (Step::PartitionModeSelect, 7, "Partition Mode"),
        (Step::SwapSize, 7, "Swap Size"),
        (Step::CustomPartitionMount, 7, "Partition Mount Point"),
        (Step::CustomPartitionSize, 7, "Partition Size"),
        (Step::CustomPartitionFs, 7, "Partition Filesystem"),
        (Step::CustomPartitionAnother, 7, "Add Another Partition?"),
        (Step::Confirm, 8, "Confirm Installation"),
        (Step::Installing, 9, "Installing NixOS"),
        (Step::RootPassword, 10, "Set Root Password"),
        (Step::RootPasswordConfirm, 10, "Confirm Root Password"),
        (Step::UserPassword, 11, "Set User Password"),
        (Step::UserPasswordConfirm, 11, "Confirm User Password"),
        (Step::Complete, 12, "Installation Complete"),
    ];
    for (step, number, title) in table {
        let mut a = app();
        a.step = step;
        assert_eq!(a.step_number(), number, "{:?}", step);
        assert_eq!(a.step_title(), title, "{:?}", step);
        assert_eq!(a.total_steps(), 12);
    }
}

#[test]
fn the_text_field_of_a_screen_is_the_one_that_is_edited() {
    let fields = [
        Step::HostName,
        Step::CreateUser,
        Step::UserPassword,
        Step::UserPasswordConfirm,
        Step::CustomPartitionMount,
        Step::RootPassword,
        Step::RootPasswordConfirm,
    ];
    for step in fields {
        let mut a = app();
        a.users = vec![user("alice", true)];
        a.step = step;
        type_text(&mut a, "a1 é");
        assert_eq!(a.current_input_ref(), Some("a1 é"), "{:?}", step);
        press(&mut a, Key::Backspace);
        press(&mut a, Key::Backspace);
        assert_eq!(a.current_input_ref(), Some("a1"));
        for _ in 0..4 {
            press(&mut a, Key::Backspace);
        }
        assert_eq!(a.current_input_ref(), Some(""));
    }
    let mut a = app();
    a.step = Step::CustomPartitionSize;
    type_text(&mut a, "1.5x ");
    assert_eq!(a.current_input_ref(), Some("1.5"));
    a.step = Step::SwapSize;
    assert_eq!(a.current_input_ref(), Some("4"));
    for step in [Step::SelectPreset, Step::Confirm, Step::Installing, Step::Complete, Step::SelectDisk] {
        a.step = step;
        assert_eq!(a.current_input_ref(), None);
    }
}

#[test]
fn q_ends_the_program_from_lists_only() {
    for step in [
        Step::SelectPreset,
        Step::SelectDisk,
        Step::SelectNixosModules,
        Step::SelectHmModules,
        Step::SelectSystemPackages,
        Step::SelectUserPackages,
    ] {
        let mut a = app();
        a.users = vec![user("alice", true)];
        a.step = step;
        press(&mut a, Key::Char('q'));
        assert!(a.should_quit, "{:?}", step);
    }
    for step in [Step::AddAnotherUser, Step::PartitionModeSelect, Step::Confirm, Step::CustomPartitionFs, Step::Installing] {
        let mut a = app();
        a.step = step;
        press(&mut a, Key::Char('q'));
        assert!(!a.should_quit, "{:?}", step);
    }
}

#[test]
fn a_plan_with_two_roots_is_refused_at_the_summary() {
    let mut a = app();
    a.step = Step::Confirm;
    a.selected_disk = Some(disk("sda"));
    a.partitions = vec![
        plan_entry("root", "/", Some(10240), FsType::Ext4),
        plan_entry("root", "/", None, FsType::Btrfs),
    ];
    assert_eq!(a.confirm_install(), Effect::Nothing);
    assert_eq!(a.step, Step::Confirm);
    assert_eq!(
        a.status_message.as_deref(),
        Some("More than one root (/) partition defined. Please go back and keep one.")
    );
    assert_eq!(a.partitions.len(), 2);
    a.status_message = None;
    assert_eq!(press(&mut a, Key::Enter), Effect::Nothing);
    assert_eq!(a.step, Step::Confirm);
    assert!(a.status_message.is_some());
}

#[test]
fn a_plan_with_an_open_size_before_the_end_is_refused_at_the_summary() {
    let mut a = app();
    a.step = Step::Confirm;
    a.selected_disk = Some(disk("sda"));
    a.partitions = vec![
        plan_entry("EFI", "/boot", Some(512), FsType::Fat32),
        plan_entry("root", "/", None, FsType::Ext4),
        plan_entry("home", "/home", Some(1024), FsType::Ext4),
    ];
    assert_eq!(a.confirm_install(), Effect::Nothing);
    assert_eq!(a.step, Step::Confirm);
    assert_eq!(
        a.status_message.as_deref(),
        Some("Only the last partition can use the remaining space. Please go back and set sizes.")
    );
    a.status_message = None;
    a.partitions.swap(1, 2);
    assert_eq!(a.confirm_install(), Effect::StartInstall);
    assert_eq!(a.step, Step::Installing);
}

#[test]
fn an_installation_with_an_error_is_never_moved_on_from() {
    let mut a = app();
    a.step = Step::Installing;
    let mut s = InstallState::new(9);
    s.done = true;
    s.fail("worker crashed".to_string());
    a.sync_install_state(Shared::Held(s));
    assert!(a.install_done);
    assert!(a.install_error.is_some());
    assert_eq!(a.auto_advance(), Effect::Nothing);
    assert_eq!(a.step, Step::Installing);
    assert_eq!(press(&mut a, Key::Enter), Effect::Nothing);
    assert_eq!(a.step, Step::Installing);
    assert!(a.should_quit);

    let mut a = app();
    a.step = Step::Installing;
    a.install_error = Some("Partitioning failed: x".to_string());
    assert_eq!(a.auto_advance(), Effect::Nothing);
    assert_eq!(a.step, Step::Installing);

    let mut a = App::new(None, None, InstallerConfig::default(), ThemeName::Nord.to_theme(), scan());
    a.clone_done = true;
    a.clone_error = Some("git clone failed with exit code Some(1)".to_string());
    assert_eq!(a.auto_advance(), Effect::Nothing);
    assert_eq!(a.step, Step::CloningRepo);
}
