use nixos_installer::nix::{
    discover_modules, generate_configuration_nix, generate_user_nix, hm_attr, host_dir,
    mentions_wsl, mod_line, pick_module_name, scan_hm_modules, scan_host_presets,
    scan_nixos_modules, scan_package_modules, should_skip_hm_module, should_skip_nixos_module,
    user_config_file, user_config_path, validate_base_path, HostPreset, NixModule, RepoLayout,
};

fn module(name: &str, selected: bool) -> NixModule {
    NixModule { name: name.to_string(), selected }
}

fn names(modules: &Vec<NixModule>) -> Vec<String> {
    modules.iter().map(|m| m.name.clone()).collect()
}

#[test]
fn module_lines_are_commented_out_when_not_selected() {
    assert_eq!(mod_line("nixosModules", "desktop", true), "      self.nixosModules.desktop");
    assert_eq!(mod_line("nixosModules", "server", false), "      # self.nixosModules.server");
    assert_eq!(hm_attr("git"), "self.homeManagerModules.git");
}

#[test]
fn host_configuration_names_every_module() {
    let text = generate_configuration_nix(
        "laptop",
        &vec![module("desktop", true), module("server", false)],
        &vec![module("packages-base", true), module("packages-games", false)],
        &vec!["alice".to_string(), "bob".to_string()],
    );
    let expected = "{ inputs, self, ... }:\n\
{\n\
\x20 flake.nixosConfigurations.laptop = inputs.nixpkgs.lib.nixosSystem {\n\
\x20   specialArgs = { inherit inputs self; };\n\
\x20   modules = [\n\
\x20     ./_hardware-configuration.nix\n\
\n\
\x20     self.nixosModules.desktop\n\
\x20     # self.nixosModules.server\n\
\n\
\x20     self.nixosModules.packages-base\n\
\x20     # self.nixosModules.packages-games\n\
\n\
\x20     self.nixosModules.home-manager\n\
\x20     self.nixosModules.laptop-user-alice\n\
\x20     self.nixosModules.laptop-user-bob\n\
\x20     {\n\
\x20       networking.hostName = \"laptop\";\n\
\x20     }\n\
\x20   ];\n\
\x20 };\n\
}\n";
    assert_eq!(text, expected);
}

#[test]
fn host_configuration_without_modules_and_users() {
    let text = generate_configuration_nix("h", &Vec::new(), &Vec::new(), &Vec::new());
    let expected = "{ inputs, self, ... }:\n\
{\n\
\x20 flake.nixosConfigurations.h = inputs.nixpkgs.lib.nixosSystem {\n\
\x20   specialArgs = { inherit inputs self; };\n\
\x20   modules = [\n\
\x20     ./_hardware-configuration.nix\n\
\x20     {\n\
\x20       networking.hostName = \"h\";\n\
\x20     }\n\
\x20   ];\n\
\x20 };\n\
}\n";
    assert_eq!(text, expected);
}

#[test]
fn user_file_defines_the_account_and_imports_the_modules() {
    let text = generate_user_nix(
        "laptop",
        "alice",
        &vec![module("git", true), module("zsh", false)],
        &vec![module("packages-dev", true), module("packages-games", false)],
        &vec!["home".to_string(), "shell".to_string()],
    );
    let expected = "{ ... }:\n\
{\n\
\x20 flake.nixosModules.laptop-user-alice =\n\
\x20   {\n\
\x20     pkgs,\n\
\x20     self,\n\
\x20     inputs,\n\
\x20     ...\n\
\x20   }:\n\
\x20   {\n\
\x20     users.users.alice = {\n\
\x20       isNormalUser = true;\n\
\x20       extraGroups = [ \"wheel\" ];\n\
\x20     };\n\
\x20     home-manager.users.alice.imports = [\n\
\x20       self.homeManagerModules.home\n\
\x20       self.homeManagerModules.shell\n\
\x20       self.homeManagerModules.git\n\
\x20       # self.homeManagerModules.zsh\n\
\x20       self.homeManagerModules.packages-dev\n\
\x20       # self.homeManagerModules.packages-games\n\
\x20     ];\n\
\x20   };\n\
}\n";
    assert_eq!(text, expected);
    assert!(!text.contains("password"));
}

#[test]
fn user_file_without_modules_imports_home_alone() {
    let text = generate_user_nix("h", "u", &Vec::new(), &Vec::new(), &Vec::new());
    assert!(text.contains(
        "      };\n      home-manager.users.u.imports = [\n        self.homeManagerModules.home\n      ];\n    };\n}\n"
    ));
    assert_eq!(text.matches("self.homeManagerModules.").count(), 1);
}

#[test]
fn modules_kept_from_selection() {
    assert!(should_skip_nixos_module("home-manager"));
    assert!(should_skip_nixos_module("home-"));
    assert!(should_skip_nixos_module("wsl"));
    assert!(!should_skip_nixos_module("home"));
    assert!(!should_skip_nixos_module("wsl2"));
    assert!(!should_skip_nixos_module("desktop"));
    assert!(should_skip_hm_module("home"));
    assert!(should_skip_hm_module("home-wsl"));
    assert!(should_skip_hm_module("packages-dev"));
    assert!(!should_skip_hm_module("home-office"));
    assert!(!should_skip_hm_module("packages"));
    assert!(!should_skip_hm_module("git"));
}

#[test]
fn missing_directories_give_warnings() {
    let all = RepoLayout {
        modules: true,
        nixos_modules: true,
        home_manager_modules: true,
        packages: true,
        hosts: true,
    };
    assert!(validate_base_path("/repo", all).is_empty());
    let none = RepoLayout { modules: false, ..all };
    assert_eq!(
        validate_base_path("/repo", none),
        vec!["modules/ directory not found at '/repo'. Module scanning will not work."]
    );
    let some = RepoLayout { home_manager_modules: false, hosts: false, ..all };
    assert_eq!(
        validate_base_path("/repo", some),
        vec![
            "modules/homeManagerModules directory not found at '/repo/modules/homeManagerModules'",
            "modules/hosts directory not found at '/repo/modules/hosts'",
        ]
    );
    let bare = RepoLayout {
        modules: true,
        nixos_modules: false,
        home_manager_modules: false,
        packages: false,
        hosts: false,
    };
    assert_eq!(validate_base_path("/repo/", bare).len(), 4);
    assert_eq!(
        validate_base_path("/repo/", bare)[0],
        "modules/nixosModules directory not found at '/repo/modules/nixosModules'"
    );
}

#[test]
fn module_names_come_from_file_stems_and_directories() {
    assert_eq!(pick_module_name(Some("git".to_string()), Some("x".to_string())), Some("git".to_string()));
    assert_eq!(pick_module_name(Some("default".to_string()), Some("desktop".to_string())), Some("desktop".to_string()));
    assert_eq!(pick_module_name(Some("default".to_string()), None), None);
    assert_eq!(pick_module_name(None, Some("x".to_string())), None);
    let listing = "/r/modules/nixosModules/desktop/default.nix\n\
                   /r/modules/nixosModules/server.nix\n\
                   \n\
                   \x20 /r/modules/nixosModules/wsl.nix  \n\
                   /r/modules/nixosModules/other/server.nix\n\
                   /r/modules/nixosModules/desktop.nix\n\
                   /r/modules/nixosModules/archive.tar.nix\n\
                   /r/modules/nixosModules/.hidden\n\
                   default.nix\n\
                   /default.nix\n\
                   /r/modules/nixosModules/home-extra.nix\r\n";
    assert_eq!(
        discover_modules(listing),
        vec!["desktop", "server", "wsl", "archive.tar", ".hidden", "home-extra"]
    );
    assert!(discover_modules("").is_empty());
}

#[test]
fn scans_filter_and_sort_the_modules() {
    let listing = "/r/m/zsh.nix\n/r/m/home-manager.nix\n/r/m/wsl.nix\n/r/m/desktop/default.nix\n/r/m/audio.nix\n/r/m/home.nix\n/r/m/packages-x.nix\n/r/m/home-wsl.nix\n/r/m/Zed.nix\n";
    let nixos = scan_nixos_modules(listing);
    assert_eq!(names(&nixos), vec!["Zed", "audio", "desktop", "home", "packages-x", "zsh"]);
    assert!(nixos.iter().all(|m| !m.selected));
    let hm = scan_hm_modules(listing);
    assert_eq!(names(&hm), vec!["Zed", "audio", "desktop", "home-manager", "wsl", "zsh"]);
    let packages = scan_package_modules("/r/p/games.nix\n/r/p/WSL-tools.nix\n/r/p/dev.nix\n/r/p/base.nix\n/r/p/dev.nix\n");
    assert_eq!(names(&packages), vec!["packages-base", "packages-dev", "packages-games"]);
    assert!(packages.iter().all(|m| !m.selected));
    assert!(scan_nixos_modules("").is_empty());
}

#[test]
fn names_that_speak_of_wsl() {
    assert!(mentions_wsl("wsl"));
    assert!(mentions_wsl("my-wsl-host"));
    assert!(!mentions_wsl("WSL"));
    assert!(!mentions_wsl("ws-l"));
    assert!(!mentions_wsl(""));
}

#[test]
fn host_presets_are_sorted_and_those_for_wsl_left_out() {
    let entry = |name: &str, hw: bool| HostPreset {
        name: name.to_string(),
        path: format!("/r/modules/hosts/{}", name),
        has_hardware_config: hw,
    };
    let presets = scan_host_presets(vec![
        entry("server", true),
        entry("Work-WSL", false),
        entry("laptop", false),
        entry("wsl", true),
        entry("desktop", true),
    ]);
    let got: Vec<(String, String, bool)> =
        presets.iter().map(|p| (p.name.clone(), p.path.clone(), p.has_hardware_config)).collect();
    assert_eq!(
        got,
        vec![
            ("desktop".to_string(), "/r/modules/hosts/desktop".to_string(), true),
            ("laptop".to_string(), "/r/modules/hosts/laptop".to_string(), false),
            ("server".to_string(), "/r/modules/hosts/server".to_string(), true),
        ]
    );
    assert!(scan_host_presets(Vec::new()).is_empty());
}

#[test]
fn paths_of_a_host() {
    assert_eq!(host_dir("/repo", "laptop"), "/repo/modules/hosts/laptop");
    assert_eq!(user_config_file("alice"), "user-alice.nix");
    assert_eq!(
        user_config_path("/repo", "laptop", "alice"),
        format!("{}/{}", host_dir("/repo", "laptop"), user_config_file("alice"))
    );
    assert_eq!(user_config_path("/repo", "laptop", "alice"), "/repo/modules/hosts/laptop/user-alice.nix");
    assert_eq!(user_config_path("/repo/", "laptop", "alice"), "/repo/modules/hosts/laptop/user-alice.nix");
}

#[test]
fn presets_of_the_same_name_keep_their_order() {
    let entry = |name: &str, path: &str| HostPreset {
        name: name.to_string(),
        path: path.to_string(),
        has_hardware_config: false,
    };
    let presets = scan_host_presets(vec![
        entry("b", "/1"),
        entry("a", "/2"),
        entry("b", "/3"),
        entry("a", "/4"),
        entry("b", "/5"),
    ]);
    let got: Vec<(String, String)> = presets.iter().map(|p| (p.name.clone(), p.path.clone())).collect();
    let want: Vec<(String, String)> = [("a", "/2"), ("a", "/4"), ("b", "/1"), ("b", "/3"), ("b", "/5")]
        .iter()
        .map(|(n, p)| (n.to_string(), p.to_string()))
        .collect();
    assert_eq!(got, want);
}
