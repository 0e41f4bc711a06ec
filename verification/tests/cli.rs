use nixos_installer::cli::{help_text, parse_args};
use nixos_installer::theme::ThemeName;

fn args(list: &[&str]) -> Vec<String> {
    list.iter().map(|s| s.to_string()).collect()
}

#[test]
fn no_arguments_ask_for_nothing() {
    let a = parse_args(&args(&[]), None).unwrap();
    assert!(a.repo_url.is_none());
    assert!(a.base_path.is_none());
    assert!(a.config_path.is_none());
    assert!(a.theme_override.is_none());
    assert!(!a.init);
    assert!(!a.help);
}

#[test]
fn options_take_the_argument_after_them() {
    let a = parse_args(
        &args(&["--repo", "https://x/y.git", "--config", "/etc/c.toml", "--theme", "Tokyo_Night", "--init"]),
        Some("https://env".to_string()),
    )
    .unwrap();
    assert_eq!(a.repo_url.as_deref(), Some("https://x/y.git"));
    assert_eq!(a.config_path.as_deref(), Some("/etc/c.toml"));
    assert_eq!(a.theme_override, Some(ThemeName::TokyoNight));
    assert!(a.init);
    assert!(!a.help);
    assert!(a.base_path.is_none());
}

#[test]
fn an_option_at_the_end_asks_for_nothing() {
    for last in ["--repo", "--config", "--theme"] {
        let a = parse_args(&args(&["-h", last]), None).unwrap();
        assert!(a.help);
        assert!(a.repo_url.is_none());
        assert!(a.config_path.is_none());
        assert!(a.theme_override.is_none());
        assert!(a.base_path.is_none());
    }
}

#[test]
fn the_value_of_an_option_is_not_read_as_an_option() {
    let a = parse_args(&args(&["--repo", "--init", "--config", "--help"]), None).unwrap();
    assert_eq!(a.repo_url.as_deref(), Some("--init"));
    assert_eq!(a.config_path.as_deref(), Some("--help"));
    assert!(!a.init);
    assert!(!a.help);
}

#[test]
fn other_arguments_name_a_repository_that_is_there() {
    let a = parse_args(&args(&["./one", "--help", "/two"]), Some("https://env".to_string())).unwrap();
    assert_eq!(a.base_path.as_deref(), Some("/two"));
    assert!(a.help);
    assert!(a.repo_url.is_none());
    let a = parse_args(&args(&["--unknown"]), None).unwrap();
    assert_eq!(a.base_path.as_deref(), Some("--unknown"));
}

#[test]
fn the_environment_names_the_repository_where_nothing_else_does() {
    let a = parse_args(&args(&["--init"]), Some("https://env".to_string())).unwrap();
    assert_eq!(a.repo_url.as_deref(), Some("https://env"));
    let a = parse_args(&args(&[]), Some(String::new())).unwrap();
    assert!(a.repo_url.is_none());
    let a = parse_args(&args(&["--repo", "https://cli"]), Some("https://env".to_string())).unwrap();
    assert_eq!(a.repo_url.as_deref(), Some("https://cli"));
}

#[test]
fn a_theme_that_there_is_not_is_an_error() {
    let e = parse_args(&args(&["--theme", "solarized", "--theme", "nord"]), None).unwrap_err();
    assert_eq!(
        e,
        "Unknown theme 'solarized'. Available: catppuccin-mocha, nord, dracula, tokyo-night, gruvbox"
    );
    let a = parse_args(&args(&["--theme", "nord", "--theme", "GRUVBOX"]), None).unwrap();
    assert_eq!(a.theme_override, Some(ThemeName::Gruvbox));
}

#[test]
fn the_help_text_lists_the_themes() {
    let lines = help_text();
    assert_eq!(lines.len(), 24);
    assert_eq!(lines[0], "nixos-installer - A TUI-based NixOS installer");
    assert_eq!(lines[1], "");
    assert_eq!(lines[15], "AVAILABLE THEMES:");
    assert_eq!(lines[16], "    catppuccin-mocha");
    assert_eq!(lines[20], "    gruvbox");
    assert_eq!(lines[21], "");
    assert_eq!(lines[23], "    NIXOS_DOTFILES_REPO    Fallback repository URL if --repo is not given");
}
