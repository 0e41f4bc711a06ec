//! The installer's configuration: what a file can set, how a repository's
//! file adds to the machine's, and the file written for a new setup.

use crate::lists::{empty_list, push_deep};
use crate::text;
use crate::theme::{rgb, Rgb, Theme, ThemeName};
use vstd::prelude::*;

verus! {

/// Colours that replace those of the chosen theme, each written as six
/// hexadecimal digits with or without `#` before them.
#[derive(Debug)]
pub struct CustomThemeConfig {
    pub accent: Option<String>,
    pub accent_dim: Option<String>,
    pub bg: Option<String>,
    pub surface: Option<String>,
    pub text: Option<String>,
    pub text_dim: Option<String>,
    pub red: Option<String>,
    pub green: Option<String>,
    pub yellow: Option<String>,
}

/// What a [`CustomThemeConfig`] holds.
pub ghost struct CustomThemeConfigView {
    pub accent: Option<Seq<char>>,
    pub accent_dim: Option<Seq<char>>,
    pub bg: Option<Seq<char>>,
    pub surface: Option<Seq<char>>,
    pub text: Option<Seq<char>>,
    pub text_dim: Option<Seq<char>>,
    pub red: Option<Seq<char>>,
    pub green: Option<Seq<char>>,
    pub yellow: Option<Seq<char>>,
}

impl DeepView for CustomThemeConfig {
    type V = CustomThemeConfigView;

    open spec fn deep_view(&self) -> CustomThemeConfigView {
        CustomThemeConfigView {
            accent: self.accent.deep_view(),
            accent_dim: self.accent_dim.deep_view(),
            bg: self.bg.deep_view(),
            surface: self.surface.deep_view(),
            text: self.text.deep_view(),
            text_dim: self.text_dim.deep_view(),
            red: self.red.deep_view(),
            green: self.green.deep_view(),
            yellow: self.yellow.deep_view(),
        }
    }
}

impl View for CustomThemeConfig {
    type V = CustomThemeConfigView;

    open spec fn view(&self) -> CustomThemeConfigView {
        self.deep_view()
    }
}

impl Clone for CustomThemeConfig {
    fn clone(&self) -> (r: Self)
        ensures
            r@ == self@,
    {
        CustomThemeConfig {
            accent: self.accent.clone(),
            accent_dim: self.accent_dim.clone(),
            bg: self.bg.clone(),
            surface: self.surface.clone(),
            text: self.text.clone(),
            text_dim: self.text_dim.clone(),
            red: self.red.clone(),
            green: self.green.clone(),
            yellow: self.yellow.clone(),
        }
    }
}

impl Default for CustomThemeConfig {
    fn default() -> (r: Self)
        ensures
            !r@.overrides(),
    {
        CustomThemeConfig {
            accent: None,
            accent_dim: None,
            bg: None,
            surface: None,
            text: None,
            text_dim: None,
            red: None,
            green: None,
            yellow: None,
        }
    }
}

impl CustomThemeConfigView {
    /// Whether at least one colour is set.
    pub open spec fn overrides(self) -> bool {
        self.accent is Some || self.accent_dim is Some || self.bg is Some || self.surface is Some
            || self.text is Some || self.text_dim is Some || self.red is Some || self.green is Some
            || self.yellow is Some
    }
}

impl CustomThemeConfig {
    /// Whether at least one colour is set.
    pub fn has_overrides(&self) -> (r: bool)
        ensures
            r == self@.overrides(),
    {
        self.accent.is_some() || self.accent_dim.is_some() || self.bg.is_some()
            || self.surface.is_some() || self.text.is_some() || self.text_dim.is_some()
            || self.red.is_some() || self.green.is_some() || self.yellow.is_some()
    }
}

/// The number a hexadecimal digit stands for.
pub open spec fn hex_value(c: char) -> Option<nat> {
    if '0' <= c && c <= '9' {
        Some((c as u32 - '0' as u32) as nat)
    } else if 'a' <= c && c <= 'f' {
        Some((c as u32 - 'a' as u32 + 10) as nat)
    } else if 'A' <= c && c <= 'F' {
        Some((c as u32 - 'A' as u32 + 10) as nat)
    } else {
        None
    }
}

/// The byte that two characters write in base sixteen: two digits, or a
/// plus sign and one digit.
pub open spec fn hex_pair(high: char, low: char) -> Option<u8> {
    match hex_value(low) {
        Some(l) => if high == '+' {
            Some(l as u8)
        } else {
            match hex_value(high) {
                Some(h) => Some((h * 16 + l) as u8),
                None => None,
            }
        },
        None => None,
    }
}

/// The colour that a text names: white space around it and any `#` before
/// it do not count, and what is left is three pairs of hexadecimal digits
/// for red, green and blue.
pub open spec fn hex_color_of(s: Seq<char>) -> Option<(u8, u8, u8)> {
    let t = text::without_leading(text::trimmed(s), '#');
    if t.len() == 6 && hex_pair(t[0], t[1]) is Some && hex_pair(t[2], t[3]) is Some && hex_pair(
        t[4],
        t[5],
    ) is Some {
        Some((hex_pair(t[0], t[1])->0, hex_pair(t[2], t[3])->0, hex_pair(t[4], t[5])->0))
    } else {
        None
    }
}

fn hex_digit(c: char) -> (r: Option<u8>)
    ensures
        match hex_value(c) {
            Some(n) => r == Some(n as u8) && n < 16,
            None => r is None,
        },
{
    if '0' <= c && c <= '9' {
        Some((c as u32 - '0' as u32) as u8)
    } else if 'a' <= c && c <= 'f' {
        Some((c as u32 - 'a' as u32 + 10) as u8)
    } else if 'A' <= c && c <= 'F' {
        Some((c as u32 - 'A' as u32 + 10) as u8)
    } else {
        None
    }
}

fn read_hex_pair(high: char, low: char) -> (r: Option<u8>)
    ensures
        r == hex_pair(high, low),
{
    match hex_digit(low) {
        Some(l) => {
            if high == '+' {
                Some(l)
            } else {
                match hex_digit(high) {
                    Some(h) => Some(h * 16 + l),
                    None => None,
                }
            }
        },
        None => None,
    }
}

/// Reads a colour written as `#89b4fa` or `89b4fa`.
pub fn parse_hex_color(s: &str) -> (r: Option<(u8, u8, u8)>)
    ensures
        r == hex_color_of(s@),
{
    let v = text::chars_of(s);
    let (from, to) = text::trim_bounds(&v);
    let mut t: Vec<char> = Vec::new();
    let mut i: usize = from;
    while i < to
        invariant
            from <= i <= to <= v.len(),
            t@ == v@.subrange(from as int, i as int),
        decreases to - i,
    {
        t.push(v[i]);
        i += 1;
        assert(v@.subrange(from as int, i as int) == v@.subrange(from as int, i - 1).push(
            v@[i - 1],
        ));
    }
    let skip = text::leading_run(&t, '#');
    if t.len() - skip != 6 {
        return None;
    }
    proof {
        let u = t@.skip(skip as int);
        assert(u[0] == t@[skip + 0] && u[1] == t@[skip + 1] && u[2] == t@[skip + 2] && u[3]
            == t@[skip + 3] && u[4] == t@[skip + 4] && u[5] == t@[skip + 5]);
    }
    match read_hex_pair(t[skip], t[skip + 1]) {
        Some(r) => match read_hex_pair(t[skip + 2], t[skip + 3]) {
            Some(g) => match read_hex_pair(t[skip + 4], t[skip + 5]) {
                Some(b) => Some((r, g, b)),
                None => None,
            },
            None => None,
        },
        None => None,
    }
}

/// A colour of a theme after an override: the colour that the override
/// names where there is one and it can be read, else the colour as it was.
pub open spec fn overridden(base: Rgb, hex: Option<Seq<char>>) -> Rgb {
    match hex {
        Some(h) => match hex_color_of(h) {
            Some(c) => rgb(c.0, c.1, c.2),
            None => base,
        },
        None => base,
    }
}

fn override_color(base: Rgb, hex: &Option<String>) -> (r: Rgb)
    ensures
        r == overridden(base, hex.deep_view()),
{
    match hex {
        Some(h) => match parse_hex_color(h.as_str()) {
            Some(c) => Rgb { r: c.0, g: c.1, b: c.2 },
            None => base,
        },
        None => base,
    }
}

impl Theme {
    /// The theme with the colours of `custom` in place of its own.
    pub fn with_custom_overrides(&self, custom: &CustomThemeConfig) -> (t: Theme)
        ensures
            t == (Theme {
                name: self.name,
                accent: overridden(self.accent, custom@.accent),
                accent_dim: overridden(self.accent_dim, custom@.accent_dim),
                bg: overridden(self.bg, custom@.bg),
                surface: overridden(self.surface, custom@.surface),
                text: overridden(self.text, custom@.text),
                text_dim: overridden(self.text_dim, custom@.text_dim),
                red: overridden(self.red, custom@.red),
                green: overridden(self.green, custom@.green),
                yellow: overridden(self.yellow, custom@.yellow),
            }),
    {
        Theme {
            name: self.name,
            accent: override_color(self.accent, &custom.accent),
            accent_dim: override_color(self.accent_dim, &custom.accent_dim),
            bg: override_color(self.bg, &custom.bg),
            surface: override_color(self.surface, &custom.surface),
            text: override_color(self.text, &custom.text),
            text_dim: override_color(self.text_dim, &custom.text_dim),
            red: override_color(self.red, &custom.red),
            green: override_color(self.green, &custom.green),
            yellow: override_color(self.yellow, &custom.yellow),
        }
    }
}

/// What a configuration file can set.
#[derive(Debug)]
pub struct InstallerConfig {
    /// Where to clone the configuration repository from.
    pub repo_url: Option<String>,
    pub theme: Option<ThemeName>,
    /// Colours that replace those of the theme.
    pub theme_custom: Option<CustomThemeConfig>,
    /// Per-user modules that every user gets and that are never offered
    /// for selection.
    pub hm_base_modules: Vec<String>,
    pub default_hostname: Option<String>,
    pub default_username: Option<String>,
    /// The swap size, in GiB, that full-disk mode starts from.
    pub default_swap_size: Option<String>,
    /// The title in the header of every screen.
    pub branding_title: Option<String>,
    /// Scripts to run before the install command, in order.
    pub pre_install_hooks: Vec<String>,
    /// Scripts to run after the install command, in order.
    pub post_install_hooks: Vec<String>,
}

/// What an [`InstallerConfig`] holds.
pub ghost struct InstallerConfigView {
    pub repo_url: Option<Seq<char>>,
    pub theme: Option<ThemeName>,
    pub theme_custom: Option<CustomThemeConfigView>,
    pub hm_base_modules: Seq<Seq<char>>,
    pub default_hostname: Option<Seq<char>>,
    pub default_username: Option<Seq<char>>,
    pub default_swap_size: Option<Seq<char>>,
    pub branding_title: Option<Seq<char>>,
    pub pre_install_hooks: Seq<Seq<char>>,
    pub post_install_hooks: Seq<Seq<char>>,
}

impl DeepView for InstallerConfig {
    type V = InstallerConfigView;

    open spec fn deep_view(&self) -> InstallerConfigView {
        InstallerConfigView {
            repo_url: self.repo_url.deep_view(),
            theme: self.theme,
            theme_custom: self.theme_custom.deep_view(),
            hm_base_modules: self.hm_base_modules.deep_view(),
            default_hostname: self.default_hostname.deep_view(),
            default_username: self.default_username.deep_view(),
            default_swap_size: self.default_swap_size.deep_view(),
            branding_title: self.branding_title.deep_view(),
            pre_install_hooks: self.pre_install_hooks.deep_view(),
            post_install_hooks: self.post_install_hooks.deep_view(),
        }
    }
}

impl View for InstallerConfig {
    type V = InstallerConfigView;

    open spec fn view(&self) -> InstallerConfigView {
        self.deep_view()
    }
}

/// A configuration that sets nothing.
pub open spec fn empty_config() -> InstallerConfigView {
    InstallerConfigView {
        repo_url: None,
        theme: None,
        theme_custom: None,
        hm_base_modules: Seq::empty(),
        default_hostname: None,
        default_username: None,
        default_swap_size: None,
        branding_title: None,
        pre_install_hooks: Seq::empty(),
        post_install_hooks: Seq::empty(),
    }
}

impl Default for InstallerConfig {
    fn default() -> (r: Self)
        ensures
            r@ == empty_config(),
    {
        let r = InstallerConfig {
            repo_url: None,
            theme: None,
            theme_custom: None,
            hm_base_modules: Vec::new(),
            default_hostname: None,
            default_username: None,
            default_swap_size: None,
            branding_title: None,
            pre_install_hooks: Vec::new(),
            post_install_hooks: Vec::new(),
        };
        assert(r.hm_base_modules.deep_view() =~= Seq::<Seq<char>>::empty());
        assert(r.pre_install_hooks.deep_view() =~= Seq::<Seq<char>>::empty());
        assert(r.post_install_hooks.deep_view() =~= Seq::<Seq<char>>::empty());
        r
    }
}

impl Clone for InstallerConfig {
    fn clone(&self) -> (r: Self)
        ensures
            r@ == self@,
    {
        let hm_base_modules = self.hm_base_modules.clone();
        let pre_install_hooks = self.pre_install_hooks.clone();
        let post_install_hooks = self.post_install_hooks.clone();
        assert(hm_base_modules.deep_view() =~= self.hm_base_modules.deep_view());
        assert(pre_install_hooks.deep_view() =~= self.pre_install_hooks.deep_view());
        assert(post_install_hooks.deep_view() =~= self.post_install_hooks.deep_view());
        InstallerConfig {
            repo_url: self.repo_url.clone(),
            theme: self.theme,
            theme_custom: self.theme_custom.clone(),
            hm_base_modules,
            default_hostname: self.default_hostname.clone(),
            default_username: self.default_username.clone(),
            default_swap_size: self.default_swap_size.clone(),
            branding_title: self.branding_title.clone(),
            pre_install_hooks,
            post_install_hooks,
        }
    }
}

/// `over` where it is set, else `under`.
pub open spec fn or_else<T>(over: Option<T>, under: Option<T>) -> Option<T> {
    if over is Some {
        over
    } else {
        under
    }
}

/// `over` where it is not empty, else `under`.
pub open spec fn or_list<T>(over: Seq<T>, under: Seq<T>) -> Seq<T> {
    if over.len() > 0 {
        over
    } else {
        under
    }
}

/// The configuration of the machine with that of the repository laid over
/// it: what the repository sets wins, what it leaves open stays.
pub open spec fn merged_config(existing: InstallerConfigView, repo: InstallerConfigView)
    -> InstallerConfigView {
    InstallerConfigView {
        repo_url: or_else(repo.repo_url, existing.repo_url),
        theme: or_else(repo.theme, existing.theme),
        theme_custom: if repo.theme_custom is Some && repo.theme_custom->0.overrides() {
            repo.theme_custom
        } else {
            existing.theme_custom
        },
        hm_base_modules: or_list(repo.hm_base_modules, existing.hm_base_modules),
        default_hostname: or_else(repo.default_hostname, existing.default_hostname),
        default_username: or_else(repo.default_username, existing.default_username),
        default_swap_size: or_else(repo.default_swap_size, existing.default_swap_size),
        branding_title: or_else(repo.branding_title, existing.branding_title),
        pre_install_hooks: or_list(repo.pre_install_hooks, existing.pre_install_hooks),
        post_install_hooks: or_list(repo.post_install_hooks, existing.post_install_hooks),
    }
}

/// The configuration in force once the repository's own file has been
/// read: `existing` where the repository has no file that can be read,
/// else `existing` with the file's settings laid over it.
pub fn load_repo_config(repo: Option<InstallerConfig>, existing: &InstallerConfig) -> (merged:
    InstallerConfig)
    ensures
        merged@ == match repo {
            Some(r) => merged_config(existing@, r@),
            None => existing@,
        },
{
    let mut merged = existing.clone();
    match repo {
        Some(repo_cfg) => {
            if repo_cfg.hm_base_modules.len() > 0 {
                merged.hm_base_modules = repo_cfg.hm_base_modules;
            }
            if repo_cfg.repo_url.is_some() {
                merged.repo_url = repo_cfg.repo_url;
            }
            if repo_cfg.theme.is_some() {
                merged.theme = repo_cfg.theme;
            }
            match repo_cfg.theme_custom {
                Some(tc) => {
                    if tc.has_overrides() {
                        merged.theme_custom = Some(tc);
                    }
                },
                None => {},
            }
            if repo_cfg.default_hostname.is_some() {
                merged.default_hostname = repo_cfg.default_hostname;
            }
            if repo_cfg.default_username.is_some() {
                merged.default_username = repo_cfg.default_username;
            }
            if repo_cfg.default_swap_size.is_some() {
                merged.default_swap_size = repo_cfg.default_swap_size;
            }
            if repo_cfg.branding_title.is_some() {
                merged.branding_title = repo_cfg.branding_title;
            }
            if repo_cfg.pre_install_hooks.len() > 0 {
                merged.pre_install_hooks = repo_cfg.pre_install_hooks;
            }
            if repo_cfg.post_install_hooks.len() > 0 {
                merged.post_install_hooks = repo_cfg.post_install_hooks;
            }
            merged
        },
        None => merged,
    }
}

/// The text of a fresh configuration file: every setting explained and
/// commented out, with the themes that there are listed by name.
pub open spec fn default_config_text() -> Seq<char> {
    r##"# NixOS Installer Configuration
# Generated by nixos-installer --init

# Git repository URL for the NixOS dotfiles/flake to install from.
# If not set, the built-in default is used.
# repo_url = "https://github.com/ItzEmoji/nixos-dotfiles.git"

# Color theme for the installer TUI.
# Available themes: "##@
        + text::joined(ThemeName::every_label(), ", "@) + r##"
# theme = "catppuccin-mocha"

# Home Manager base modules that are always included for every user
# (never shown in the selection screen).
# hm_base_modules = ["home"]

# ---- Branding ----

# Custom title displayed in the installer header.
# Defaults to "NixOS Installer" if not set.
# branding_title = "MyOrg NixOS Installer"

# ---- Defaults ----
# Pre-fill TUI fields with these values. The user can still change them.

# Default hostname for the system.
# default_hostname = "nixos-desktop"

# Default username for the first user.
# default_username = "admin"

# Default swap size in GiB (for full-disk partitioning mode).
# default_swap_size = "4"

# ---- Install Hooks ----
# Scripts to run at specific points during installation.
# Each entry is a path to an executable script.
# The scripts receive environment variables:
#   INSTALLER_HOST_NAME    - the configured hostname
#   INSTALLER_BASE_PATH    - path to the cloned/local repo
#   INSTALLER_DISK         - selected disk path (e.g. /dev/sda)
#   INSTALLER_MOUNT_ROOT   - mount root (/mnt)

# Scripts to run before nixos-install (after partitioning + config generation).
# pre_install_hooks = ["/etc/nixos-installer/hooks/pre-install.sh"]

# Scripts to run after nixos-install completes (before password setup).
# post_install_hooks = ["/etc/nixos-installer/hooks/post-install.sh"]

# ---- Custom Theme Colors ----
# Override individual colors of the selected base theme.
# Colors are RGB hex values (with or without '#' prefix).
# Only set the colors you want to change — the rest come from the base theme.

# [theme_custom]
# accent = "#89b4fa"
# accent_dim = "#585b70"
# bg = "#1e1e2e"
# surface = "#313244"
# text = "#cdd6f4"
# text_dim = "#9399b2"
# red = "#f38ba8"
# green = "#a6e3a1"
# yellow = "#f9e2af"
"##@
}

/// Writes the text of a fresh configuration file.
pub fn generate_default_config() -> (s: String)
    ensures
        s@ == default_config_text(),
{
    let names = ThemeName::all_names();
    let mut listed: Vec<String> = empty_list();
    let mut i: usize = 0;
    assert(ThemeName::every_label().take(0) =~= Seq::<Seq<char>>::empty());
    while i < names.len()
        invariant
            i <= names.len() == 5,
            forall|k: int| 0 <= k < 5 ==> (#[trigger] names@[k])@ == ThemeName::every_label()[k],
            listed.deep_view() == ThemeName::every_label().take(i as int),
        decreases names.len() - i,
    {
        push_deep(&mut listed, String::from_str(names[i]));
        i += 1;
        assert(ThemeName::every_label().take(i as int) =~= ThemeName::every_label().take(i - 1).push(
            ThemeName::every_label()[i - 1],
        ));
    }
    assert(ThemeName::every_label().take(5) =~= ThemeName::every_label());
    let available = text::join(&listed, ", ");
    let mut s = String::from_str(
        r##"# NixOS Installer Configuration
# Generated by nixos-installer --init

# Git repository URL for the NixOS dotfiles/flake to install from.
# If not set, the built-in default is used.
# repo_url = "https://github.com/ItzEmoji/nixos-dotfiles.git"

# Color theme for the installer TUI.
# Available themes: "##,
    );
    s.append(available.as_str());
    s.append(
        r##"
# theme = "catppuccin-mocha"

# Home Manager base modules that are always included for every user
# (never shown in the selection screen).
# hm_base_modules = ["home"]

# ---- Branding ----

# Custom title displayed in the installer header.
# Defaults to "NixOS Installer" if not set.
# branding_title = "MyOrg NixOS Installer"

# ---- Defaults ----
# Pre-fill TUI fields with these values. The user can still change them.

# Default hostname for the system.
# default_hostname = "nixos-desktop"

# Default username for the first user.
# default_username = "admin"

# Default swap size in GiB (for full-disk partitioning mode).
# default_swap_size = "4"

# ---- Install Hooks ----
# Scripts to run at specific points during installation.
# Each entry is a path to an executable script.
# The scripts receive environment variables:
#   INSTALLER_HOST_NAME    - the configured hostname
#   INSTALLER_BASE_PATH    - path to the cloned/local repo
#   INSTALLER_DISK         - selected disk path (e.g. /dev/sda)
#   INSTALLER_MOUNT_ROOT   - mount root (/mnt)

# Scripts to run before nixos-install (after partitioning + config generation).
# pre_install_hooks = ["/etc/nixos-installer/hooks/pre-install.sh"]

# Scripts to run after nixos-install completes (before password setup).
# post_install_hooks = ["/etc/nixos-installer/hooks/post-install.sh"]

# ---- Custom Theme Colors ----
# Override individual colors of the selected base theme.
# Colors are RGB hex values (with or without '#' prefix).
# Only set the colors you want to change — the rest come from the base theme.

# [theme_custom]
# accent = "#89b4fa"
# accent_dim = "#585b70"
# bg = "#1e1e2e"
# surface = "#313244"
# text = "#cdd6f4"
# text_dim = "#9399b2"
# red = "#f38ba8"
# green = "#a6e3a1"
# yellow = "#f9e2af"
"##,
    );
    s
}

} // verus!
