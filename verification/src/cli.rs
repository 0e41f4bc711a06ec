//! The command line: what the arguments ask for.

use crate::lists::{empty_list, push_deep};
use crate::text;
use crate::theme::{loose_key, theme_named, ThemeName};
use vstd::prelude::*;

verus! {

/// What the command line asks for.
#[derive(Debug)]
pub struct CliArgs {
    /// Where to clone the configuration repository from.
    pub repo_url: Option<String>,
    /// A repository that is there already.
    pub base_path: Option<String>,
    /// The configuration file to read.
    pub config_path: Option<String>,
    pub theme_override: Option<ThemeName>,
    /// Whether to write a fresh configuration file and end.
    pub init: bool,
    /// Whether to show the help text and end.
    pub help: bool,
}

/// What a [`CliArgs`] holds.
pub ghost struct CliArgsView {
    pub repo_url: Option<Seq<char>>,
    pub base_path: Option<Seq<char>>,
    pub config_path: Option<Seq<char>>,
    pub theme_override: Option<ThemeName>,
    pub init: bool,
    pub help: bool,
}

impl DeepView for CliArgs {
    type V = CliArgsView;

    open spec fn deep_view(&self) -> CliArgsView {
        CliArgsView {
            repo_url: self.repo_url.deep_view(),
            base_path: self.base_path.deep_view(),
            config_path: self.config_path.deep_view(),
            theme_override: self.theme_override,
            init: self.init,
            help: self.help,
        }
    }
}

impl View for CliArgs {
    type V = CliArgsView;

    open spec fn view(&self) -> CliArgsView {
        self.deep_view()
    }
}

/// A command line that asks for nothing.
pub open spec fn no_args() -> CliArgsView {
    CliArgsView {
        repo_url: None,
        base_path: None,
        config_path: None,
        theme_override: None,
        init: false,
        help: false,
    }
}

/// What is said of a theme that there is not.
pub open spec fn unknown_theme(name: Seq<char>) -> Seq<char> {
    "Unknown theme '"@ + name + "'. Available: "@ + text::joined(
        ThemeName::every_label(),
        ", "@,
    )
}

/// What the arguments from `at` on ask for, on top of `so_far`. An option
/// that takes a value takes the argument after it, and asks for nothing
/// where it is the last argument; an argument that is no option names a
/// repository that is there already. A theme that there is not ends the
/// reading with an error.
pub open spec fn read_from(args: Seq<Seq<char>>, at: int, so_far: CliArgsView) -> Result<
    CliArgsView,
    Seq<char>,
>
    decreases args.len() - at,
{
    if at < 0 || at >= args.len() {
        Ok(so_far)
    } else if args[at] == "--repo"@ {
        if at + 1 < args.len() {
            read_from(args, at + 2, CliArgsView { repo_url: Some(args[at + 1]), ..so_far })
        } else {
            Ok(so_far)
        }
    } else if args[at] == "--config"@ {
        if at + 1 < args.len() {
            read_from(args, at + 2, CliArgsView { config_path: Some(args[at + 1]), ..so_far })
        } else {
            Ok(so_far)
        }
    } else if args[at] == "--theme"@ {
        if at + 1 < args.len() {
            match theme_named(loose_key(args[at + 1])) {
                Some(theme) => read_from(
                    args,
                    at + 2,
                    CliArgsView { theme_override: Some(theme), ..so_far },
                ),
                None => Err(unknown_theme(args[at + 1])),
            }
        } else {
            Ok(so_far)
        }
    } else if args[at] == "--init"@ {
        read_from(args, at + 1, CliArgsView { init: true, ..so_far })
    } else if args[at] == "--help"@ || args[at] == "-h"@ {
        read_from(args, at + 1, CliArgsView { help: true, ..so_far })
    } else {
        read_from(args, at + 1, CliArgsView { base_path: Some(args[at]), ..so_far })
    }
}

/// What was read with the repository of the environment in place of none:
/// it counts where the arguments name neither a repository to clone nor
/// one that is there, and it is not empty.
pub open spec fn with_fallback(read: CliArgsView, env_repo: Option<Seq<char>>) -> CliArgsView {
    if read.repo_url is None && read.base_path is None && env_repo is Some && env_repo->0.len()
        > 0 {
        CliArgsView { repo_url: env_repo, ..read }
    } else {
        read
    }
}

/// What the arguments ask for, given the repository that the environment
/// names.
pub open spec fn args_read(args: Seq<Seq<char>>, env_repo: Option<Seq<char>>) -> Result<
    CliArgsView,
    Seq<char>,
> {
    match read_from(args, 0, no_args()) {
        Ok(read) => Ok(with_fallback(read, env_repo)),
        Err(why) => Err(why),
    }
}

/// The view of what reading the arguments gave.
pub open spec fn read_view(r: Result<CliArgs, String>) -> Result<CliArgsView, Seq<char>> {
    match r {
        Ok(args) => Ok(args@),
        Err(why) => Err(why@),
    }
}

fn unknown_theme_message(name: &str) -> (msg: String)
    ensures
        msg@ == unknown_theme(name@),
{
    let names = ThemeName::all_names();
    let mut listed: Vec<String> = empty_list();
    let mut i: usize = 0;
    assert(ThemeName::every_label().take(0) =~= Seq::<Seq<char>>::empty());
    while i < names.len()
        invariant
            i <= names.len() == 5,
            forall|k: int| 0 <= k < 5 ==> (#[trigger] names@[k])@ == ThemeName::every_label()[k],
            listed.deep_view() == ThemeName::every_label().take(i as int),
        decreases names.len() - i,
    {
        push_deep(&mut listed, String::from_str(names[i]));
        i += 1;
        assert(ThemeName::every_label().take(i as int) =~= ThemeName::every_label().take(i - 1).push(
            ThemeName::every_label()[i - 1],
        ));
    }
    assert(ThemeName::every_label().take(5) =~= ThemeName::every_label());
    let mut msg = String::from_str("Unknown theme '");
    msg.append(name);
    msg.append("'. Available: ");
    msg.append(text::join(&listed, ", ").as_str());
    msg
}

/// Reads the arguments of the command line, the program's own name left
/// out, given the repository that the environment names.
pub fn parse_args(args: &Vec<String>, env_repo: Option<String>) -> (r: Result<CliArgs, String>)
    ensures
        read_view(r) == args_read(args.deep_view(), env_repo.deep_view()),
{
    let ghost all = args.deep_view();
    let mut read = CliArgs {
        repo_url: None,
        base_path: None,
        config_path: None,
        theme_override: None,
        init: false,
        help: false,
    };
    let mut i: usize = 0;
    while i < args.len()
        invariant
            i <= args.len(),
            all == args.deep_view(),
            read_from(all, 0, no_args()) == read_from(all, i as int, read@),
        decreases args.len() - i,
    {
        let arg = args[i].as_str();
        assert(all[i as int] == arg@);
        let last = i + 1 == args.len();
        if text::same_text(arg, "--repo") {
            if last {
                i += 1;
                assert(read_from(all, i as int, read@) == Ok::<CliArgsView, Seq<char>>(read@));
            } else {
                read.repo_url = Some(args[i + 1].clone());
                i += 2;
            }
        } else if text::same_text(arg, "--config") {
            if last {
                i += 1;
                assert(read_from(all, i as int, read@) == Ok::<CliArgsView, Seq<char>>(read@));
            } else {
                read.config_path = Some(args[i + 1].clone());
                i += 2;
            }
        } else if text::same_text(arg, "--theme") {
            if last {
                i += 1;
                assert(read_from(all, i as int, read@) == Ok::<CliArgsView, Seq<char>>(read@));
            } else {
                match ThemeName::from_str_loose(args[i + 1].as_str()) {
                    Some(theme) => {
                        read.theme_override = Some(theme);
                        i += 2;
                    },
                    None => {
                        return Err(unknown_theme_message(args[i + 1].as_str()));
                    },
                }
            }
        } else if text::same_text(arg, "--init") {
            read.init = true;
            i += 1;
        } else if text::same_text(arg, "--help") || text::same_text(arg, "-h") {
            read.help = true;
            i += 1;
        } else {
            read.base_path = Some(args[i].clone());
            i += 1;
        }
    }
    if read.repo_url.is_none() && read.base_path.is_none() {
        match env_repo {
            Some(url) => {
                if !url.as_str().is_empty() {
                    read.repo_url = Some(url);
                }
            },
            None => {},
        }
    }
    Ok(read)
}

/// The help text.
pub open spec fn help_lines() -> Seq<Seq<char>> {
    seq![
        "nixos-installer - A TUI-based NixOS installer"@,
        ""@,
        "USAGE:"@,
        "    nixos-installer [OPTIONS] [PATH]"@,
        ""@,
        "ARGS:"@,
        "    <PATH>              Use an existing local repo instead of cloning"@,
        ""@,
        "OPTIONS:"@,
        "    --repo <URL>        Override the dotfiles repository URL"@,
        "    --config <PATH>     Load config from a custom path (default: /etc/nixos-installer/config.toml)"@,
        "    --theme <NAME>      Override the color theme"@,
        "    --init              Generate a default config.toml at /etc/nixos-installer/"@,
        "    --help, -h          Show this help message"@,
        ""@,
        "AVAILABLE THEMES:"@,
    ] + Seq::new(5, |i: int| "    "@ + ThemeName::every_label()[i]) + seq![
        ""@,
        "ENVIRONMENT:"@,
        "    NIXOS_DOTFILES_REPO    Fallback repository URL if --repo is not given"@,
    ]
}

fn push_line(lines: &mut Vec<String>, line: &str)
    ensures
        final(lines).deep_view() == old(lines).deep_view().push(line@),
{
    push_deep(lines, String::from_str(line));
}

/// The lines of the help text.
pub fn help_text() -> (lines: Vec<String>)
    ensures
        lines.deep_view() == help_lines(),
{
    let mut lines: Vec<String> = empty_list();
    push_line(&mut lines, "nixos-installer - A TUI-based NixOS installer");
    push_line(&mut lines, "");
    push_line(&mut lines, "USAGE:");
    push_line(&mut lines, "    nixos-installer [OPTIONS] [PATH]");
    push_line(&mut lines, "");
    push_line(&mut lines, "ARGS:");
    push_line(&mut lines, "    <PATH>              Use an existing local repo instead of cloning");
    push_line(&mut lines, "");
    push_line(&mut lines, "OPTIONS:");
    push_line(&mut lines, "    --repo <URL>        Override the dotfiles repository URL");
    push_line(
        &mut lines,
        "    --config <PATH>     Load config from a custom path (default: /etc/nixos-installer/config.toml)",
    );
    push_line(&mut lines, "    --theme <NAME>      Override the color theme");
    push_line(
        &mut lines,
        "    --init              Generate a default config.toml at /etc/nixos-installer/",
    );
    push_line(&mut lines, "    --help, -h          Show this help message");
    push_line(&mut lines, "");
    push_line(&mut lines, "AVAILABLE THEMES:");
    let ghost head = lines.deep_view();
    let names = ThemeName::all_names();
    let mut i: usize = 0;
    assert(lines.deep_view() =~= head + Seq::new(
        0,
        |k: int| "    "@ + ThemeName::every_label()[k],
    ));
    while i < names.len()
        invariant
            i <= names.len() == 5,
            forall|k: int| 0 <= k < 5 ==> (#[trigger] names@[k])@ == ThemeName::every_label()[k],
            lines.deep_view() == head + Seq::new(
                i as nat,
                |k: int| "    "@ + ThemeName::every_label()[k],
            ),
        decreases names.len() - i,
    {
        let mut line = String::from_str("    ");
        line.append(names[i]);
        push_deep(&mut lines, line);
        i += 1;
        assert(lines.deep_view() =~= head + Seq::new(
            i as nat,
            |k: int| "    "@ + ThemeName::every_label()[k],
        ));
    }
    push_line(&mut lines, "");
    push_line(&mut lines, "ENVIRONMENT:");
    push_line(
        &mut lines,
        "    NIXOS_DOTFILES_REPO    Fallback repository URL if --repo is not given",
    );
    assert(lines.deep_view() =~= help_lines());
    lines
}

} // verus!
