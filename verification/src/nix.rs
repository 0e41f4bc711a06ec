//! Selectable configuration units and the configuration text that is
//! generated from what the operator chose.

use crate::lists::{empty_list, ordered, push_deep, sort_by_label, sorted_of, Labelled};
use crate::text;
use vstd::prelude::*;

verus! {

/// A host configuration that the repository already holds.
#[derive(Debug)]
pub struct HostPreset {
    pub name: String,
    /// Where the preset's directory lies.
    pub path: String,
    pub has_hardware_config: bool,
}

/// What a [`HostPreset`] holds.
pub ghost struct HostPresetView {
    pub name: Seq<char>,
    pub path: Seq<char>,
    pub has_hardware_config: bool,
}

impl DeepView for HostPreset {
    type V = HostPresetView;

    open spec fn deep_view(&self) -> HostPresetView {
        HostPresetView {
            name: self.name@,
            path: self.path@,
            has_hardware_config: self.has_hardware_config,
        }
    }
}

impl View for HostPreset {
    type V = HostPresetView;

    open spec fn view(&self) -> HostPresetView {
        self.deep_view()
    }
}

impl Clone for HostPreset {
    fn clone(&self) -> (r: Self)
        ensures
            r@ == self@,
    {
        HostPreset {
            name: self.name.clone(),
            path: self.path.clone(),
            has_hardware_config: self.has_hardware_config,
        }
    }
}

/// A module or package set that the operator can switch on.
#[derive(Debug)]
pub struct NixModule {
    pub name: String,
    pub selected: bool,
}

/// What a [`NixModule`] holds.
pub ghost struct NixModuleView {
    pub name: Seq<char>,
    pub selected: bool,
}

impl DeepView for NixModule {
    type V = NixModuleView;

    open spec fn deep_view(&self) -> NixModuleView {
        NixModuleView { name: self.name@, selected: self.selected }
    }
}

impl View for NixModule {
    type V = NixModuleView;

    open spec fn view(&self) -> NixModuleView {
        self.deep_view()
    }
}

impl Clone for NixModule {
    fn clone(&self) -> (r: Self)
        ensures
            r@ == self@,
    {
        NixModule { name: self.name.clone(), selected: self.selected }
    }
}

/// A copy of a list of modules.
pub fn clone_modules(modules: &Vec<NixModule>) -> (r: Vec<NixModule>)
    ensures
        r.deep_view() == modules.deep_view(),
{
    let r = modules.clone();
    assert(r.deep_view() =~= modules.deep_view());
    r
}

/// A copy of a list of strings.
pub fn clone_strings(strings: &Vec<String>) -> (r: Vec<String>)
    ensures
        r.deep_view() == strings.deep_view(),
{
    let r = strings.clone();
    assert(r.deep_view() =~= strings.deep_view());
    r
}

/// Whether a system module is kept from the operator's selection: those
/// for home environments and the one for WSL.
pub open spec fn skips_nixos_module(name: Seq<char>) -> bool {
    "home-"@.is_prefix_of(name) || name == "wsl"@
}

/// Whether a per-user module is kept from the operator's selection: the
/// base modules, which are always there, and the package sets.
pub open spec fn skips_hm_module(name: Seq<char>) -> bool {
    name == "home"@ || name == "home-wsl"@ || "packages-"@.is_prefix_of(name)
}

/// Decides [`skips_nixos_module`].
pub fn should_skip_nixos_module(name: &str) -> (r: bool)
    ensures
        r == skips_nixos_module(name@),
{
    let v = text::chars_of(name);
    let prefix = text::chars_of("home-");
    text::starts_with(&v, &prefix) || text::same_text(name, "wsl")
}

/// Decides [`skips_hm_module`].
pub fn should_skip_hm_module(name: &str) -> (r: bool)
    ensures
        r == skips_hm_module(name@),
{
    let v = text::chars_of(name);
    let prefix = text::chars_of("packages-");
    text::same_text(name, "home") || text::same_text(name, "home-wsl") || text::starts_with(
        &v,
        &prefix,
    )
}

/// The line that imports module `name` of `kind` into a host; a module that
/// is not selected stays in the text, commented out.
pub open spec fn module_line(kind: Seq<char>, name: Seq<char>, selected: bool) -> Seq<char> {
    if selected {
        "      self."@ + kind + "."@ + name
    } else {
        "      # self."@ + kind + "."@ + name
    }
}

/// Writes the line that imports one module into a host.
pub fn mod_line(kind: &str, name: &str, selected: bool) -> (s: String)
    ensures
        s@ == module_line(kind@, name@, selected),
{
    let mut s = if selected {
        String::from_str("      self.")
    } else {
        String::from_str("      # self.")
    };
    s.append(kind);
    s.append(".");
    s.append(name);
    s
}

/// The lines for a list of modules: none for an empty list, else an empty
/// line and one line for each module, in order.
pub open spec fn module_section(modules: Seq<NixModuleView>) -> Seq<Seq<char>> {
    if modules.len() == 0 {
        Seq::empty()
    } else {
        seq![Seq::<char>::empty()] + Seq::new(
            modules.len(),
            |i: int| module_line("nixosModules"@, modules[i].name, modules[i].selected),
        )
    }
}

/// The line that imports the module of one user into a host.
pub open spec fn user_module_line(host_name: Seq<char>, user: Seq<char>) -> Seq<char> {
    "      self.nixosModules."@ + host_name + "-user-"@ + user
}

/// The lines for the users of a host: none where there are no users, else
/// an empty line, the home-manager module and one line for each user.
pub open spec fn user_section(host_name: Seq<char>, users: Seq<Seq<char>>) -> Seq<Seq<char>> {
    if users.len() == 0 {
        Seq::empty()
    } else {
        seq![Seq::<char>::empty(), "      self.nixosModules.home-manager"@] + Seq::new(
            users.len(),
            |i: int| user_module_line(host_name, users[i]),
        )
    }
}

/// The entries of a host's module list.
pub open spec fn host_module_lines(
    host_name: Seq<char>,
    nixos_modules: Seq<NixModuleView>,
    system_packages: Seq<NixModuleView>,
    users: Seq<Seq<char>>,
) -> Seq<Seq<char>> {
    seq!["      ./_hardware-configuration.nix"@] + module_section(nixos_modules) + module_section(
        system_packages,
    ) + user_section(host_name, users) + seq![
        "      {"@,
        "        networking.hostName = \""@ + host_name + "\";"@,
        "      }"@,
    ]
}

/// The text of a host's configuration file.
pub open spec fn configuration_text(
    host_name: Seq<char>,
    nixos_modules: Seq<NixModuleView>,
    system_packages: Seq<NixModuleView>,
    users: Seq<Seq<char>>,
) -> Seq<char> {
    "{ inputs, self, ... }:\n{\n  flake.nixosConfigurations."@ + host_name
        + " = inputs.nixpkgs.lib.nixosSystem {\n    specialArgs = { inherit inputs self; };\n    modules = [\n"@
        + text::joined(
        host_module_lines(host_name, nixos_modules, system_packages, users),
        "\n"@,
    ) + "\n    ];\n  };\n}\n"@
}

fn push_module_section(lines: &mut Vec<String>, modules: &Vec<NixModule>)
    ensures
        final(lines).deep_view() == old(lines).deep_view() + module_section(modules.deep_view()),
{
    let ghost before = lines.deep_view();
    let ghost all = modules.deep_view();
    if modules.len() == 0 {
        assert(lines.deep_view() =~= before + module_section(all));
        return ;
    }
    push_deep(lines, String::new());
    let mut i: usize = 0;
    while i < modules.len()
        invariant
            i <= modules.len(),
            all == modules.deep_view(),
            lines.deep_view() == before + seq![Seq::<char>::empty()] + Seq::new(
                i as nat,
                |k: int| module_line("nixosModules"@, all[k].name, all[k].selected),
            ),
        decreases modules.len() - i,
    {
        let m = &modules[i];
        let ghost was = lines.deep_view();
        push_deep(lines, mod_line("nixosModules", m.name.as_str(), m.selected));
        i += 1;
        assert(lines.deep_view() =~= before + seq![Seq::<char>::empty()] + Seq::new(
            i as nat,
            |k: int| module_line("nixosModules"@, all[k].name, all[k].selected),
        ));
    }
    assert(lines.deep_view() =~= before + module_section(all));
}

/// Writes the configuration file of a new host. Every module that was found
/// is named in it; those that the operator did not select are commented
/// out, not left out.
pub fn generate_configuration_nix(
    host_name: &str,
    nixos_modules: &Vec<NixModule>,
    system_packages: &Vec<NixModule>,
    users: &Vec<String>,
) -> (s: String)
    ensures
        s@ == configuration_text(
            host_name@,
            nixos_modules.deep_view(),
            system_packages.deep_view(),
            users.deep_view(),
        ),
{
    let mut lines: Vec<String> = empty_list();
    push_deep(&mut lines, String::from_str("      ./_hardware-configuration.nix"));
    assert(lines.deep_view() =~= seq!["      ./_hardware-configuration.nix"@]);
    push_module_section(&mut lines, nixos_modules);
    push_module_section(&mut lines, system_packages);
    let ghost names = users.deep_view();
    let ghost before = lines.deep_view();
    if users.len() > 0 {
        push_deep(&mut lines, String::new());
        push_deep(&mut lines, String::from_str("      self.nixosModules.home-manager"));
        let ghost head = before + seq![
            Seq::<char>::empty(),
            "      self.nixosModules.home-manager"@,
        ];
        assert(lines.deep_view() =~= head + Seq::new(
            0,
            |k: int| user_module_line(host_name@, names[k]),
        ));
        let mut i: usize = 0;
        while i < users.len()
            invariant
                i <= users.len(),
                names == users.deep_view(),
                lines.deep_view() == head + Seq::new(
                    i as nat,
                    |k: int| user_module_line(host_name@, names[k]),
                ),
            decreases users.len() - i,
        {
            let mut line = String::from_str("      self.nixosModules.");
            line.append(host_name);
            line.append("-user-");
            line.append(users[i].as_str());
            push_deep(&mut lines, line);
            i += 1;
            assert(lines.deep_view() =~= head + Seq::new(
                i as nat,
                |k: int| user_module_line(host_name@, names[k]),
            ));
        }
    }
    assert(lines.deep_view() =~= before + user_section(host_name@, names));
    let ghost body = lines.deep_view();
    push_deep(&mut lines, String::from_str("      {"));
    let mut line = String::from_str("        networking.hostName = \"");
    line.append(host_name);
    line.append("\";");
    push_deep(&mut lines, line);
    push_deep(&mut lines, String::from_str("      }"));
    assert(lines.deep_view() =~= body + seq![
        "      {"@,
        "        networking.hostName = \""@ + host_name@ + "\";"@,
        "      }"@,
    ]);
    let module_lines = text::join(&lines, "\n");
    let mut s = String::from_str("{ inputs, self, ... }:\n{\n  flake.nixosConfigurations.");
    s.append(host_name);
    s.append(
        " = inputs.nixpkgs.lib.nixosSystem {\n    specialArgs = { inherit inputs self; };\n    modules = [\n",
    );
    s.append(module_lines.as_str());
    s.append("\n    ];\n  };\n}\n");
    s
}


/// The attribute that names a per-user module.
pub open spec fn hm_attr_text(name: Seq<char>) -> Seq<char> {
    "self.homeManagerModules."@ + name
}

/// Writes the attribute that names a per-user module.
pub fn hm_attr(name: &str) -> (s: String)
    ensures
        s@ == hm_attr_text(name@),
{
    let mut s = String::from_str("self.homeManagerModules.");
    s.append(name);
    s
}

/// The line that imports a per-user module; a module that is not selected
/// stays in the text, commented out.
pub open spec fn import_line(name: Seq<char>, selected: bool) -> Seq<char> {
    if selected {
        "        "@ + hm_attr_text(name)
    } else {
        "        # "@ + hm_attr_text(name)
    }
}

fn import_line_of(name: &str, selected: bool) -> (s: String)
    ensures
        s@ == import_line(name@, selected),
{
    let mut s = if selected {
        String::from_str("        ")
    } else {
        String::from_str("        # ")
    };
    s.append(hm_attr(name).as_str());
    s
}

/// The import lines of the configured base modules, in order. The module
/// `home` is left out here: every user has it anyway.
pub open spec fn base_imports(bases: Seq<Seq<char>>) -> Seq<Seq<char>>
    decreases bases.len(),
{
    if bases.len() == 0 {
        Seq::empty()
    } else if bases.last() == "home"@ {
        base_imports(bases.drop_last())
    } else {
        base_imports(bases.drop_last()).push(import_line(bases.last(), true))
    }
}

/// The import lines of a list of modules, in order.
pub open spec fn module_imports(modules: Seq<NixModuleView>) -> Seq<Seq<char>> {
    Seq::new(modules.len(), |i: int| import_line(modules[i].name, modules[i].selected))
}

/// The import lines of one user: `home`, the other base modules, the
/// per-user modules and the package sets.
pub open spec fn user_import_lines(
    hm_modules: Seq<NixModuleView>,
    package_modules: Seq<NixModuleView>,
    hm_base_modules: Seq<Seq<char>>,
) -> Seq<Seq<char>> {
    seq![import_line("home"@, true)] + base_imports(hm_base_modules) + module_imports(hm_modules)
        + module_imports(package_modules)
}

/// The part of a user's file that imports the user's modules; empty where
/// there is nothing to import.
pub open spec fn imports_block(username: Seq<char>, imports: Seq<char>) -> Seq<char> {
    if imports.len() > 0 {
        "\n      home-manager.users."@ + username + ".imports = [\n"@ + imports + "\n      ];"@
    } else {
        Seq::empty()
    }
}

/// The text of a user's file: one module, named after host and user, that
/// defines the account and imports the user's modules. It holds no
/// password.
pub open spec fn user_text(
    host_name: Seq<char>,
    username: Seq<char>,
    hm_modules: Seq<NixModuleView>,
    package_modules: Seq<NixModuleView>,
    hm_base_modules: Seq<Seq<char>>,
) -> Seq<char> {
    "{ ... }:\n{\n  flake.nixosModules."@ + host_name + "-user-"@ + username
        + " =\n    {\n      pkgs,\n      self,\n      inputs,\n      ...\n    }:\n    {\n      users.users."@
        + username
        + " = {\n        isNormalUser = true;\n        extraGroups = [ \"wheel\" ];\n      };"@
        + imports_block(
        username,
        text::joined(user_import_lines(hm_modules, package_modules, hm_base_modules), "\n"@),
    ) + "\n    };\n}\n"@
}

fn push_module_imports(lines: &mut Vec<String>, modules: &Vec<NixModule>)
    ensures
        final(lines).deep_view() == old(lines).deep_view() + module_imports(modules.deep_view()),
{
    let ghost before = lines.deep_view();
    let ghost all = modules.deep_view();
    let mut i: usize = 0;
    assert(lines.deep_view() =~= before + Seq::new(
        0,
        |k: int| import_line(all[k].name, all[k].selected),
    ));
    while i < modules.len()
        invariant
            i <= modules.len(),
            all == modules.deep_view(),
            lines.deep_view() == before + Seq::new(
                i as nat,
                |k: int| import_line(all[k].name, all[k].selected),
            ),
        decreases modules.len() - i,
    {
        let m = &modules[i];
        push_deep(lines, import_line_of(m.name.as_str(), m.selected));
        i += 1;
        assert(lines.deep_view() =~= before + Seq::new(
            i as nat,
            |k: int| import_line(all[k].name, all[k].selected),
        ));
    }
}

/// Writes the file of one user. Every module that was found is named in it;
/// those that the operator did not select are commented out, not left out.
pub fn generate_user_nix(
    host_name: &str,
    username: &str,
    hm_modules: &Vec<NixModule>,
    package_modules: &Vec<NixModule>,
    hm_base_modules: &Vec<String>,
) -> (s: String)
    ensures
        s@ == user_text(
            host_name@,
            username@,
            hm_modules.deep_view(),
            package_modules.deep_view(),
            hm_base_modules.deep_view(),
        ),
{
    let mut lines: Vec<String> = empty_list();
    push_deep(&mut lines, import_line_of("home", true));
    let ghost head = seq![import_line("home"@, true)];
    let ghost bases = hm_base_modules.deep_view();
    assert(lines.deep_view() =~= head + base_imports(bases.take(0)));
    let mut i: usize = 0;
    while i < hm_base_modules.len()
        invariant
            i <= hm_base_modules.len(),
            bases == hm_base_modules.deep_view(),
            lines.deep_view() == head + base_imports(bases.take(i as int)),
        decreases hm_base_modules.len() - i,
    {
        let base = &hm_base_modules[i];
        proof {
            assert(bases.take(i + 1).drop_last() == bases.take(i as int));
            assert(bases.take(i + 1).last() == base@);
        }
        if !text::same_text(base.as_str(), "home") {
            push_deep(&mut lines, import_line_of(base.as_str(), true));
        }
        i += 1;
        assert(lines.deep_view() =~= head + base_imports(bases.take(i as int)));
    }
    assert(bases.take(hm_base_modules.len() as int) == bases);
    push_module_imports(&mut lines, hm_modules);
    push_module_imports(&mut lines, package_modules);
    let imports = text::join(&lines, "\n");
    let mut s = String::from_str("{ ... }:\n{\n  flake.nixosModules.");
    s.append(host_name);
    s.append("-user-");
    s.append(username);
    s.append(
        " =\n    {\n      pkgs,\n      self,\n      inputs,\n      ...\n    }:\n    {\n      users.users.",
    );
    s.append(username);
    s.append(" = {\n        isNormalUser = true;\n        extraGroups = [ \"wheel\" ];\n      };");
    if !imports.as_str().is_empty() {
        let mut block = String::from_str("\n      home-manager.users.");
        block.append(username);
        block.append(".imports = [\n");
        block.append(imports.as_str());
        block.append("\n      ];");
        s.append(block.as_str());
    } else {
        assert(s@ + Seq::<char>::empty() == s@);
    }
    s.append("\n    };\n}\n");
    s
}

/// Which of the directories that the repository is expected to hold are
/// there.
#[derive(Debug, Clone, Copy, PartialEq, Eq, Structural)]
pub struct RepoLayout {
    pub modules: bool,
    pub nixos_modules: bool,
    pub home_manager_modules: bool,
    pub packages: bool,
    pub hosts: bool,
}

/// The warning for a directory that is missing below `modules/`.
pub open spec fn missing_dir_warning(base_path: Seq<char>, dir: Seq<char>) -> Seq<char> {
    "modules/"@ + dir + " directory not found at '"@ + text::path_joined(
        text::path_joined(base_path, "modules"@),
        dir,
    ) + "'"@
}

/// The warnings for a repository at `base_path` with the directories of
/// `found`: one for `modules/` alone where that is missing, else one for
/// each directory below it that is missing.
pub open spec fn layout_warnings(base_path: Seq<char>, found: RepoLayout) -> Seq<Seq<char>> {
    if !found.modules {
        seq![
            "modules/ directory not found at '"@ + base_path
                + "'. Module scanning will not work."@,
        ]
    } else {
        (if found.nixos_modules {
            Seq::empty()
        } else {
            seq![missing_dir_warning(base_path, "nixosModules"@)]
        }) + (if found.home_manager_modules {
            Seq::empty()
        } else {
            seq![missing_dir_warning(base_path, "homeManagerModules"@)]
        }) + (if found.packages {
            Seq::empty()
        } else {
            seq![missing_dir_warning(base_path, "packages"@)]
        }) + (if found.hosts {
            Seq::empty()
        } else {
            seq![missing_dir_warning(base_path, "hosts"@)]
        })
    }
}

fn push_missing(warnings: &mut Vec<String>, base_path: &str, dir: &str, found: bool)
    ensures
        final(warnings).deep_view() == old(warnings).deep_view() + (if found {
            Seq::<Seq<char>>::empty()
        } else {
            seq![missing_dir_warning(base_path@, dir@)]
        }),
{
    if !found {
        let mut w = String::from_str("modules/");
        w.append(dir);
        w.append(" directory not found at '");
        let modules = text::path_join(base_path, "modules");
        w.append(text::path_join(modules.as_str(), dir).as_str());
        w.append("'");
        push_deep(warnings, w);
        assert(warnings.deep_view() =~= old(warnings).deep_view() + seq![
            missing_dir_warning(base_path@, dir@),
        ]);
    } else {
        assert(warnings.deep_view() =~= old(warnings).deep_view() + Seq::<Seq<char>>::empty());
    }
}

/// The warnings to show for a repository at `base_path` in which the
/// directories of `found` were found.
pub fn validate_base_path(base_path: &str, found: RepoLayout) -> (warnings: Vec<String>)
    ensures
        warnings.deep_view() == layout_warnings(base_path@, found),
{
    let mut warnings: Vec<String> = empty_list();
    if !found.modules {
        let mut w = String::from_str("modules/ directory not found at '");
        w.append(base_path);
        w.append("'. Module scanning will not work.");
        push_deep(&mut warnings, w);
        assert(warnings.deep_view() =~= layout_warnings(base_path@, found));
        return warnings;
    }
    assert(warnings.deep_view() + Seq::<Seq<char>>::empty() =~= warnings.deep_view());
    push_missing(&mut warnings, base_path, "nixosModules", found.nixos_modules);
    push_missing(&mut warnings, base_path, "homeManagerModules", found.home_manager_modules);
    push_missing(&mut warnings, base_path, "packages", found.packages);
    push_missing(&mut warnings, base_path, "hosts", found.hosts);
    assert(warnings.deep_view() =~= layout_warnings(base_path@, found));
    warnings
}


impl Labelled for NixModule {
    open spec fn label_of(v: NixModuleView) -> Seq<char> {
        v.name
    }

    fn label(&self) -> (name: &str) {
        self.name.as_str()
    }
}

impl Labelled for HostPreset {
    open spec fn label_of(v: HostPresetView) -> Seq<char> {
        v.name
    }

    fn label(&self) -> (name: &str) {
        self.name.as_str()
    }
}

/// The stem of the file name of a path: the name without what follows its
/// last full stop.
pub uninterp spec fn path_stem(path: Seq<char>) -> Option<Seq<char>>;

/// The last component of a path, where the path ends in a name.
pub uninterp spec fn path_file_name(path: Seq<char>) -> Option<Seq<char>>;

/// A path without its last component, where it has one to lose.
pub uninterp spec fn path_parent(path: Seq<char>) -> Option<Seq<char>>;

/// The stem of the file name of a path.
///
/// Trusted: `Path::file_stem` of the standard library. What it returns
/// depends on the path alone; the contract gives it a name and claims
/// nothing else of it.
#[verifier::external_body]
fn file_stem(path: &str) -> (r: Option<String>)
    ensures
        r.deep_view() == path_stem(path@),
{
    std::path::Path::new(path).file_stem().map(|s| s.to_string_lossy().into_owned())
}

/// The last component of a path.
///
/// Trusted: `Path::file_name` of the standard library. What it returns
/// depends on the path alone; the contract gives it a name and claims
/// nothing else of it.
#[verifier::external_body]
fn file_name(path: &str) -> (r: Option<String>)
    ensures
        r.deep_view() == path_file_name(path@),
{
    std::path::Path::new(path).file_name().map(|s| s.to_string_lossy().into_owned())
}

/// A path without its last component.
///
/// Trusted: `Path::parent` of the standard library. What it returns
/// depends on the path alone; the contract gives it a name and claims
/// nothing else of it.
#[verifier::external_body]
fn parent(path: &str) -> (r: Option<String>)
    ensures
        r.deep_view() == path_parent(path@),
{
    std::path::Path::new(path).parent().map(|p| p.to_string_lossy().into_owned())
}

/// The name of the module that a file stands for, given the stem of its
/// name, the name of the directory that it lies in, where it lies in one,
/// and whether it has a stem at all: the stem, and for `default` the name
/// of the directory, which the file stands for as a whole.
pub open spec fn module_named(stem: Option<Seq<char>>, directory: Option<Seq<char>>) -> Option<
    Seq<char>,
> {
    match stem {
        Some(s) => if s == "default"@ {
            directory
        } else {
            stem
        },
        None => None,
    }
}

/// The name of the directory that a path lies in.
pub open spec fn directory_name(path: Seq<char>) -> Option<Seq<char>> {
    match path_parent(path) {
        Some(dir) => path_file_name(dir),
        None => None,
    }
}

/// The name of the module that the file at a path stands for.
pub open spec fn module_of_path(path: Seq<char>) -> Option<Seq<char>> {
    module_named(path_stem(path), directory_name(path))
}

/// Picks the name of the module that a file stands for.
pub fn pick_module_name(stem: Option<String>, directory: Option<String>) -> (name: Option<String>)
    ensures
        name.deep_view() == module_named(stem.deep_view(), directory.deep_view()),
{
    match stem {
        Some(s) => {
            if text::same_text(s.as_str(), "default") {
                directory
            } else {
                Some(s)
            }
        },
        None => None,
    }
}

fn module_name(path: &str) -> (name: Option<String>)
    ensures
        name.deep_view() == module_of_path(path@),
{
    let directory = match parent(path) {
        Some(dir) => file_name(dir.as_str()),
        None => None,
    };
    pick_module_name(file_stem(path), directory)
}

/// The names of the modules that a listing of files names, one path to a
/// line, in the order of the listing. A name that has been seen is not
/// taken again, and blank lines do not count.
pub open spec fn discovered(lines: Seq<Seq<char>>) -> Seq<Seq<char>>
    decreases lines.len(),
{
    if lines.len() == 0 {
        Seq::empty()
    } else {
        let before = discovered(lines.drop_last());
        let path = text::trimmed(lines.last());
        if path.len() == 0 {
            before
        } else {
            match module_of_path(path) {
                Some(name) => if before.contains(name) {
                    before
                } else {
                    before.push(name)
                },
                None => before,
            }
        }
    }
}

fn holds_text(names: &Vec<String>, name: &str) -> (r: bool)
    ensures
        r == names.deep_view().contains(name@),
{
    let ghost all = names.deep_view();
    let mut i: usize = 0;
    while i < names.len()
        invariant
            i <= names.len(),
            all == names.deep_view(),
            forall|k: int| 0 <= k < i ==> all[k] != name@,
        decreases names.len() - i,
    {
        if text::same_text(names[i].as_str(), name) {
            assert(all[i as int] == name@);
            return true;
        }
        i += 1;
    }
    false
}

/// The names of the modules that a listing of files names.
pub fn discover_modules(listing: &str) -> (names: Vec<String>)
    ensures
        names.deep_view() == discovered(text::lines_of(listing@)),
{
    let lines = text::lines(listing);
    let ghost all = lines.deep_view();
    let mut names: Vec<String> = empty_list();
    let mut i: usize = 0;
    assert(all.take(0) =~= Seq::<Seq<char>>::empty());
    while i < lines.len()
        invariant
            i <= lines.len(),
            all == lines.deep_view(),
            names.deep_view() == discovered(all.take(i as int)),
        decreases lines.len() - i,
    {
        proof {
            assert(all.take(i + 1).drop_last() == all.take(i as int));
            assert(all.take(i + 1).last() == lines@[i as int]@);
        }
        let path = text::trim(lines[i].as_str());
        if !path.as_str().is_empty() {
            match module_name(path.as_str()) {
                Some(name) => {
                    if !holds_text(&names, name.as_str()) {
                        push_deep(&mut names, name);
                    }
                },
                None => {},
            }
        }
        i += 1;
    }
    assert(all.take(lines.len() as int) == all);
    names
}

/// The two kinds of modules that are scanned for.
#[derive(Debug, Clone, Copy, PartialEq, Eq, Structural)]
pub enum ModuleKind {
    /// System modules.
    Nixos,
    /// Per-user modules.
    HomeManager,
}

/// Whether a module of a kind is kept from the operator's selection.
pub open spec fn skips(kind: ModuleKind, name: Seq<char>) -> bool {
    match kind {
        ModuleKind::Nixos => skips_nixos_module(name),
        ModuleKind::HomeManager => skips_hm_module(name),
    }
}

/// A module that has been found and is not selected.
pub open spec fn found_module(name: Seq<char>) -> NixModuleView {
    NixModuleView { name, selected: false }
}

/// The modules of a kind that are offered, in the order of their names as
/// they were found.
pub open spec fn offered(names: Seq<Seq<char>>, kind: ModuleKind) -> Seq<NixModuleView>
    decreases names.len(),
{
    if names.len() == 0 {
        Seq::empty()
    } else if skips(kind, names.last()) {
        offered(names.drop_last(), kind)
    } else {
        offered(names.drop_last(), kind).push(found_module(names.last()))
    }
}

/// Whether a name in lowercase speaks of WSL.
pub open spec fn speaks_of_wsl(lower: Seq<char>) -> bool {
    text::has_infix(lower, "wsl"@)
}

/// Decides, of a name in lowercase, whether it speaks of WSL.
pub fn mentions_wsl(lower: &str) -> (r: bool)
    ensures
        r == speaks_of_wsl(lower@),
{
    let v = text::chars_of(lower);
    let needle = text::chars_of("wsl");
    text::contains(&v, &needle)
}

/// Whether something is kept from the operator because its name, in any
/// case, speaks of WSL.
pub open spec fn is_for_wsl(name: Seq<char>) -> bool {
    speaks_of_wsl(text::lowercase_of(name))
}

fn for_wsl(name: &str) -> (r: bool)
    ensures
        r == is_for_wsl(name@),
{
    mentions_wsl(text::lowercase(name).as_str())
}

/// The package sets that are offered, under the names that the flake knows
/// them by, in the order in which they were found.
pub open spec fn offered_packages(names: Seq<Seq<char>>) -> Seq<NixModuleView>
    decreases names.len(),
{
    if names.len() == 0 {
        Seq::empty()
    } else if is_for_wsl(names.last()) {
        offered_packages(names.drop_last())
    } else {
        offered_packages(names.drop_last()).push(found_module("packages-"@ + names.last()))
    }
}

/// The host presets that are offered, in the order in which they were
/// found.
pub open spec fn offered_presets(entries: Seq<HostPresetView>) -> Seq<HostPresetView>
    decreases entries.len(),
{
    if entries.len() == 0 {
        Seq::empty()
    } else if is_for_wsl(entries.last().name) {
        offered_presets(entries.drop_last())
    } else {
        offered_presets(entries.drop_last()).push(entries.last())
    }
}

fn scan_modules_in_dir(listing: &str, kind: ModuleKind) -> (modules: Vec<NixModule>)
    ensures
        modules.deep_view() == sorted_of::<NixModule>(
            offered(discovered(text::lines_of(listing@)), kind),
        ),
        ordered::<NixModule>(modules.deep_view()),
        modules.deep_view().to_multiset() == offered(
            discovered(text::lines_of(listing@)),
            kind,
        ).to_multiset(),
{
    let names = discover_modules(listing);
    let ghost all = names.deep_view();
    let mut found: Vec<NixModule> = empty_list();
    let mut i: usize = 0;
    assert(all.take(0) =~= Seq::<Seq<char>>::empty());
    while i < names.len()
        invariant
            i <= names.len(),
            all == names.deep_view(),
            found.deep_view() == offered(all.take(i as int), kind),
        decreases names.len() - i,
    {
        proof {
            assert(all.take(i + 1).drop_last() == all.take(i as int));
            assert(all.take(i + 1).last() == names@[i as int]@);
        }
        let name = names[i].as_str();
        let skip = match kind {
            ModuleKind::Nixos => should_skip_nixos_module(name),
            ModuleKind::HomeManager => should_skip_hm_module(name),
        };
        if !skip {
            push_deep(&mut found, NixModule { name: names[i].clone(), selected: false });
        }
        i += 1;
    }
    assert(all.take(names.len() as int) == all);
    sort_by_label(found)
}

/// The system modules to offer, from a listing of the files below the
/// directory of system modules: every module that the listing names,
/// but for those that are kept from selection, none of them selected, in
/// the order of their names.
pub fn scan_nixos_modules(listing: &str) -> (modules: Vec<NixModule>)
    ensures
        modules.deep_view() == sorted_of::<NixModule>(
            offered(discovered(text::lines_of(listing@)), ModuleKind::Nixos),
        ),
        ordered::<NixModule>(modules.deep_view()),
        modules.deep_view().to_multiset() == offered(
            discovered(text::lines_of(listing@)),
            ModuleKind::Nixos,
        ).to_multiset(),
{
    scan_modules_in_dir(listing, ModuleKind::Nixos)
}

/// The per-user modules to offer, from a listing of the files below the
/// directory of per-user modules.
pub fn scan_hm_modules(listing: &str) -> (modules: Vec<NixModule>)
    ensures
        modules.deep_view() == sorted_of::<NixModule>(
            offered(discovered(text::lines_of(listing@)), ModuleKind::HomeManager),
        ),
        ordered::<NixModule>(modules.deep_view()),
        modules.deep_view().to_multiset() == offered(
            discovered(text::lines_of(listing@)),
            ModuleKind::HomeManager,
        ).to_multiset(),
{
    scan_modules_in_dir(listing, ModuleKind::HomeManager)
}

/// The package sets to offer, from a listing of the files below the
/// directory of package sets: every set that the listing names, but for
/// those for WSL, under the name that the flake knows it by, none of them
/// selected, in the order of their names.
pub fn scan_package_modules(listing: &str) -> (modules: Vec<NixModule>)
    ensures
        modules.deep_view() == sorted_of::<NixModule>(
            offered_packages(discovered(text::lines_of(listing@))),
        ),
        ordered::<NixModule>(modules.deep_view()),
        modules.deep_view().to_multiset() == offered_packages(
            discovered(text::lines_of(listing@)),
        ).to_multiset(),
{
    let names = discover_modules(listing);
    let ghost all = names.deep_view();
    let mut found: Vec<NixModule> = empty_list();
    let mut i: usize = 0;
    assert(all.take(0) =~= Seq::<Seq<char>>::empty());
    while i < names.len()
        invariant
            i <= names.len(),
            all == names.deep_view(),
            found.deep_view() == offered_packages(all.take(i as int)),
        decreases names.len() - i,
    {
        proof {
            assert(all.take(i + 1).drop_last() == all.take(i as int));
            assert(all.take(i + 1).last() == names@[i as int]@);
        }
        if !for_wsl(names[i].as_str()) {
            let mut name = String::from_str("packages-");
            name.append(names[i].as_str());
            push_deep(&mut found, NixModule { name, selected: false });
        }
        i += 1;
    }
    assert(all.take(names.len() as int) == all);
    sort_by_label(found)
}

/// The host presets to offer, from the directories that were found below
/// the directory of hosts: each but for those for WSL, in the order of
/// their names.
pub fn scan_host_presets(entries: Vec<HostPreset>) -> (presets: Vec<HostPreset>)
    ensures
        presets.deep_view() == sorted_of::<HostPreset>(offered_presets(entries.deep_view())),
        ordered::<HostPreset>(presets.deep_view()),
        presets.deep_view().to_multiset() == offered_presets(entries.deep_view()).to_multiset(),
{
    let ghost all = entries.deep_view();
    let mut found: Vec<HostPreset> = empty_list();
    let mut i: usize = 0;
    assert(all.take(0) =~= Seq::<HostPresetView>::empty());
    while i < entries.len()
        invariant
            i <= entries.len(),
            all == entries.deep_view(),
            found.deep_view() == offered_presets(all.take(i as int)),
        decreases entries.len() - i,
    {
        proof {
            assert(all.take(i + 1).drop_last() == all.take(i as int));
            assert(all.take(i + 1).last() == entries@[i as int]@);
        }
        if !for_wsl(entries[i].name.as_str()) {
            push_deep(&mut found, entries[i].clone());
        }
        i += 1;
    }
    assert(all.take(entries.len() as int) == all);
    sort_by_label(found)
}

/// The directory that holds what belongs to a host.
pub open spec fn host_dir_of(base_path: Seq<char>, host_name: Seq<char>) -> Seq<char> {
    text::path_joined(
        text::path_joined(text::path_joined(base_path, "modules"@), "hosts"@),
        host_name,
    )
}

/// The directory that holds what belongs to a host.
pub fn host_dir(base_path: &str, host_name: &str) -> (path: String)
    ensures
        path@ == host_dir_of(base_path@, host_name@),
{
    let modules = text::path_join(base_path, "modules");
    let hosts = text::path_join(modules.as_str(), "hosts");
    text::path_join(hosts.as_str(), host_name)
}

/// The name of the file that holds the configuration of a user.
pub open spec fn user_config_file_of(username: Seq<char>) -> Seq<char> {
    "user-"@ + username + ".nix"@
}

/// The name of the file that holds the configuration of a user, within the
/// directory of the host.
pub fn user_config_file(username: &str) -> (file: String)
    ensures
        file@ == user_config_file_of(username@),
{
    let mut file = String::from_str("user-");
    file.append(username);
    file.append(".nix");
    file
}

/// The file that holds the configuration of a user of a host.
pub open spec fn user_config_path_of(
    base_path: Seq<char>,
    host_name: Seq<char>,
    username: Seq<char>,
) -> Seq<char> {
    text::path_joined(host_dir_of(base_path, host_name), user_config_file_of(username))
}

/// The file that holds the configuration of a user of a host. Whether it
/// exists decides whether modules have to be selected for the user.
pub fn user_config_path(base_path: &str, host_name: &str, username: &str) -> (path: String)
    ensures
        path@ == user_config_path_of(base_path@, host_name@, username@),
{
    text::path_join(
        host_dir(base_path, host_name).as_str(),
        user_config_file(username).as_str(),
    )
}

} // verus!
