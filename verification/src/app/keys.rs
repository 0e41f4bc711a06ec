//! Keys: what each key does on each screen.

use crate::app::{
    next_index, prev_index, username_accepted, App, AppView, Effect, Step,
};
use crate::nix::{NixModule, NixModuleView};
use crate::text;
use vstd::prelude::*;

verus! {

/// A key of the keyboard, as far as the wizard tells keys apart.
#[derive(Debug, Clone, Copy, PartialEq, Eq, Structural)]
pub enum Key {
    Up,
    Down,
    Left,
    Right,
    Enter,
    Esc,
    Backspace,
    Char(char),
    Other,
}

/// A key that was pressed.
#[derive(Debug, Clone, Copy, PartialEq, Eq, Structural)]
pub struct KeyPress {
    pub key: Key,
    /// Whether the control key was held.
    pub ctrl: bool,
}

/// Which characters a text field takes.
#[derive(Debug, Clone, Copy, PartialEq, Eq, Structural)]
pub enum Field {
    /// Any character.
    Text,
    /// Digits.
    Digits,
    /// Digits and the full stop.
    Size,
}

/// Which of the two records that are shared with workers the wizard looks
/// at on a tick.
#[derive(Debug, Clone, Copy, PartialEq, Eq, Structural)]
pub enum Watch {
    Clone,
    Install,
    Neither,
}

/// Whether a key moves up in a list.
pub open spec fn is_up(key: Key) -> bool {
    key == Key::Up || key == Key::Char('k')
}

/// Whether a key moves down in a list.
pub open spec fn is_down(key: Key) -> bool {
    key == Key::Down || key == Key::Char('j')
}

/// Whether a key picks the first of two choices.
pub open spec fn is_left(key: Key) -> bool {
    key == Key::Left || key == Key::Char('h')
}

/// Whether a key picks the second of two choices.
pub open spec fn is_right(key: Key) -> bool {
    key == Key::Right || key == Key::Char('l')
}

/// The cursor of a list of `len` entries after a key.
pub open spec fn moved(key: Key, len: usize, cursor: usize) -> usize {
    if is_up(key) {
        prev_index(len, cursor)
    } else if is_down(key) {
        next_index(len, cursor)
    } else {
        cursor
    }
}

/// The cursor of a choice between two after a key.
pub open spec fn chosen(key: Key, cursor: usize) -> usize {
    if is_left(key) {
        0
    } else if is_right(key) {
        1
    } else {
        cursor
    }
}

/// Whether a field takes a character.
pub open spec fn takes(field: Field, c: char) -> bool {
    match field {
        Field::Text => true,
        Field::Digits => text::is_digit(c),
        Field::Size => text::is_digit(c) || c == '.',
    }
}

/// Whether a key press erases the last character of a field.
pub open spec fn erases(press: KeyPress) -> bool {
    press.key == Key::Backspace || (press.key == Key::Char('h') && press.ctrl)
}

/// A text field after a key press: backspace, or control with `h`, erases
/// its last character, and a character that the field takes, typed
/// without control, is added at its end.
pub open spec fn edited(press: KeyPress, field: Field, content: Seq<char>) -> Seq<char> {
    if erases(press) {
        if content.len() > 0 {
            content.drop_last()
        } else {
            content
        }
    } else {
        match press.key {
            Key::Char(c) => if !press.ctrl && takes(field, c) {
                content.push(c)
            } else {
                content
            },
            _ => content,
        }
    }
}

/// A list of modules with the selection of the module under the cursor
/// turned over.
pub open spec fn toggled(modules: Seq<NixModuleView>, cursor: usize) -> Seq<NixModuleView> {
    if cursor < modules.len() {
        modules.update(
            cursor as int,
            NixModuleView { selected: !modules[cursor as int].selected, ..modules[cursor as int] },
        )
    } else {
        modules
    }
}

/// The last line of a log of `len` lines that the screen can scroll to.
pub open spec fn last_line(len: nat) -> nat {
    if len > 0 {
        (len - 1) as nat
    } else {
        0
    }
}

/// Where a log on screen stands after a key: up moves one line up, down
/// one line down, and neither past the ends.
pub open spec fn scrolled(key: Key, len: nat, scroll: usize) -> usize {
    if is_up(key) {
        if scroll > 0 {
            (scroll - 1) as usize
        } else {
            scroll
        }
    } else if is_down(key) && scroll < last_line(len) {
        (scroll + 1) as usize
    } else {
        scroll
    }
}

/// Whether a log on screen follows its last line after a key: moving up
/// stops it, and moving down to the last line starts it again.
pub open spec fn following(key: Key, len: nat, scroll: usize, auto_scroll: bool) -> bool {
    if is_up(key) {
        false
    } else if is_down(key) {
        auto_scroll || scrolled(key, len, scroll) >= last_line(len)
    } else {
        auto_scroll
    }
}

/// Whether a screen shows a list in which `q` ends the program.
pub open spec fn is_list_step(step: Step) -> bool {
    step == Step::SelectPreset || step == Step::SelectDisk || step == Step::SelectNixosModules
        || step == Step::SelectHmModules || step == Step::SelectSystemPackages || step
        == Step::SelectUserPackages
}

/// Whether escape is a key like any other on a screen, and not the way
/// back.
pub open spec fn keeps_escape(step: Step) -> bool {
    step == Step::Installing || step == Step::Complete || step == Step::CloningRepo
}

/// The number of entries of the preset list.
pub open spec fn preset_count(presets: nat) -> usize {
    if presets < usize::MAX {
        (presets + 1) as usize
    } else {
        usize::MAX
    }
}

impl AppView {
    /// The state with the program about to end.
    pub open spec fn quitting(self) -> AppView {
        AppView { should_quit: true, ..self }
    }

    /// The state after a key on the current screen, where the key is
    /// neither the end of the program nor the way back and no message
    /// is shown.
    pub open spec fn step_key(self, press: KeyPress) -> AppView {
        let key = press.key;
        let enter = key == Key::Enter;
        match self.step {
            Step::CloningRepo => if enter {
                if self.clone_error is Some {
                    self.quitting()
                } else {
                    self
                }
            } else {
                AppView {
                    clone_log_scroll: scrolled(key, self.clone_log.len(), self.clone_log_scroll),
                    auto_scroll: following(
                        key,
                        self.clone_log.len(),
                        self.clone_log_scroll,
                        self.auto_scroll,
                    ),
                    ..self
                }
            },
            Step::SelectPreset => if enter {
                self.confirmed_preset()
            } else {
                AppView {
                    preset_cursor: moved(key, preset_count(self.presets.len()), self.preset_cursor),
                    ..self
                }
            },
            Step::HostName => if enter {
                self.confirmed_host_name()
            } else {
                AppView { host_name_input: edited(press, Field::Text, self.host_name_input), ..self }
            },
            Step::SelectNixosModules => if enter {
                self.at(Step::SelectSystemPackages)
            } else if key == Key::Char(' ') {
                AppView { nixos_modules: toggled(self.nixos_modules, self.nixos_cursor), ..self }
            } else {
                AppView {
                    nixos_cursor: moved(key, self.nixos_modules.len() as usize, self.nixos_cursor),
                    ..self
                }
            },
            Step::SelectSystemPackages => if enter {
                self.prefilled().at(Step::CreateUser)
            } else if key == Key::Char(' ') {
                AppView {
                    system_packages: toggled(self.system_packages, self.system_package_cursor),
                    ..self
                }
            } else {
                AppView {
                    system_package_cursor: moved(
                        key,
                        self.system_packages.len() as usize,
                        self.system_package_cursor,
                    ),
                    ..self
                }
            },
            Step::CreateUser => if enter {
                if username_accepted(self.users, self.current_username) {
                    self
                } else {
                    self.confirmed_username(false)
                }
            } else {
                AppView {
                    current_username: edited(press, Field::Text, self.current_username),
                    ..self
                }
            },
            Step::AddAnotherUser => if enter {
                self.confirmed_another_user()
            } else {
                AppView { another_user_cursor: chosen(key, self.another_user_cursor), ..self }
            },
            Step::SelectHmModules => if enter {
                self.confirmed_hm_modules()
            } else if key == Key::Char(' ') {
                AppView { hm_modules: toggled(self.hm_modules, self.hm_cursor), ..self }
            } else {
                AppView {
                    hm_cursor: moved(key, self.hm_modules.len() as usize, self.hm_cursor),
                    ..self
                }
            },
            Step::SelectUserPackages => if enter {
                self.confirmed_user_packages()
            } else if key == Key::Char(' ') {
                AppView {
                    user_pkg_modules: toggled(self.user_pkg_modules, self.user_pkg_cursor),
                    ..self
                }
            } else {
                AppView {
                    user_pkg_cursor: moved(
                        key,
                        self.user_pkg_modules.len() as usize,
                        self.user_pkg_cursor,
                    ),
                    ..self
                }
            },
            Step::SelectDisk => if enter {
                self.confirmed_disk()
            } else {
                AppView {
                    disk_cursor: moved(key, self.disks.len() as usize, self.disk_cursor),
                    ..self
                }
            },
            Step::PartitionModeSelect => if enter {
                self.confirmed_partition_mode()
            } else {
                AppView { partition_mode_cursor: moved(key, 2, self.partition_mode_cursor), ..self }
            },
            Step::SwapSize => if enter {
                self.confirmed_swap_size()
            } else {
                AppView {
                    swap_size_input: edited(press, Field::Digits, self.swap_size_input),
                    ..self
                }
            },
            Step::CustomPartitionMount => if enter {
                self.confirmed_custom_mount()
            } else {
                AppView {
                    part_mount_input: edited(press, Field::Text, self.part_mount_input),
                    ..self
                }
            },
            Step::CustomPartitionSize => if enter {
                AppView { status_message: None, step: Step::CustomPartitionFs, ..self }
            } else {
                AppView {
                    part_size_input: edited(press, Field::Size, self.part_size_input),
                    ..self
                }
            },
            Step::CustomPartitionFs => if enter {
                self.confirmed_custom_fs()
            } else {
                AppView { part_fs_cursor: moved(key, 4, self.part_fs_cursor), ..self }
            },
            Step::CustomPartitionAnother => if enter {
                self.confirmed_custom_another()
            } else {
                AppView {
                    another_partition_cursor: chosen(key, self.another_partition_cursor),
                    ..self
                }
            },
            Step::Confirm => if enter {
                self.confirmed_install()
            } else if key == Key::Char(' ') {
                AppView { accept_flake_config: !self.accept_flake_config, ..self }
            } else {
                AppView { confirm_cursor: chosen(key, self.confirm_cursor), ..self }
            },
            Step::Installing => if enter {
                if self.install_error is Some {
                    self.quitting()
                } else if self.install_done {
                    self.at(Step::RootPassword)
                } else {
                    self
                }
            } else {
                AppView {
                    log_scroll: scrolled(key, self.install_log.len(), self.log_scroll),
                    auto_scroll: following(
                        key,
                        self.install_log.len(),
                        self.log_scroll,
                        self.auto_scroll,
                    ),
                    ..self
                }
            },
            Step::RootPassword => if enter {
                self.confirmed_root_password()
            } else {
                AppView { root_password: edited(press, Field::Text, self.root_password), ..self }
            },
            Step::RootPasswordConfirm => if enter {
                self.confirmed_root_password_confirm()
            } else {
                AppView {
                    root_password_confirm: edited(press, Field::Text, self.root_password_confirm),
                    ..self
                }
            },
            Step::UserPassword => if enter {
                self.confirmed_user_password()
            } else {
                AppView {
                    current_password: edited(press, Field::Text, self.current_password),
                    ..self
                }
            },
            Step::UserPasswordConfirm => if enter {
                self.confirmed_user_password_confirm()
            } else {
                AppView {
                    current_password_confirm: edited(
                        press,
                        Field::Text,
                        self.current_password_confirm,
                    ),
                    ..self
                }
            },
            Step::Complete => if enter {
                self.quitting()
            } else {
                AppView { reboot_cursor: chosen(key, self.reboot_cursor), ..self }
            },
        }
    }

    /// What a key on the current screen needs from outside, under the
    /// same conditions.
    pub open spec fn step_effect(self, press: KeyPress) -> Effect {
        if press.key != Key::Enter {
            Effect::Nothing
        } else {
            match self.step {
                Step::CreateUser => if username_accepted(self.users, self.current_username) {
                    Effect::ProbeUser
                } else {
                    Effect::Nothing
                },
                Step::AddAnotherUser => if self.another_user_cursor == 0 {
                    Effect::Nothing
                } else {
                    self.advance_effect(0)
                },
                Step::SelectUserPackages => if self.hm_user_index < self.users.len() {
                    self.advance_effect(self.hm_user_index + 1)
                } else {
                    Effect::Nothing
                },
                Step::Confirm => if self.install_allowed() {
                    Effect::StartInstall
                } else {
                    Effect::Nothing
                },
                Step::RootPasswordConfirm => if self.root_passwords_match() {
                    Effect::SetRootPassword
                } else {
                    Effect::Nothing
                },
                Step::UserPasswordConfirm => if self.user_passwords_match()
                    && self.password_user_index < self.users.len() {
                    Effect::SetUserPassword
                } else {
                    Effect::Nothing
                },
                Step::Complete => if self.reboot_cursor == 0 {
                    Effect::Reboot
                } else {
                    Effect::Nothing
                },
                _ => Effect::Nothing,
            }
        }
    }

    /// Whether a key press is taken before the current screen sees it:
    /// control with `c` ends the program, any key takes a message away,
    /// escape is the way back, and `q` ends the program from a list.
    pub open spec fn taken_early(self, press: KeyPress) -> bool {
        (press.ctrl && press.key == Key::Char('c')) || self.status_message is Some || (press.key
            == Key::Esc && !keeps_escape(self.step)) || (press.key == Key::Char('q')
            && is_list_step(self.step))
    }

    /// The state after a key press.
    pub open spec fn pressed(self, press: KeyPress) -> AppView {
        if press.ctrl && press.key == Key::Char('c') {
            self.quitting()
        } else if self.status_message is Some {
            AppView { status_message: None, ..self }
        } else if press.key == Key::Esc && !keeps_escape(self.step) {
            if self.back_target() is Some {
                self.gone_back()
            } else {
                self.quitting()
            }
        } else if press.key == Key::Char('q') && is_list_step(self.step) {
            self.quitting()
        } else {
            self.step_key(press)
        }
    }

    /// What a key press needs from outside.
    pub open spec fn press_effect(self, press: KeyPress) -> Effect {
        if self.taken_early(press) {
            Effect::Nothing
        } else {
            self.step_effect(press)
        }
    }

    /// Whether the clone has ended well, so that the wizard moves on by
    /// itself.
    pub open spec fn clone_finished(self) -> bool {
        self.step == Step::CloningRepo && self.clone_done && self.clone_error is None
    }

    /// Whether the installation has ended well: it is done and no error is
    /// set.
    pub open spec fn install_finished(self) -> bool {
        self.step == Step::Installing && self.install_done && self.install_error is None
    }

    /// The state after the wizard has moved on by itself, where a pipeline
    /// has ended well: from the installation to the root password. From
    /// the clone it moves on once the repository has been scanned. A
    /// pipeline that has an error set is never moved on from.
    pub open spec fn auto_advanced(self) -> AppView {
        if self.install_finished() {
            self.at(Step::RootPassword)
        } else {
            self
        }
    }
}


fn is_up_key(key: Key) -> (r: bool)
    ensures
        r == is_up(key),
{
    key == Key::Up || key == Key::Char('k')
}

fn is_down_key(key: Key) -> (r: bool)
    ensures
        r == is_down(key),
{
    key == Key::Down || key == Key::Char('j')
}

fn move_cursor(key: Key, len: usize, cursor: usize) -> (r: usize)
    ensures
        r == moved(key, len, cursor),
{
    let mut at = cursor;
    if is_up_key(key) {
        App::list_prev(len, &mut at);
    } else if is_down_key(key) {
        App::list_next(len, &mut at);
    }
    at
}

fn pick(key: Key, cursor: usize) -> (r: usize)
    ensures
        r == chosen(key, cursor),
{
    if key == Key::Left || key == Key::Char('h') {
        0
    } else if key == Key::Right || key == Key::Char('l') {
        1
    } else {
        cursor
    }
}

fn field_takes(field: Field, c: char) -> (r: bool)
    ensures
        r == takes(field, c),
{
    match field {
        Field::Text => true,
        Field::Digits => text::is_ascii_digit(c),
        Field::Size => text::is_ascii_digit(c) || c == '.',
    }
}

fn edit(press: KeyPress, field: Field, content: &mut String)
    ensures
        final(content)@ == edited(press, field, old(content)@),
{
    if press.key == Key::Backspace || (press.key == Key::Char('h') && press.ctrl) {
        let v = text::chars_of(content.as_str());
        if v.len() > 0 {
            *content = text::string_of_range(&v, 0, v.len() - 1);
            assert(v@.subrange(0, v.len() - 1) == v@.drop_last());
        }
        return ;
    }
    match press.key {
        Key::Char(c) => {
            if !press.ctrl && field_takes(field, c) {
                text::push_char(content, c);
            }
        },
        _ => {},
    }
}

fn toggle(modules: &mut Vec<NixModule>, cursor: usize)
    ensures
        final(modules).deep_view() == toggled(old(modules).deep_view(), cursor),
{
    if cursor < modules.len() {
        let ghost before = modules.deep_view();
        let mut m = modules[cursor].clone();
        m.selected = !m.selected;
        modules[cursor] = m;
        assert(modules.deep_view() =~= toggled(before, cursor));
    }
}

fn scroll(key: Key, len: usize, at: usize) -> (r: usize)
    ensures
        r == scrolled(key, len as nat, at),
{
    let last: usize = if len > 0 {
        len - 1
    } else {
        0
    };
    if is_up_key(key) {
        if at > 0 {
            at - 1
        } else {
            at
        }
    } else if is_down_key(key) && at < last {
        at + 1
    } else {
        at
    }
}

fn follow(key: Key, len: usize, at: usize, auto_scroll: bool) -> (r: bool)
    ensures
        r == following(key, len as nat, at, auto_scroll),
{
    let last: usize = if len > 0 {
        len - 1
    } else {
        0
    };
    if is_up_key(key) {
        false
    } else if is_down_key(key) {
        auto_scroll || scroll(key, len, at) >= last
    } else {
        auto_scroll
    }
}

fn count_presets(presets: usize) -> (r: usize)
    ensures
        r == preset_count(presets as nat),
{
    if presets < usize::MAX {
        presets + 1
    } else {
        usize::MAX
    }
}

impl App {
    fn key_at_cloning(&mut self, press: KeyPress) -> (effect: Effect)
        requires
            old(self).step == Step::CloningRepo,
        ensures
            final(self)@ == old(self)@.step_key(press),
            effect == old(self)@.step_effect(press),
    {
        if press.key == Key::Enter {
            if self.clone_error.is_some() {
                self.should_quit = true;
            }
            return Effect::Nothing;
        }
        let len = self.clone_log.len();
        let at = self.clone_log_scroll;
        self.auto_scroll = follow(press.key, len, at, self.auto_scroll);
        self.clone_log_scroll = scroll(press.key, len, at);
        Effect::Nothing
    }

    fn key_at_presets(&mut self, press: KeyPress) -> (effect: Effect)
        requires
            old(self).step == Step::SelectPreset,
        ensures
            final(self)@ == old(self)@.step_key(press),
            effect == old(self)@.step_effect(press),
    {
        if press.key == Key::Enter {
            self.confirm_preset_selection();
            return Effect::Nothing;
        }
        self.preset_cursor = move_cursor(press.key, count_presets(self.presets.len()), self.preset_cursor);
        Effect::Nothing
    }

    fn key_at_host_name(&mut self, press: KeyPress) -> (effect: Effect)
        requires
            old(self).step == Step::HostName,
        ensures
            final(self)@ == old(self)@.step_key(press),
            effect == old(self)@.step_effect(press),
    {
        if press.key == Key::Enter {
            self.confirm_host_name();
            return Effect::Nothing;
        }
        edit(press, Field::Text, &mut self.host_name_input);
        Effect::Nothing
    }

    fn key_at_nixos_modules(&mut self, press: KeyPress) -> (effect: Effect)
        requires
            old(self).step == Step::SelectNixosModules,
        ensures
            final(self)@ == old(self)@.step_key(press),
            effect == old(self)@.step_effect(press),
    {
        if press.key == Key::Enter {
            self.confirm_nixos_modules();
            return Effect::Nothing;
        }
        if press.key == Key::Char(' ') {
            toggle(&mut self.nixos_modules, self.nixos_cursor);
            return Effect::Nothing;
        }
        self.nixos_cursor = move_cursor(press.key, self.nixos_modules.len(), self.nixos_cursor);
        Effect::Nothing
    }

    fn key_at_system_packages(&mut self, press: KeyPress) -> (effect: Effect)
        requires
            old(self).step == Step::SelectSystemPackages,
        ensures
            final(self)@ == old(self)@.step_key(press),
            effect == old(self)@.step_effect(press),
    {
        if press.key == Key::Enter {
            self.confirm_system_packages();
            return Effect::Nothing;
        }
        if press.key == Key::Char(' ') {
            toggle(&mut self.system_packages, self.system_package_cursor);
            return Effect::Nothing;
        }
        self.system_package_cursor = move_cursor(press.key, self.system_packages.len(), self.system_package_cursor);
        Effect::Nothing
    }

    fn key_at_create_user(&mut self, press: KeyPress) -> (effect: Effect)
        requires
            old(self).step == Step::CreateUser,
        ensures
            final(self)@ == old(self)@.step_key(press),
            effect == old(self)@.step_effect(press),
    {
        if press.key == Key::Enter {
            if self.accepts_username() {
                return Effect::ProbeUser;
            }
            self.confirm_username(false);
            return Effect::Nothing;
        }
        edit(press, Field::Text, &mut self.current_username);
        Effect::Nothing
    }

    fn key_at_another_user(&mut self, press: KeyPress) -> (effect: Effect)
        requires
            old(self).step == Step::AddAnotherUser,
        ensures
            final(self)@ == old(self)@.step_key(press),
            effect == old(self)@.step_effect(press),
    {
        if press.key == Key::Enter {
            return self.confirm_another_user();
        }
        self.another_user_cursor = pick(press.key, self.another_user_cursor);
        Effect::Nothing
    }

    fn key_at_hm_modules(&mut self, press: KeyPress) -> (effect: Effect)
        requires
            old(self).step == Step::SelectHmModules,
        ensures
            final(self)@ == old(self)@.step_key(press),
            effect == old(self)@.step_effect(press),
    {
        if press.key == Key::Enter {
            self.confirm_hm_modules();
            return Effect::Nothing;
        }
        if press.key == Key::Char(' ') {
            toggle(&mut self.hm_modules, self.hm_cursor);
            return Effect::Nothing;
        }
        self.hm_cursor = move_cursor(press.key, self.hm_modules.len(), self.hm_cursor);
        Effect::Nothing
    }

    fn key_at_user_packages(&mut self, press: KeyPress) -> (effect: Effect)
        requires
            old(self).step == Step::SelectUserPackages,
        ensures
            final(self)@ == old(self)@.step_key(press),
            effect == old(self)@.step_effect(press),
    {
        if press.key == Key::Enter {
            return self.confirm_user_packages();
        }
        if press.key == Key::Char(' ') {
            toggle(&mut self.user_pkg_modules, self.user_pkg_cursor);
            return Effect::Nothing;
        }
        self.user_pkg_cursor = move_cursor(press.key, self.user_pkg_modules.len(), self.user_pkg_cursor);
        Effect::Nothing
    }

    fn key_at_disks(&mut self, press: KeyPress) -> (effect: Effect)
        requires
            old(self).step == Step::SelectDisk,
        ensures
            final(self)@ == old(self)@.step_key(press),
            effect == old(self)@.step_effect(press),
    {
        if press.key == Key::Enter {
            self.confirm_disk();
            return Effect::Nothing;
        }
        self.disk_cursor = move_cursor(press.key, self.disks.len(), self.disk_cursor);
        Effect::Nothing
    }

    fn key_at_partition_mode(&mut self, press: KeyPress) -> (effect: Effect)
        requires
            old(self).step == Step::PartitionModeSelect,
        ensures
            final(self)@ == old(self)@.step_key(press),
            effect == old(self)@.step_effect(press),
    {
        if press.key == Key::Enter {
            self.confirm_partition_mode();
            return Effect::Nothing;
        }
        self.partition_mode_cursor = move_cursor(press.key, 2, self.partition_mode_cursor);
        Effect::Nothing
    }

    fn key_at_swap_size(&mut self, press: KeyPress) -> (effect: Effect)
        requires
            old(self).step == Step::SwapSize,
        ensures
            final(self)@ == old(self)@.step_key(press),
            effect == old(self)@.step_effect(press),
    {
        if press.key == Key::Enter {
            self.confirm_swap_size();
            return Effect::Nothing;
        }
        edit(press, Field::Digits, &mut self.swap_size_input);
        Effect::Nothing
    }

    fn key_at_custom_mount(&mut self, press: KeyPress) -> (effect: Effect)
        requires
            old(self).step == Step::CustomPartitionMount,
        ensures
            final(self)@ == old(self)@.step_key(press),
            effect == old(self)@.step_effect(press),
    {
        if press.key == Key::Enter {
            self.confirm_custom_mount();
            return Effect::Nothing;
        }
        edit(press, Field::Text, &mut self.part_mount_input);
        Effect::Nothing
    }

    fn key_at_custom_size(&mut self, press: KeyPress) -> (effect: Effect)
        requires
            old(self).step == Step::CustomPartitionSize,
        ensures
            final(self)@ == old(self)@.step_key(press),
            effect == old(self)@.step_effect(press),
    {
        if press.key == Key::Enter {
            self.confirm_custom_size();
            return Effect::Nothing;
        }
        edit(press, Field::Size, &mut self.part_size_input);
        Effect::Nothing
    }

    fn key_at_custom_fs(&mut self, press: KeyPress) -> (effect: Effect)
        requires
            old(self).step == Step::CustomPartitionFs,
        ensures
            final(self)@ == old(self)@.step_key(press),
            effect == old(self)@.step_effect(press),
    {
        if press.key == Key::Enter {
            self.confirm_custom_fs();
            return Effect::Nothing;
        }
        self.part_fs_cursor = move_cursor(press.key, 4, self.part_fs_cursor);
        Effect::Nothing
    }

    fn key_at_custom_another(&mut self, press: KeyPress) -> (effect: Effect)
        requires
            old(self).step == Step::CustomPartitionAnother,
        ensures
            final(self)@ == old(self)@.step_key(press),
            effect == old(self)@.step_effect(press),
    {
        if press.key == Key::Enter {
            self.confirm_custom_another();
            return Effect::Nothing;
        }
        self.another_partition_cursor = pick(press.key, self.another_partition_cursor);
        Effect::Nothing
    }

    fn key_at_confirm(&mut self, press: KeyPress) -> (effect: Effect)
        requires
            old(self).step == Step::Confirm,
        ensures
            final(self)@ == old(self)@.step_key(press),
            effect == old(self)@.step_effect(press),
    {
        if press.key == Key::Enter {
            return self.confirm_install();
        }
        if press.key == Key::Char(' ') {
            self.accept_flake_config = !self.accept_flake_config;
            return Effect::Nothing;
        }
        self.confirm_cursor = pick(press.key, self.confirm_cursor);
        Effect::Nothing
    }

    fn key_at_installing(&mut self, press: KeyPress) -> (effect: Effect)
        requires
            old(self).step == Step::Installing,
        ensures
            final(self)@ == old(self)@.step_key(press),
            effect == old(self)@.step_effect(press),
    {
        if press.key == Key::Enter {
            if self.install_error.is_some() {
                self.should_quit = true;
            } else if self.install_done {
                self.step = Step::RootPassword;
            }
            return Effect::Nothing;
        }
        let len = self.install_log.len();
        let at = self.log_scroll;
        self.auto_scroll = follow(press.key, len, at, self.auto_scroll);
        self.log_scroll = scroll(press.key, len, at);
        Effect::Nothing
    }

    fn key_at_root_password(&mut self, press: KeyPress) -> (effect: Effect)
        requires
            old(self).step == Step::RootPassword,
        ensures
            final(self)@ == old(self)@.step_key(press),
            effect == old(self)@.step_effect(press),
    {
        if press.key == Key::Enter {
            self.confirm_root_password();
            return Effect::Nothing;
        }
        edit(press, Field::Text, &mut self.root_password);
        Effect::Nothing
    }

    fn key_at_root_password_confirm(&mut self, press: KeyPress) -> (effect: Effect)
        requires
            old(self).step == Step::RootPasswordConfirm,
        ensures
            final(self)@ == old(self)@.step_key(press),
            effect == old(self)@.step_effect(press),
    {
        if press.key == Key::Enter {
            return self.confirm_root_password_confirm();
        }
        edit(press, Field::Text, &mut self.root_password_confirm);
        Effect::Nothing
    }

    fn key_at_user_password(&mut self, press: KeyPress) -> (effect: Effect)
        requires
            old(self).step == Step::UserPassword,
        ensures
            final(self)@ == old(self)@.step_key(press),
            effect == old(self)@.step_effect(press),
    {
        if press.key == Key::Enter {
            self.confirm_user_password();
            return Effect::Nothing;
        }
        edit(press, Field::Text, &mut self.current_password);
        Effect::Nothing
    }

    fn key_at_user_password_confirm(&mut self, press: KeyPress) -> (effect: Effect)
        requires
            old(self).step == Step::UserPasswordConfirm,
        ensures
            final(self)@ == old(self)@.step_key(press),
            effect == old(self)@.step_effect(press),
    {
        if press.key == Key::Enter {
            return self.confirm_user_password_confirm();
        }
        edit(press, Field::Text, &mut self.current_password_confirm);
        Effect::Nothing
    }

    fn key_at_complete(&mut self, press: KeyPress) -> (effect: Effect)
        requires
            old(self).step == Step::Complete,
        ensures
            final(self)@ == old(self)@.step_key(press),
            effect == old(self)@.step_effect(press),
    {
        if press.key == Key::Enter {
            return self.confirm_reboot();
        }
        self.reboot_cursor = pick(press.key, self.reboot_cursor);
        Effect::Nothing
    }

    fn key_on_step(&mut self, press: KeyPress) -> (effect: Effect)
        ensures
            final(self)@ == old(self)@.step_key(press),
            effect == old(self)@.step_effect(press),
    {
        match self.step {
            Step::CloningRepo => self.key_at_cloning(press),
            Step::SelectPreset => self.key_at_presets(press),
            Step::HostName => self.key_at_host_name(press),
            Step::SelectNixosModules => self.key_at_nixos_modules(press),
            Step::SelectSystemPackages => self.key_at_system_packages(press),
            Step::CreateUser => self.key_at_create_user(press),
            Step::AddAnotherUser => self.key_at_another_user(press),
            Step::SelectHmModules => self.key_at_hm_modules(press),
            Step::SelectUserPackages => self.key_at_user_packages(press),
            Step::SelectDisk => self.key_at_disks(press),
            Step::PartitionModeSelect => self.key_at_partition_mode(press),
            Step::SwapSize => self.key_at_swap_size(press),
            Step::CustomPartitionMount => self.key_at_custom_mount(press),
            Step::CustomPartitionSize => self.key_at_custom_size(press),
            Step::CustomPartitionFs => self.key_at_custom_fs(press),
            Step::CustomPartitionAnother => self.key_at_custom_another(press),
            Step::Confirm => self.key_at_confirm(press),
            Step::Installing => self.key_at_installing(press),
            Step::RootPassword => self.key_at_root_password(press),
            Step::RootPasswordConfirm => self.key_at_root_password_confirm(press),
            Step::UserPassword => self.key_at_user_password(press),
            Step::UserPasswordConfirm => self.key_at_user_password_confirm(press),
            Step::Complete => self.key_at_complete(press),
        }
    }

    /// Takes in one key press and says what it needs from outside. Control
    /// with `c` ends the program; any key takes a message away and does
    /// nothing else; escape goes back, and ends the program where there is
    /// no way back; `q` ends the program from a list; any other key is for
    /// the current screen.
    pub fn handle_key(&mut self, press: KeyPress) -> (effect: Effect)
        ensures
            final(self)@ == old(self)@.pressed(press),
            effect == old(self)@.press_effect(press),
    {
        if press.ctrl && press.key == Key::Char('c') {
            self.should_quit = true;
            return Effect::Nothing;
        }
        if self.status_message.is_some() {
            self.status_message = None;
            return Effect::Nothing;
        }
        let step = self.step;
        if press.key == Key::Esc && !(step == Step::Installing || step == Step::Complete || step
            == Step::CloningRepo) {
            if !self.go_back() {
                self.should_quit = true;
            }
            return Effect::Nothing;
        }
        if press.key == Key::Char('q') && (step == Step::SelectPreset || step == Step::SelectDisk
            || step == Step::SelectNixosModules || step == Step::SelectHmModules || step
            == Step::SelectSystemPackages || step == Step::SelectUserPackages) {
            self.should_quit = true;
            return Effect::Nothing;
        }
        self.key_on_step(press)
    }

    /// Which of the records that are shared with workers the wizard looks
    /// at on this tick.
    pub fn watches(&self) -> (watch: Watch)
        ensures
            watch == match self@.step {
                Step::CloningRepo => Watch::Clone,
                Step::Installing => Watch::Install,
                _ => Watch::Neither,
            },
    {
        match self.step {
            Step::CloningRepo => Watch::Clone,
            Step::Installing => Watch::Install,
            _ => Watch::Neither,
        }
    }

    /// Moves on by itself where a pipeline has ended well, which is to say
    /// that it is done and has no error. After the clone the repository is
    /// to be scanned first; after the installation the root password is
    /// next, and the screen is to be shown anew. With an error set the
    /// wizard stays at the pipeline's screen.
    pub fn auto_advance(&mut self) -> (effect: Effect)
        ensures
            final(self)@ == old(self)@.auto_advanced(),
            effect == if old(self)@.clone_finished() {
                Effect::RescanRepo
            } else if old(self)@.install_finished() {
                Effect::Redraw
            } else {
                Effect::Nothing
            },
    {
        if self.step == Step::CloningRepo && self.clone_done && self.clone_error.is_none() {
            return Effect::RescanRepo;
        }
        if self.step == Step::Installing && self.install_done && self.install_error.is_none() {
            self.step = Step::RootPassword;
            return Effect::Redraw;
        }
        Effect::Nothing
    }
}

} // verus!
