//! What the header of each screen shows.

use crate::app::{App, AppView, Step};
use crate::text;
use vstd::prelude::*;

verus! {

/// The number of chapters that the wizard counts its screens in.
pub const TOTAL_STEPS: usize = 12;

/// The chapter that a screen belongs to, counted from one.
pub open spec fn chapter(step: Step) -> usize {
    match step {
        Step::CloningRepo => 1,
        Step::SelectPreset => 2,
        Step::HostName | Step::SelectNixosModules | Step::SelectSystemPackages => 3,
        Step::CreateUser | Step::AddAnotherUser => 4,
        Step::SelectHmModules | Step::SelectUserPackages => 5,
        Step::SelectDisk => 6,
        Step::PartitionModeSelect
        | Step::SwapSize
        | Step::CustomPartitionMount
        | Step::CustomPartitionSize
        | Step::CustomPartitionFs
        | Step::CustomPartitionAnother => 7,
        Step::Confirm => 8,
        Step::Installing => 9,
        Step::RootPassword | Step::RootPasswordConfirm => 10,
        Step::UserPassword | Step::UserPasswordConfirm => 11,
        Step::Complete => 12,
    }
}

/// The number of the user who is being added, as far as it can be counted.
pub open spec fn user_number(users: nat) -> nat {
    if users < usize::MAX {
        users + 1
    } else {
        users
    }
}

impl AppView {
    /// The title of the current screen.
    pub open spec fn title(self) -> Seq<char> {
        match self.step {
            Step::CloningRepo => "Cloning Repository"@,
            Step::SelectPreset => "Select Host Preset"@,
            Step::HostName => "Enter Host Name"@,
            Step::SelectNixosModules => "Select NixOS Modules"@,
            Step::SelectSystemPackages => "Select System Packages"@,
            Step::CreateUser => "Create User #"@ + text::decimal(user_number(self.users.len())),
            Step::UserPassword => if self.password_user_index < self.users.len() {
                "Set Password for '"@ + self.users[self.password_user_index as int].username + "'"@
            } else {
                "Set User Password"@
            },
            Step::UserPasswordConfirm => if self.password_user_index < self.users.len() {
                "Confirm Password for '"@ + self.users[self.password_user_index as int].username
                    + "'"@
            } else {
                "Confirm User Password"@
            },
            Step::AddAnotherUser => "Add Another User?"@,
            Step::SelectHmModules => "Select Home Manager Modules"@,
            Step::SelectUserPackages => "Select User Packages"@,
            Step::SelectDisk => "Select Installation Disk"@,
            Step::PartitionModeSelect => "Partition Mode"@,
            Step::SwapSize => "Swap Size"@,
            Step::CustomPartitionMount => "Partition Mount Point"@,
            Step::CustomPartitionSize => "Partition Size"@,
            Step::CustomPartitionFs => "Partition Filesystem"@,
            Step::CustomPartitionAnother => "Add Another Partition?"@,
            Step::Confirm => "Confirm Installation"@,
            Step::Installing => "Installing NixOS"@,
            Step::RootPassword => "Set Root Password"@,
            Step::RootPasswordConfirm => "Confirm Root Password"@,
            Step::Complete => "Installation Complete"@,
        }
    }

    /// The text field of the current screen, where it has one.
    pub open spec fn current_input(self) -> Option<Seq<char>> {
        match self.step {
            Step::HostName => Some(self.host_name_input),
            Step::CreateUser => Some(self.current_username),
            Step::UserPassword => Some(self.current_password),
            Step::UserPasswordConfirm => Some(self.current_password_confirm),
            Step::SwapSize => Some(self.swap_size_input),
            Step::CustomPartitionMount => Some(self.part_mount_input),
            Step::CustomPartitionSize => Some(self.part_size_input),
            Step::RootPassword => Some(self.root_password),
            Step::RootPasswordConfirm => Some(self.root_password_confirm),
            _ => None,
        }
    }
}

impl App {
    /// The chapter that the current screen belongs to, counted from one.
    pub fn step_number(&self) -> (n: usize)
        ensures
            n == chapter(self@.step),
            1 <= n <= TOTAL_STEPS,
    {
        match self.step {
            Step::CloningRepo => 1,
            Step::SelectPreset => 2,
            Step::HostName | Step::SelectNixosModules | Step::SelectSystemPackages => 3,
            Step::CreateUser | Step::AddAnotherUser => 4,
            Step::SelectHmModules | Step::SelectUserPackages => 5,
            Step::SelectDisk => 6,
            Step::PartitionModeSelect
            | Step::SwapSize
            | Step::CustomPartitionMount
            | Step::CustomPartitionSize
            | Step::CustomPartitionFs
            | Step::CustomPartitionAnother => 7,
            Step::Confirm => 8,
            Step::Installing => 9,
            Step::RootPassword | Step::RootPasswordConfirm => 10,
            Step::UserPassword | Step::UserPasswordConfirm => 11,
            Step::Complete => 12,
        }
    }

    /// The number of chapters.
    pub fn total_steps(&self) -> (n: usize)
        ensures
            n == TOTAL_STEPS,
    {
        TOTAL_STEPS
    }

    fn titled(&self, before: &str, index: usize, fallback: &str) -> (s: String)
        ensures
            s@ == if index < self@.users.len() {
                before@ + self@.users[index as int].username + "'"@
            } else {
                fallback@
            },
    {
        if index < self.users.len() {
            let mut s = String::from_str(before);
            s.append(self.users[index].username.as_str());
            s.append("'");
            s
        } else {
            String::from_str(fallback)
        }
    }

    /// The title of the current screen.
    pub fn step_title(&self) -> (s: String)
        ensures
            s@ == self@.title(),
    {
        match self.step {
            Step::CloningRepo => String::from_str("Cloning Repository"),
            Step::SelectPreset => String::from_str("Select Host Preset"),
            Step::HostName => String::from_str("Enter Host Name"),
            Step::SelectNixosModules => String::from_str("Select NixOS Modules"),
            Step::SelectSystemPackages => String::from_str("Select System Packages"),
            Step::CreateUser => {
                let users = self.users.len();
                let n: usize = if users < usize::MAX {
                    users + 1
                } else {
                    users
                };
                let mut s = String::from_str("Create User #");
                text::push_decimal(&mut s, n as u64);
                s
            },
            Step::UserPassword => self.titled(
                "Set Password for '",
                self.password_user_index,
                "Set User Password",
            ),
            Step::UserPasswordConfirm => self.titled(
                "Confirm Password for '",
                self.password_user_index,
                "Confirm User Password",
            ),
            Step::AddAnotherUser => String::from_str("Add Another User?"),
            Step::SelectHmModules => String::from_str("Select Home Manager Modules"),
            Step::SelectUserPackages => String::from_str("Select User Packages"),
            Step::SelectDisk => String::from_str("Select Installation Disk"),
            Step::PartitionModeSelect => String::from_str("Partition Mode"),
            Step::SwapSize => String::from_str("Swap Size"),
            Step::CustomPartitionMount => String::from_str("Partition Mount Point"),
            Step::CustomPartitionSize => String::from_str("Partition Size"),
            Step::CustomPartitionFs => String::from_str("Partition Filesystem"),
            Step::CustomPartitionAnother => String::from_str("Add Another Partition?"),
            Step::Confirm => String::from_str("Confirm Installation"),
            Step::Installing => String::from_str("Installing NixOS"),
            Step::RootPassword => String::from_str("Set Root Password"),
            Step::RootPasswordConfirm => String::from_str("Confirm Root Password"),
            Step::Complete => String::from_str("Installation Complete"),
        }
    }

    /// The text field of the current screen, where it has one.
    pub fn current_input_ref(&self) -> (input: Option<&str>)
        ensures
            match input {
                Some(s) => self@.current_input() == Some(s@),
                None => self@.current_input() is None,
            },
    {
        match self.step {
            Step::HostName => Some(self.host_name_input.as_str()),
            Step::CreateUser => Some(self.current_username.as_str()),
            Step::UserPassword => Some(self.current_password.as_str()),
            Step::UserPasswordConfirm => Some(self.current_password_confirm.as_str()),
            Step::SwapSize => Some(self.swap_size_input.as_str()),
            Step::CustomPartitionMount => Some(self.part_mount_input.as_str()),
            Step::CustomPartitionSize => Some(self.part_size_input.as_str()),
            Step::RootPassword => Some(self.root_password.as_str()),
            Step::RootPasswordConfirm => Some(self.root_password_confirm.as_str()),
            _ => None,
        }
    }
}

} // verus!
