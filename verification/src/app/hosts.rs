//! Choosing the host: a preset or a new one, and what a new one holds.

use crate::app::{App, Step};
use crate::text;
use vstd::prelude::*;

verus! {

impl App {
    pub(crate) fn prefill_username_if_empty(&mut self)
        ensures
            final(self)@ == old(self)@.prefilled(),
    {
        if self.users.len() == 0 && self.current_username.as_str().is_empty() {
            match &self.config.default_username {
                Some(name) => {
                    self.current_username = name.clone();
                },
                None => {},
            }
        }
    }

    /// Confirms the entry of the preset list that the cursor is on.
    pub fn confirm_preset_selection(&mut self)
        ensures
            final(self)@ == old(self)@.confirmed_preset(),
    {
        if self.preset_cursor > self.presets.len() {
            return ;
        }
        if self.preset_cursor == self.presets.len() {
            self.is_custom = true;
            self.step = Step::HostName;
            assert(self@ == old(self)@.confirmed_preset());
        } else {
            self.is_custom = false;
            self.host_name = self.presets[self.preset_cursor].name.clone();
            self.prefill_username_if_empty();
            self.step = Step::CreateUser;
            assert(self@ == old(self)@.confirmed_preset());
        }
    }

    /// Confirms the host name that was typed: without the white space
    /// around it, it must not be empty.
    pub fn confirm_host_name(&mut self)
        ensures
            final(self)@ == old(self)@.confirmed_host_name(),
    {
        let name = text::trim(self.host_name_input.as_str());
        if name.as_str().is_empty() {
            self.say("Host name cannot be empty");
            return ;
        }
        self.host_name = name;
        self.step = Step::SelectNixosModules;
        self.status_message = None;
    }

    /// Confirms the selection of system modules.
    pub fn confirm_nixos_modules(&mut self)
        ensures
            final(self)@ == old(self)@.at(Step::SelectSystemPackages),
    {
        self.step = Step::SelectSystemPackages;
    }

    /// Confirms the selection of system packages.
    pub fn confirm_system_packages(&mut self)
        ensures
            final(self)@ == old(self)@.prefilled().at(Step::CreateUser),
    {
        self.prefill_username_if_empty();
        self.step = Step::CreateUser;
    }
}

} // verus!
