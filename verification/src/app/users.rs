//! Adding users and selecting their modules.

use crate::app::laws::lemma_next_needing_same;
use crate::app::{
    next_needing, same_needs, username_accepted, username_char, username_taken, username_valid,
    with_modules, App, Effect, Step, UserEntry, UserEntryView,
};
use crate::disk::BlockDevice;
use crate::nix::{clone_modules, NixModule};
use crate::lists::{empty_list, push_deep};
use crate::text;
use vstd::prelude::*;

verus! {

fn is_username_char(c: char) -> (r: bool)
    ensures
        r == username_char(c),
{
    ('a' <= c && c <= 'z') || ('0' <= c && c <= '9') || c == '-' || c == '_'
}

/// Decides [`username_valid`].
pub fn is_valid_username(name: &str) -> (r: bool)
    ensures
        r == username_valid(name@),
{
    let v = text::chars_of(name);
    if v.len() == 0 {
        return false;
    }
    let c = v[0];
    if !(('a' <= c && c <= 'z') || c == '_') {
        return false;
    }
    let mut i: usize = 0;
    while i < v.len()
        invariant
            i <= v.len(),
            v@ == name@,
            forall|k: int| 0 <= k < i ==> username_char(#[trigger] v@[k]),
        decreases v.len() - i,
    {
        if !is_username_char(v[i]) {
            return false;
        }
        i += 1;
    }
    true
}

/// Decides [`username_taken`].
pub fn is_username_taken(users: &Vec<UserEntry>, name: &str) -> (r: bool)
    ensures
        r == username_taken(users.deep_view(), name@),
{
    let ghost all = users.deep_view();
    let mut i: usize = 0;
    while i < users.len()
        invariant
            i <= users.len(),
            all == users.deep_view(),
            forall|k: int| 0 <= k < i ==> (#[trigger] all[k]).username != name@,
        decreases users.len() - i,
    {
        if text::same_text(users[i].username.as_str(), name) {
            assert(all[i as int].username == name@);
            return true;
        }
        i += 1;
    }
    false
}

impl App {
    /// Confirms the user name that was typed, given whether the host holds
    /// a configuration for that user already. A name that is accepted adds
    /// a user, who needs no selection of modules where such a configuration
    /// exists; a name that is not leaves the field as it is and says why.
    pub fn confirm_username(&mut self, config_exists: bool)
        ensures
            final(self)@ == old(self)@.confirmed_username(config_exists),
            final(self)@.users.len() == old(self)@.users.len() + 1 <==> username_accepted(
                old(self)@.users,
                old(self)@.current_username,
            ),
            !username_accepted(old(self)@.users, old(self)@.current_username) ==> {
                &&& final(self)@.users == old(self)@.users
                &&& final(self)@.current_username == old(self)@.current_username
                &&& final(self)@.step == old(self)@.step
            },
    {
        let name = text::trim(self.current_username.as_str());
        if name.as_str().is_empty() {
            self.say("Username cannot be empty");
            return ;
        }
        if !is_valid_username(name.as_str()) {
            self.say("Username must start with a lowercase letter or underscore");
            return ;
        }
        if is_username_taken(&self.users, name.as_str()) {
            self.say("User already exists");
            return ;
        }
        self.status_message = None;
        let user = UserEntry {
            username: name,
            password: String::new(),
            hm_modules: empty_list(),
            package_modules: empty_list(),
            needs_hm_selection: !config_exists,
        };
        push_deep(&mut self.users, user);
        self.current_username = String::new();
        self.step = Step::AddAnotherUser;
    }

    /// The user name that was typed, without the white space around it.
    pub fn username_candidate(&self) -> (name: String)
        ensures
            name@ == text::trimmed(self@.current_username),
    {
        text::trim(self.current_username.as_str())
    }

    /// Whether the user name that was typed would be accepted.
    pub fn accepts_username(&self) -> (r: bool)
        ensures
            r == username_accepted(self@.users, self@.current_username),
    {
        let name = text::trim(self.current_username.as_str());
        is_valid_username(name.as_str()) && !is_username_taken(&self.users, name.as_str())
    }

    fn find_needing(&self, from: usize) -> (next: usize)
        ensures
            next == next_needing(self@.users, from as int),
            next <= self.users.len(),
            from <= self.users.len() ==> from <= next,
    {
        let ghost users = self.users.deep_view();
        let mut i: usize = from;
        while i < self.users.len()
            invariant
                from <= i,
                users == self.users.deep_view(),
                next_needing(users, from as int) == next_needing(users, i as int),
            decreases self.users.len() - i,
        {
            if self.users[i].needs_hm_selection {
                return i;
            }
            i += 1;
        }
        self.users.len()
    }

    fn advance_from(&mut self, from: usize) -> (effect: Effect)
        ensures
            final(self)@ == old(self)@.advanced_from(from as int),
            effect == old(self)@.advance_effect(from as int),
    {
        let next = self.find_needing(from);
        self.hm_user_index = next;
        if next < self.users.len() {
            self.hm_modules = empty_list();
            self.hm_cursor = 0;
            self.step = Step::SelectHmModules;
            Effect::ScanUserModules
        } else {
            self.disks = empty_list();
            self.disk_cursor = 0;
            self.step = Step::SelectDisk;
            Effect::ListDisks
        }
    }

    /// Moves the walk through the users on from the user at hand to the
    /// next for whom modules have to be selected, and to the selection of
    /// the disk where there is none. Users for whom the host holds a
    /// configuration already are passed over.
    pub fn advance_to_next_hm_user(&mut self) -> (effect: Effect)
        ensures
            final(self)@ == old(self)@.advanced_from(old(self)@.hm_user_index as int),
            effect == old(self)@.advance_effect(old(self)@.hm_user_index as int),
    {
        let from = self.hm_user_index;
        self.advance_from(from)
    }

    /// Answers the question for another user: yes leads back to the user
    /// name, no begins the walk through the users.
    pub fn confirm_another_user(&mut self) -> (effect: Effect)
        ensures
            final(self)@ == old(self)@.confirmed_another_user(),
            effect == if old(self)@.another_user_cursor == 0 {
                Effect::Nothing
            } else {
                old(self)@.advance_effect(0)
            },
    {
        if self.another_user_cursor == 0 {
            self.step = Step::CreateUser;
            self.another_user_cursor = 0;
            return Effect::Nothing;
        }
        let effect = self.advance_from(0);
        self.another_user_cursor = 0;
        effect
    }

    /// Takes in the modules and package sets that were scanned for the
    /// user at hand.
    pub fn load_user_modules(&mut self, hm_modules: Vec<NixModule>, package_modules: Vec<NixModule>)
        ensures
            final(self)@ == old(self)@.loaded_user_modules(
                hm_modules.deep_view(),
                package_modules.deep_view(),
            ),
    {
        let i = self.hm_user_index;
        if i >= self.users.len() {
            return ;
        }
        let shown = clone_modules(&hm_modules);
        let ghost before = self.users.deep_view();
        let mut user = self.users[i].clone();
        user.hm_modules = hm_modules;
        user.package_modules = package_modules;
        self.users[i] = user;
        assert(self.users.deep_view() =~= before.update(
            i as int,
            with_modules(before[i as int], hm_modules.deep_view(), package_modules.deep_view()),
        ));
        self.hm_modules = shown;
        self.hm_cursor = 0;
    }

    /// Takes in the disks that were listed, or why they could not be, and
    /// shows the selection of the disk.
    pub fn go_to_disk_selection(&mut self, listed: Result<Vec<BlockDevice>, String>)
        ensures
            final(self)@ == old(self)@.at_disk_selection(
                match listed {
                    Ok(disks) => Ok(disks.deep_view()),
                    Err(why) => Err(why@),
                },
            ),
    {
        match listed {
            Ok(disks) => {
                self.disks = disks;
            },
            Err(why) => {
                self.disks = empty_list();
                let mut msg = String::from_str("Failed to list disks: ");
                msg.append(why.as_str());
                self.status_message = Some(msg);
            },
        }
        self.disk_cursor = 0;
        self.step = Step::SelectDisk;
    }

    /// Confirms the selection of per-user modules for the user at hand.
    pub fn confirm_hm_modules(&mut self)
        ensures
            final(self)@ == old(self)@.confirmed_hm_modules(),
    {
        let i = self.hm_user_index;
        if i >= self.users.len() {
            return ;
        }
        let ghost before = self.users.deep_view();
        let mut user = self.users[i].clone();
        user.hm_modules = clone_modules(&self.hm_modules);
        let packages = clone_modules(&user.package_modules);
        self.users[i] = user;
        assert(self.users.deep_view() =~= before.update(
            i as int,
            UserEntryView { hm_modules: self.hm_modules.deep_view(), ..before[i as int] },
        ));
        self.user_pkg_modules = packages;
        self.user_pkg_cursor = 0;
        self.step = Step::SelectUserPackages;
    }

    /// Confirms the selection of package sets for the user at hand and
    /// moves the walk on.
    pub fn confirm_user_packages(&mut self) -> (effect: Effect)
        ensures
            final(self)@ == old(self)@.confirmed_user_packages(),
            effect == if old(self)@.hm_user_index < old(self)@.users.len() {
                old(self)@.advance_effect(old(self)@.hm_user_index + 1)
            } else {
                Effect::Nothing
            },
    {
        let i = self.hm_user_index;
        if i >= self.users.len() {
            return Effect::Nothing;
        }
        let ghost before = self.users.deep_view();
        let mut user = self.users[i].clone();
        user.package_modules = clone_modules(&self.user_pkg_modules);
        self.users[i] = user;
        assert(self.users.deep_view() =~= before.update(
            i as int,
            UserEntryView { package_modules: self.user_pkg_modules.deep_view(), ..before[i as int] },
        ));
        proof {
            assert(same_needs(before, self.users.deep_view()));
            lemma_next_needing_same(before, self.users.deep_view(), i + 1);
        }
        self.advance_from(i + 1)
    }
}

} // verus!
