//! After the installation: the passwords of root and of every user, and
//! the restart.

use crate::app::{App, AppView, Effect, Step, UserEntryView};
use crate::lists::push_deep;
use vstd::prelude::*;

verus! {

/// What is shown where the root password could not be applied.
pub open spec fn root_password_failure(why: Seq<char>) -> Seq<char> {
    "Failed to set root password: "@ + why + ". Press any key to retry."@
}

/// What is shown where the password of a user could not be applied.
pub open spec fn user_password_failure(username: Seq<char>, why: Seq<char>) -> Seq<char> {
    "Failed to set password for '"@ + username + "': "@ + why + ". Press any key to retry."@
}

/// What is logged before the password of a user is applied.
pub open spec fn user_password_notice(username: Seq<char>) -> Seq<char> {
    "Setting password for user '"@ + username + "'..."@
}

impl AppView {
    /// The state after the root password has been confirmed: it must not
    /// be empty.
    pub open spec fn confirmed_root_password(self) -> AppView {
        if self.root_password.len() == 0 {
            self.says("Root password cannot be empty"@)
        } else {
            AppView { status_message: None, step: Step::RootPasswordConfirm, ..self }
        }
    }

    /// Whether the root password and its repetition agree.
    pub open spec fn root_passwords_match(self) -> bool {
        self.root_password == self.root_password_confirm
    }

    /// The state after the repetition of the root password has been
    /// confirmed: a repetition that differs empties both fields and leads
    /// back to the password; one that agrees is about to be applied.
    pub open spec fn confirmed_root_password_confirm(self) -> AppView {
        if self.root_passwords_match() {
            AppView {
                root_password_mismatch: false,
                install_log: self.install_log.push("Setting root password..."@),
                ..self
            }
        } else {
            AppView {
                root_password_mismatch: true,
                root_password: Seq::empty(),
                root_password_confirm: Seq::empty(),
                step: Step::RootPassword,
                ..self
            }
        }
    }

    /// The state at the password of the user at hand, with empty fields,
    /// or at the end where every user has a password.
    pub open spec fn at_next_password(self) -> AppView {
        let more = self.password_user_index < self.users.len();
        AppView {
            current_password: if more {
                Seq::empty()
            } else {
                self.current_password
            },
            current_password_confirm: if more {
                Seq::empty()
            } else {
                self.current_password_confirm
            },
            password_mismatch: !more && self.password_mismatch,
            step: if more {
                Step::UserPassword
            } else {
                Step::Complete
            },
            ..self
        }
    }

    /// The state after the root password has been applied, or could not
    /// be: a failure is shown and leads back to the password, a success
    /// leads on to the passwords of the users, the first user first.
    pub open spec fn after_root_password(self, outcome: Result<(), Seq<char>>) -> AppView {
        match outcome {
            Ok(_) => AppView { password_user_index: 0, ..self }.at_next_password(),
            Err(why) => AppView {
                status_message: Some(root_password_failure(why)),
                root_password: Seq::empty(),
                root_password_confirm: Seq::empty(),
                step: Step::RootPassword,
                ..self
            },
        }
    }

    /// The state after the password of a user has been confirmed: it must
    /// not be empty.
    pub open spec fn confirmed_user_password(self) -> AppView {
        if self.current_password.len() == 0 {
            self.says("Password cannot be empty"@)
        } else {
            AppView { status_message: None, step: Step::UserPasswordConfirm, ..self }
        }
    }

    /// Whether the password of the user at hand and its repetition agree.
    pub open spec fn user_passwords_match(self) -> bool {
        self.current_password == self.current_password_confirm
    }

    /// The state after the repetition of a user's password has been
    /// confirmed: a repetition that differs empties both fields and leads
    /// back to the password; one that agrees is about to be applied.
    pub open spec fn confirmed_user_password_confirm(self) -> AppView {
        if !self.user_passwords_match() {
            AppView {
                password_mismatch: true,
                current_password: Seq::empty(),
                current_password_confirm: Seq::empty(),
                step: Step::UserPassword,
                ..self
            }
        } else if self.password_user_index < self.users.len() {
            AppView {
                password_mismatch: false,
                install_log: self.install_log.push(
                    user_password_notice(self.users[self.password_user_index as int].username),
                ),
                ..self
            }
        } else {
            self
        }
    }

    /// The state after the password of the user at hand has been applied,
    /// or could not be: a failure is shown and leads back to the password
    /// of the same user, a success keeps the password with the user and
    /// leads on to the next user.
    pub open spec fn after_user_password(self, outcome: Result<(), Seq<char>>) -> AppView {
        if self.password_user_index >= self.users.len() {
            self
        } else {
            let user = self.users[self.password_user_index as int];
            match outcome {
                Ok(_) => AppView {
                    users: self.users.update(
                        self.password_user_index as int,
                        UserEntryView { password: self.current_password, ..user },
                    ),
                    current_password: Seq::empty(),
                    current_password_confirm: Seq::empty(),
                    password_user_index: (self.password_user_index + 1) as usize,
                    ..self
                }.at_next_password(),
                Err(why) => AppView {
                    status_message: Some(user_password_failure(user.username, why)),
                    current_password: Seq::empty(),
                    current_password_confirm: Seq::empty(),
                    step: Step::UserPassword,
                    ..self
                },
            }
        }
    }
}

/// The view of how applying a password went.
pub open spec fn applied_view(outcome: Result<(), String>) -> Result<(), Seq<char>> {
    match outcome {
        Ok(_) => Ok(()),
        Err(why) => Err(why@),
    }
}

impl App {
    /// Confirms the root password that was typed.
    pub fn confirm_root_password(&mut self)
        ensures
            final(self)@ == old(self)@.confirmed_root_password(),
    {
        if self.root_password.as_str().is_empty() {
            self.say("Root password cannot be empty");
            return ;
        }
        self.status_message = None;
        self.step = Step::RootPasswordConfirm;
    }

    /// Confirms the repetition of the root password. Where it agrees with
    /// the password, the password is to be applied.
    pub fn confirm_root_password_confirm(&mut self) -> (effect: Effect)
        ensures
            final(self)@ == old(self)@.confirmed_root_password_confirm(),
            effect == if old(self)@.root_passwords_match() {
                Effect::SetRootPassword
            } else {
                Effect::Nothing
            },
    {
        if self.root_password != self.root_password_confirm {
            self.root_password_mismatch = true;
            self.root_password = String::new();
            self.root_password_confirm = String::new();
            self.step = Step::RootPassword;
            return Effect::Nothing;
        }
        self.root_password_mismatch = false;
        push_deep(&mut self.install_log, String::from_str("Setting root password..."));
        Effect::SetRootPassword
    }

    fn advance_to_next_user_password(&mut self)
        ensures
            final(self)@ == old(self)@.at_next_password(),
    {
        if self.password_user_index < self.users.len() {
            self.current_password = String::new();
            self.current_password_confirm = String::new();
            self.password_mismatch = false;
            self.step = Step::UserPassword;
        } else {
            self.step = Step::Complete;
        }
    }

    /// Takes in how applying the root password went.
    pub fn root_password_applied(&mut self, outcome: Result<(), String>)
        ensures
            final(self)@ == old(self)@.after_root_password(applied_view(outcome)),
    {
        match outcome {
            Err(why) => {
                let mut msg = String::from_str("Failed to set root password: ");
                msg.append(why.as_str());
                msg.append(". Press any key to retry.");
                self.status_message = Some(msg);
                self.root_password = String::new();
                self.root_password_confirm = String::new();
                self.step = Step::RootPassword;
            },
            Ok(_) => {
                self.password_user_index = 0;
                self.advance_to_next_user_password();
            },
        }
    }

    /// Confirms the password that was typed for the user at hand.
    pub fn confirm_user_password(&mut self)
        ensures
            final(self)@ == old(self)@.confirmed_user_password(),
    {
        if self.current_password.as_str().is_empty() {
            self.say("Password cannot be empty");
            return ;
        }
        self.status_message = None;
        self.step = Step::UserPasswordConfirm;
    }

    /// Confirms the repetition of the password of the user at hand. Where
    /// it agrees with the password, the password is to be applied.
    pub fn confirm_user_password_confirm(&mut self) -> (effect: Effect)
        ensures
            final(self)@ == old(self)@.confirmed_user_password_confirm(),
            effect == if old(self)@.user_passwords_match() && old(self)@.password_user_index
                < old(self)@.users.len() {
                Effect::SetUserPassword
            } else {
                Effect::Nothing
            },
    {
        if self.current_password != self.current_password_confirm {
            self.password_mismatch = true;
            self.current_password = String::new();
            self.current_password_confirm = String::new();
            self.step = Step::UserPassword;
            return Effect::Nothing;
        }
        if self.password_user_index >= self.users.len() {
            return Effect::Nothing;
        }
        self.password_mismatch = false;
        let mut notice = String::from_str("Setting password for user '");
        notice.append(self.users[self.password_user_index].username.as_str());
        notice.append("'...");
        push_deep(&mut self.install_log, notice);
        Effect::SetUserPassword
    }

    fn keep_password(&mut self, i: usize)
        requires
            i == old(self).password_user_index,
            i < old(self).users.len(),
        ensures
            final(self)@ == (AppView {
                users: old(self)@.users.update(
                    i as int,
                    UserEntryView {
                        password: old(self)@.current_password,
                        ..old(self)@.users[i as int]
                    },
                ),
                current_password: Seq::empty(),
                current_password_confirm: Seq::empty(),
                password_user_index: (i + 1) as usize,
                ..old(self)@
            }),
    {
        let ghost before = self.users.deep_view();
        let mut user = self.users[i].clone();
        user.password = self.current_password.clone();
        self.users[i] = user;
        assert(self.users.deep_view() =~= before.update(
            i as int,
            UserEntryView { password: self.current_password@, ..before[i as int] },
        ));
        self.current_password = String::new();
        self.current_password_confirm = String::new();
        self.password_user_index = i + 1;
    }

    fn show_password_failure(&mut self, i: usize, why: &str)
        requires
            i < old(self).users.len(),
        ensures
            final(self)@ == (AppView {
                status_message: Some(
                    user_password_failure(old(self)@.users[i as int].username, why@),
                ),
                current_password: Seq::empty(),
                current_password_confirm: Seq::empty(),
                step: Step::UserPassword,
                ..old(self)@
            }),
    {
        let mut msg = String::from_str("Failed to set password for '");
        msg.append(self.users[i].username.as_str());
        msg.append("': ");
        msg.append(why);
        msg.append(". Press any key to retry.");
        self.status_message = Some(msg);
        self.current_password = String::new();
        self.current_password_confirm = String::new();
        self.step = Step::UserPassword;
    }

    /// Takes in how applying the password of the user at hand went.
    pub fn user_password_applied(&mut self, outcome: Result<(), String>)
        ensures
            final(self)@ == old(self)@.after_user_password(applied_view(outcome)),
    {
        let i = self.password_user_index;
        if i >= self.users.len() {
            return ;
        }
        let ghost before = self@;
        match outcome {
            Err(why) => {
                self.show_password_failure(i, why.as_str());
                assert(self@ == before.after_user_password(Err(why@)));
            },
            Ok(_) => {
                self.keep_password(i);
                let ghost kept = self@;
                self.advance_to_next_user_password();
                assert(self@ == kept.at_next_password());
                assert(before.after_user_password(Ok(())) == kept.at_next_password());
            },
        }
    }

    /// Answers the question for a restart. Either way the program ends.
    pub fn confirm_reboot(&mut self) -> (effect: Effect)
        ensures
            final(self)@ == (AppView { should_quit: true, ..old(self)@ }),
            effect == if old(self)@.reboot_cursor == 0 {
                Effect::Reboot
            } else {
                Effect::Nothing
            },
    {
        self.should_quit = true;
        if self.reboot_cursor == 0 {
            Effect::Reboot
        } else {
            Effect::Nothing
        }
    }
}

} // verus!
