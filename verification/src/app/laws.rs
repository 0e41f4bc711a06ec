//! What holds of the wizard as a whole: statements about several of its
//! operations at once.

use crate::app::keys::{Key, KeyPress};
use crate::app::setup::{started, RepoScanView};
use crate::app::titles::chapter;
use crate::app::{
    distinct_usernames, keeps_users, next_needing, route, same_needs, username_accepted,
    AppView, Effect, Shared, Step, UserEntryView,
};
use crate::clone::CloneState;
use crate::config::InstallerConfigView;
use crate::disk::{
    has_root, lemma_full_disk_layout, lemma_plan_extent_push, plan_extent, plan_fits, plan_valid,
    BlockDeviceView,
};
use crate::install::InstallState;
use crate::nix::NixModuleView;
use crate::text;
use crate::theme::Theme;
use vstd::prelude::*;

verus! {

/// The walk through the users moves on to the first user, from where it
/// looks, for whom modules have to be selected: every user before that one
/// needs no selection and is passed over.
pub proof fn lemma_next_needing(users: Seq<UserEntryView>, from: int)
    requires
        0 <= from,
    ensures
        from <= users.len() ==> from <= next_needing(users, from) <= users.len(),
        from > users.len() ==> next_needing(users, from) == users.len(),
        forall|k: int| from <= k < next_needing(users, from) ==> !users[k].needs_hm_selection,
        next_needing(users, from) < users.len() ==> users[next_needing(
            users,
            from,
        )].needs_hm_selection,
    decreases users.len() - from,
{
    if from < users.len() && !users[from].needs_hm_selection {
        lemma_next_needing(users, from + 1);
    }
}

/// Where the walk looks for the next user depends on nothing but who needs
/// a selection.
pub proof fn lemma_next_needing_same(a: Seq<UserEntryView>, b: Seq<UserEntryView>, from: int)
    requires
        0 <= from,
        same_needs(a, b),
    ensures
        next_needing(a, from) == next_needing(b, from),
    decreases a.len() - from,
{
    if from < a.len() && !a[from].needs_hm_selection {
        lemma_next_needing_same(a, b, from + 1);
    }
}

/// The walk stops at a user if and only if modules have to be selected for
/// that user, and it stops at each such user once, in the order in which
/// the users were added.
pub proof fn lemma_route(users: Seq<UserEntryView>, from: int)
    requires
        0 <= from,
    ensures
        forall|k: int|
            from <= k < users.len() ==> (route(users, from).contains(k)
                <==> users[k].needs_hm_selection),
        forall|i: int|
            0 <= i < route(users, from).len() ==> from <= #[trigger] route(users, from)[i]
                < users.len(),
        forall|i: int, j: int|
            0 <= i < j < route(users, from).len() ==> route(users, from)[i] < route(
                users,
                from,
            )[j],
    decreases users.len() - from,
{
    let r = route(users, from);
    if from < users.len() {
        lemma_route(users, from + 1);
        let rest = route(users, from + 1);
        if users[from].needs_hm_selection {
            assert(r == seq![from] + rest);
            assert(r[0] == from);
            assert forall|k: int| from <= k < users.len() implies (r.contains(k)
                <==> users[k].needs_hm_selection) by {
                if k > from {
                    if rest.contains(k) {
                        let i = choose|i: int| 0 <= i < rest.len() && rest[i] == k;
                        assert(r[i + 1] == k);
                    }
                    if r.contains(k) {
                        let i = choose|i: int| 0 <= i < r.len() && r[i] == k;
                        assert(rest[i - 1] == k);
                    }
                }
            }
            assert forall|i: int| 0 <= i < r.len() implies from <= #[trigger] r[i]
                < users.len() by {
                if i > 0 {
                    assert(r[i] == rest[i - 1]);
                }
            }
            assert forall|i: int, j: int| 0 <= i < j < r.len() implies r[i] < r[j] by {
                assert(r[j] == rest[j - 1]);
                if i > 0 {
                    assert(r[i] == rest[i - 1]);
                }
            }
        } else {
            assert(r == rest);
            assert forall|k: int| from <= k < users.len() implies (r.contains(k)
                <==> users[k].needs_hm_selection) by {
                if k == from && r.contains(k) {
                    let i = choose|i: int| 0 <= i < r.len() && r[i] == k;
                    assert(from + 1 <= rest[i]);
                }
            }
        }
    }
}

/// The next stop of the walk is the first user of its route.
pub proof fn lemma_route_begins(users: Seq<UserEntryView>, from: int)
    requires
        0 <= from,
    ensures
        next_needing(users, from) < users.len() ==> route(users, from) == seq![
            next_needing(users, from),
        ] + route(users, next_needing(users, from) + 1),
        next_needing(users, from) >= users.len() ==> route(users, from) == Seq::<int>::empty(),
    decreases users.len() - from,
{
    if from < users.len() && !users[from].needs_hm_selection {
        lemma_route_begins(users, from + 1);
    }
}

/// One stop of the walk: from the selection of modules for a user, the
/// confirmation leads to the selection of package sets for the same user
/// and nowhere else, and the confirmation of that to the next stop of the
/// walk, which is a later user who needs a selection or, where there is
/// none, the selection of the disk. Between two stops no user is shown who
/// needs no selection, and who needs one does not change on the way.
pub proof fn lemma_walk_stop(v: AppView)
    requires
        v.users.len() <= usize::MAX,
        v.step == Step::SelectHmModules,
        v.hm_user_index < v.users.len(),
    ensures
        v.confirmed_hm_modules().step == Step::SelectUserPackages,
        v.confirmed_hm_modules().hm_user_index == v.hm_user_index,
        same_needs(v.users, v.confirmed_hm_modules().users),
        same_needs(v.users, v.confirmed_hm_modules().confirmed_user_packages().users),
        v.confirmed_hm_modules().confirmed_user_packages().hm_user_index == next_needing(
            v.users,
            v.hm_user_index + 1,
        ),
        v.hm_user_index < next_needing(v.users, v.hm_user_index + 1) <= v.users.len(),
        next_needing(v.users, v.hm_user_index + 1) < v.users.len() ==> v.confirmed_hm_modules().confirmed_user_packages().step
            == Step::SelectHmModules && v.users[next_needing(
            v.users,
            v.hm_user_index + 1,
        )].needs_hm_selection,
        next_needing(v.users, v.hm_user_index + 1) == v.users.len()
            ==> v.confirmed_hm_modules().confirmed_user_packages().step == Step::SelectDisk,
        forall|k: int|
            v.hm_user_index < k < next_needing(v.users, v.hm_user_index + 1)
                ==> !v.users[k].needs_hm_selection,
{
    let at = v.hm_user_index as int;
    let modules_done = v.confirmed_hm_modules();
    assert(modules_done.users == v.users.update(
        at,
        UserEntryView { hm_modules: v.hm_modules, ..v.users[at] },
    ));
    assert(same_needs(v.users, modules_done.users));
    let saved = AppView {
        users: modules_done.users.update(
            at,
            UserEntryView { package_modules: modules_done.user_pkg_modules, ..modules_done.users[at] },
        ),
        ..modules_done
    };
    assert(same_needs(v.users, saved.users));
    let packages_done = modules_done.confirmed_user_packages();
    assert(packages_done == saved.advanced_from(at + 1));
    lemma_next_needing_same(v.users, saved.users, at + 1);
    lemma_next_needing(v.users, at + 1);
    assert(packages_done.users == saved.users);
}

/// The walk begins, once the question for another user has been answered
/// with no, at the first user who needs a selection of modules, and at the
/// selection of the disk where no user needs one.
pub proof fn lemma_walk_begins(v: AppView)
    requires
        v.users.len() <= usize::MAX,
        v.another_user_cursor != 0,
    ensures
        v.confirmed_another_user().users == v.users,
        v.confirmed_another_user().hm_user_index == next_needing(v.users, 0),
        next_needing(v.users, 0) < v.users.len() ==> v.confirmed_another_user().step
            == Step::SelectHmModules && v.users[next_needing(v.users, 0)].needs_hm_selection,
        next_needing(v.users, 0) >= v.users.len() ==> v.confirmed_another_user().step
            == Step::SelectDisk,
        forall|k: int| 0 <= k < next_needing(v.users, 0) ==> !v.users[k].needs_hm_selection,
{
    lemma_next_needing(v.users, 0);
    let walked = v.advanced_from(0);
    assert(walked.users == v.users);
    assert(v.confirmed_another_user() == AppView { another_user_cursor: 0, ..walked });
}


/// A user name is accepted if and only if, without the white space around
/// it, it is not empty, begins with a lowercase letter or an underscore,
/// holds nothing but lowercase letters, digits, hyphens and underscores,
/// and is the name of no user yet. A name that is accepted adds one user,
/// last in the list, with that name; one that is not leaves the users, the
/// field and the screen as they are.
pub proof fn lemma_username_acceptance(v: AppView, config_exists: bool)
    ensures
        username_accepted(v.users, v.current_username) <==> {
            let name = text::trimmed(v.current_username);
            &&& name.len() > 0
            &&& ('a' <= name[0] <= 'z' || name[0] == '_')
            &&& forall|i: int|
                0 <= i < name.len() ==> ('a' <= #[trigger] name[i] <= 'z' || '0' <= name[i] <= '9'
                    || name[i] == '-' || name[i] == '_')
            &&& forall|i: int| 0 <= i < v.users.len() ==> (#[trigger] v.users[i]).username != name
        },
        username_accepted(v.users, v.current_username) ==> {
            let after = v.confirmed_username(config_exists);
            &&& after.users == v.users.push(after.users.last())
            &&& after.users.last().username == text::trimmed(v.current_username)
            &&& after.users.last().needs_hm_selection == !config_exists
            &&& after.step == Step::AddAnotherUser
        },
        !username_accepted(v.users, v.current_username) ==> {
            let after = v.confirmed_username(config_exists);
            &&& after.users == v.users
            &&& after.current_username == v.current_username
            &&& after.step == v.step
            &&& after.status_message is Some
        },
        distinct_usernames(v.users) ==> distinct_usernames(v.confirmed_username(config_exists).users),
{
    let name = text::trimmed(v.current_username);
    if username_accepted(v.users, v.current_username) {
        let after = v.confirmed_username(config_exists);
        assert(after.users.last() == after.users[v.users.len() as int]);
        if distinct_usernames(v.users) {
            assert forall|i: int, j: int|
                0 <= i < after.users.len() && 0 <= j < after.users.len() && (
                #[trigger] after.users[i]).username == (#[trigger] after.users[j]).username implies i
                == j by {
                if i < v.users.len() {
                    assert(after.users[i] == v.users[i]);
                }
                if j < v.users.len() {
                    assert(after.users[j] == v.users[j]);
                }
            }
        }
    }
}

/// No installation without a root partition: a plan that holds no
/// partition to mount at `/` is refused when the summary is confirmed. The
/// wizard stays where it is, says why, and asks for nothing to be started.
pub proof fn lemma_install_needs_root(v: AppView)
    requires
        !has_root(v.partitions),
        v.confirm_cursor == 0,
    ensures
        v.confirmed_install().step == v.step,
        v.confirmed_install().status_message is Some,
        v.confirmed_install() == v.says(v.confirmed_install().status_message->0),
        !v.install_allowed(),
        v.step == Step::Confirm && v.status_message is None ==> v.press_effect(
            KeyPress { key: Key::Enter, ctrl: false },
        ) == Effect::Nothing,
{
}

/// No installation on a plan that is not valid: a plan with no partition
/// to mount at `/`, with more than one, or with a partition before the last
/// that leaves its size open is refused when the summary is confirmed. The
/// wizard stays where it is, says why, and asks for nothing to be started.
pub proof fn lemma_install_needs_valid_plan(v: AppView)
    requires
        !plan_valid(v.partitions),
        v.confirm_cursor == 0,
    ensures
        v.confirmed_install().step == v.step,
        v.confirmed_install().status_message is Some,
        v.confirmed_install() == v.says(v.confirmed_install().status_message->0),
        !v.install_allowed(),
        v.step == Step::Confirm && v.status_message is None ==> v.press_effect(
            KeyPress { key: Key::Enter, ctrl: false },
        ) == Effect::Nothing,
{
}

/// The installation begins on a valid plan: where the operator chose to
/// install and the plan is valid, confirming the summary leads to the
/// installation and asks for it to be started.
pub proof fn lemma_valid_plan_installs(v: AppView)
    requires
        plan_valid(v.partitions),
        v.confirm_cursor == 0,
    ensures
        v.confirmed_install() == v.at(Step::Installing),
        v.install_allowed(),
{
}

/// No way back after a commit: from a screen that follows the adding of a
/// user or of a partition, "back" is refused and changes nothing, and the
/// escape key ends the program without touching what was entered.
pub proof fn lemma_no_way_back(v: AppView)
    requires
        v.after_commit(),
    ensures
        v.back_target() is None,
        v.gone_back() == v,
        v.status_message is None ==> v.pressed(KeyPress { key: Key::Esc, ctrl: false })
            == v.quitting(),
{
}

/// Going back moves to another screen and changes nothing else.
pub proof fn lemma_back_only_moves(v: AppView)
    ensures
        v.gone_back() == v.at(v.gone_back().step),
        v.back_target() is Some ==> v.gone_back().step == v.back_target()->0,
        v.back_target() is None ==> v.gone_back() == v,
{
}

/// A list of users in which one user is replaced by one of the same name
/// has distinct names if it had them before.
pub proof fn lemma_distinct_after_update(users: Seq<UserEntryView>, at: int, user: UserEntryView)
    requires
        0 <= at < users.len(),
        user.username == users[at].username,
        distinct_usernames(users),
    ensures
        distinct_usernames(users.update(at, user)),
{
    let after = users.update(at, user);
    assert forall|i: int, j: int|
        0 <= i < after.len() && 0 <= j < after.len() && (#[trigger] after[i]).username == (
        #[trigger] after[j]).username implies i == j by {
        assert(after[i].username == users[i].username);
        assert(after[j].username == users[j].username);
    }
}

/// The wizard begins in a state of which all holds that holds of every
/// state that it reaches.
pub proof fn lemma_begins_well(
    base_path: Option<Seq<char>>,
    repo_url: Option<Seq<char>>,
    config: InstallerConfigView,
    theme: Theme,
    scan: RepoScanView,
)
    ensures
        started(base_path, repo_url, config, theme, scan).wf(),
{
    let v = started(base_path, repo_url, config, theme, scan);
    assert(v.partitions == Seq::<crate::disk::PartitionPlanView>::empty());
    reveal_with_fuel(plan_extent, 1);
}

/// The answer to the look-up of a user keeps what holds of every state
/// that the wizard reaches.
pub proof fn lemma_username_keeps_wf(v: AppView, config_exists: bool)
    requires
        v.wf(),
    ensures
        v.confirmed_username(config_exists).wf(),
{
    lemma_username_acceptance(v, config_exists);
}

/// The modules that were scanned for a user keep what holds of every
/// state that the wizard reaches.
pub proof fn lemma_modules_keep_wf(
    v: AppView,
    hm_modules: Seq<NixModuleView>,
    package_modules: Seq<NixModuleView>,
)
    requires
        v.wf(),
    ensures
        v.loaded_user_modules(hm_modules, package_modules).wf(),
{
    if v.hm_user_index < v.users.len() {
        lemma_distinct_after_update(
            v.users,
            v.hm_user_index as int,
            crate::app::with_modules(v.users[v.hm_user_index as int], hm_modules, package_modules),
        );
    }
}

/// The disks that were listed keep what holds of every state that the
/// wizard reaches.
pub proof fn lemma_disks_keep_wf(v: AppView, listed: Result<Seq<BlockDeviceView>, Seq<char>>)
    requires
        v.wf(),
    ensures
        v.at_disk_selection(listed).wf(),
{
}

/// How applying a password went keeps what holds of every state that the
/// wizard reaches.
pub proof fn lemma_passwords_keep_wf(v: AppView, applied: Result<(), Seq<char>>)
    requires
        v.wf(),
        v.bounded(),
    ensures
        v.after_root_password(applied).wf(),
        v.after_user_password(applied).wf(),
{
    if v.password_user_index < v.users.len() {
        lemma_distinct_after_update(
            v.users,
            v.password_user_index as int,
            UserEntryView {
                password: v.current_password,
                ..v.users[v.password_user_index as int]
            },
        );
    }
}

/// The scan of a repository that was cloned, a look at a pipeline's
/// record, and moving on after a pipeline keep what holds of every state
/// that the wizard reaches.
pub proof fn lemma_progress_keeps_wf(
    v: AppView,
    scan: RepoScanView,
    cloning: Shared<CloneState>,
    installing: Shared<InstallState>,
)
    requires
        v.wf(),
    ensures
        v.finished_clone(scan).wf(),
        v.synced_clone(cloning).wf(),
        v.synced_install(installing).wf(),
        v.auto_advanced().wf(),
{
}


proof fn lemma_key_at_cloning_repo(v: AppView, press: KeyPress)
    requires
        v.wf(),
        v.bounded(),
        v.step == Step::CloningRepo,
    ensures
        v.step_key(press).wf(),
        keeps_users(v.users, v.step_key(press).users),
        v.step_key(press).step == Step::Installing ==> v.step == Step::Installing || (v.step
            == Step::Confirm && plan_valid(v.partitions)),
        v.step_key(press).step == Step::RootPassword ==> v.step == Step::RootPassword || v.step
            == Step::RootPasswordConfirm || (v.step == Step::Installing && v.install_done && v.install_error is None),
        chapter(v.step) >= 9 ==> chapter(v.step_key(press).step) >= 9,
{
}

proof fn lemma_key_at_select_preset(v: AppView, press: KeyPress)
    requires
        v.wf(),
        v.bounded(),
        v.step == Step::SelectPreset,
    ensures
        v.step_key(press).wf(),
        keeps_users(v.users, v.step_key(press).users),
        v.step_key(press).step == Step::Installing ==> v.step == Step::Installing || (v.step
            == Step::Confirm && plan_valid(v.partitions)),
        v.step_key(press).step == Step::RootPassword ==> v.step == Step::RootPassword || v.step
            == Step::RootPasswordConfirm || (v.step == Step::Installing && v.install_done && v.install_error is None),
        chapter(v.step) >= 9 ==> chapter(v.step_key(press).step) >= 9,
{
}

proof fn lemma_key_at_host_name(v: AppView, press: KeyPress)
    requires
        v.wf(),
        v.bounded(),
        v.step == Step::HostName,
    ensures
        v.step_key(press).wf(),
        keeps_users(v.users, v.step_key(press).users),
        v.step_key(press).step == Step::Installing ==> v.step == Step::Installing || (v.step
            == Step::Confirm && plan_valid(v.partitions)),
        v.step_key(press).step == Step::RootPassword ==> v.step == Step::RootPassword || v.step
            == Step::RootPasswordConfirm || (v.step == Step::Installing && v.install_done && v.install_error is None),
        chapter(v.step) >= 9 ==> chapter(v.step_key(press).step) >= 9,
{
}

proof fn lemma_key_at_select_nixos_modules(v: AppView, press: KeyPress)
    requires
        v.wf(),
        v.bounded(),
        v.step == Step::SelectNixosModules,
    ensures
        v.step_key(press).wf(),
        keeps_users(v.users, v.step_key(press).users),
        v.step_key(press).step == Step::Installing ==> v.step == Step::Installing || (v.step
            == Step::Confirm && plan_valid(v.partitions)),
        v.step_key(press).step == Step::RootPassword ==> v.step == Step::RootPassword || v.step
            == Step::RootPasswordConfirm || (v.step == Step::Installing && v.install_done && v.install_error is None),
        chapter(v.step) >= 9 ==> chapter(v.step_key(press).step) >= 9,
{
}

proof fn lemma_key_at_select_system_packages(v: AppView, press: KeyPress)
    requires
        v.wf(),
        v.bounded(),
        v.step == Step::SelectSystemPackages,
    ensures
        v.step_key(press).wf(),
        keeps_users(v.users, v.step_key(press).users),
        v.step_key(press).step == Step::Installing ==> v.step == Step::Installing || (v.step
            == Step::Confirm && plan_valid(v.partitions)),
        v.step_key(press).step == Step::RootPassword ==> v.step == Step::RootPassword || v.step
            == Step::RootPasswordConfirm || (v.step == Step::Installing && v.install_done && v.install_error is None),
        chapter(v.step) >= 9 ==> chapter(v.step_key(press).step) >= 9,
{
}

proof fn lemma_key_at_create_user(v: AppView, press: KeyPress)
    requires
        v.wf(),
        v.bounded(),
        v.step == Step::CreateUser,
    ensures
        v.step_key(press).wf(),
        keeps_users(v.users, v.step_key(press).users),
        v.step_key(press).step == Step::Installing ==> v.step == Step::Installing || (v.step
            == Step::Confirm && plan_valid(v.partitions)),
        v.step_key(press).step == Step::RootPassword ==> v.step == Step::RootPassword || v.step
            == Step::RootPasswordConfirm || (v.step == Step::Installing && v.install_done && v.install_error is None),
        chapter(v.step) >= 9 ==> chapter(v.step_key(press).step) >= 9,
{
    lemma_username_acceptance(v, false);
}

proof fn lemma_key_at_add_another_user(v: AppView, press: KeyPress)
    requires
        v.wf(),
        v.bounded(),
        v.step == Step::AddAnotherUser,
    ensures
        v.step_key(press).wf(),
        keeps_users(v.users, v.step_key(press).users),
        v.step_key(press).step == Step::Installing ==> v.step == Step::Installing || (v.step
            == Step::Confirm && plan_valid(v.partitions)),
        v.step_key(press).step == Step::RootPassword ==> v.step == Step::RootPassword || v.step
            == Step::RootPasswordConfirm || (v.step == Step::Installing && v.install_done && v.install_error is None),
        chapter(v.step) >= 9 ==> chapter(v.step_key(press).step) >= 9,
{
    lemma_next_needing(v.users, 0);
}

proof fn lemma_key_at_select_hm_modules(v: AppView, press: KeyPress)
    requires
        v.wf(),
        v.bounded(),
        v.step == Step::SelectHmModules,
    ensures
        v.step_key(press).wf(),
        keeps_users(v.users, v.step_key(press).users),
        v.step_key(press).step == Step::Installing ==> v.step == Step::Installing || (v.step
            == Step::Confirm && plan_valid(v.partitions)),
        v.step_key(press).step == Step::RootPassword ==> v.step == Step::RootPassword || v.step
            == Step::RootPasswordConfirm || (v.step == Step::Installing && v.install_done && v.install_error is None),
        chapter(v.step) >= 9 ==> chapter(v.step_key(press).step) >= 9,
{
    if v.hm_user_index < v.users.len() {
        lemma_distinct_after_update(
            v.users,
            v.hm_user_index as int,
            UserEntryView { hm_modules: v.hm_modules, ..v.users[v.hm_user_index as int] },
        );
    }
}

proof fn lemma_key_at_select_user_packages(v: AppView, press: KeyPress)
    requires
        v.wf(),
        v.bounded(),
        v.step == Step::SelectUserPackages,
    ensures
        v.step_key(press).wf(),
        keeps_users(v.users, v.step_key(press).users),
        v.step_key(press).step == Step::Installing ==> v.step == Step::Installing || (v.step
            == Step::Confirm && plan_valid(v.partitions)),
        v.step_key(press).step == Step::RootPassword ==> v.step == Step::RootPassword || v.step
            == Step::RootPasswordConfirm || (v.step == Step::Installing && v.install_done && v.install_error is None),
        chapter(v.step) >= 9 ==> chapter(v.step_key(press).step) >= 9,
{
    if v.hm_user_index < v.users.len() {
        let user = UserEntryView {
            package_modules: v.user_pkg_modules,
            ..v.users[v.hm_user_index as int]
        };
        lemma_distinct_after_update(v.users, v.hm_user_index as int, user);
        lemma_next_needing(v.users.update(v.hm_user_index as int, user), v.hm_user_index + 1);
    }
}

proof fn lemma_key_at_select_disk(v: AppView, press: KeyPress)
    requires
        v.wf(),
        v.bounded(),
        v.step == Step::SelectDisk,
    ensures
        v.step_key(press).wf(),
        keeps_users(v.users, v.step_key(press).users),
        v.step_key(press).step == Step::Installing ==> v.step == Step::Installing || (v.step
            == Step::Confirm && plan_valid(v.partitions)),
        v.step_key(press).step == Step::RootPassword ==> v.step == Step::RootPassword || v.step
            == Step::RootPasswordConfirm || (v.step == Step::Installing && v.install_done && v.install_error is None),
        chapter(v.step) >= 9 ==> chapter(v.step_key(press).step) >= 9,
{
}

proof fn lemma_key_at_partition_mode_select(v: AppView, press: KeyPress)
    requires
        v.wf(),
        v.bounded(),
        v.step == Step::PartitionModeSelect,
    ensures
        v.step_key(press).wf(),
        keeps_users(v.users, v.step_key(press).users),
        v.step_key(press).step == Step::Installing ==> v.step == Step::Installing || (v.step
            == Step::Confirm && plan_valid(v.partitions)),
        v.step_key(press).step == Step::RootPassword ==> v.step == Step::RootPassword || v.step
            == Step::RootPasswordConfirm || (v.step == Step::Installing && v.install_done && v.install_error is None),
        chapter(v.step) >= 9 ==> chapter(v.step_key(press).step) >= 9,
{
    reveal_with_fuel(plan_extent, 1);
}

proof fn lemma_key_at_swap_size(v: AppView, press: KeyPress)
    requires
        v.wf(),
        v.bounded(),
        v.step == Step::SwapSize,
    ensures
        v.step_key(press).wf(),
        keeps_users(v.users, v.step_key(press).users),
        v.step_key(press).step == Step::Installing ==> v.step == Step::Installing || (v.step
            == Step::Confirm && plan_valid(v.partitions)),
        v.step_key(press).step == Step::RootPassword ==> v.step == Step::RootPassword || v.step
            == Step::RootPasswordConfirm || (v.step == Step::Installing && v.install_done && v.install_error is None),
        chapter(v.step) >= 9 ==> chapter(v.step_key(press).step) >= 9,
{
    lemma_swap_size_fits(v);
}

proof fn lemma_key_at_custom_partition_mount(v: AppView, press: KeyPress)
    requires
        v.wf(),
        v.bounded(),
        v.step == Step::CustomPartitionMount,
    ensures
        v.step_key(press).wf(),
        keeps_users(v.users, v.step_key(press).users),
        v.step_key(press).step == Step::Installing ==> v.step == Step::Installing || (v.step
            == Step::Confirm && plan_valid(v.partitions)),
        v.step_key(press).step == Step::RootPassword ==> v.step == Step::RootPassword || v.step
            == Step::RootPasswordConfirm || (v.step == Step::Installing && v.install_done && v.install_error is None),
        chapter(v.step) >= 9 ==> chapter(v.step_key(press).step) >= 9,
{
}

proof fn lemma_key_at_custom_partition_size(v: AppView, press: KeyPress)
    requires
        v.wf(),
        v.bounded(),
        v.step == Step::CustomPartitionSize,
    ensures
        v.step_key(press).wf(),
        keeps_users(v.users, v.step_key(press).users),
        v.step_key(press).step == Step::Installing ==> v.step == Step::Installing || (v.step
            == Step::Confirm && plan_valid(v.partitions)),
        v.step_key(press).step == Step::RootPassword ==> v.step == Step::RootPassword || v.step
            == Step::RootPasswordConfirm || (v.step == Step::Installing && v.install_done && v.install_error is None),
        chapter(v.step) >= 9 ==> chapter(v.step_key(press).step) >= 9,
{
}

proof fn lemma_key_at_custom_partition_fs(v: AppView, press: KeyPress)
    requires
        v.wf(),
        v.bounded(),
        v.step == Step::CustomPartitionFs,
    ensures
        v.step_key(press).wf(),
        keeps_users(v.users, v.step_key(press).users),
        v.step_key(press).step == Step::Installing ==> v.step == Step::Installing || (v.step
            == Step::Confirm && plan_valid(v.partitions)),
        v.step_key(press).step == Step::RootPassword ==> v.step == Step::RootPassword || v.step
            == Step::RootPasswordConfirm || (v.step == Step::Installing && v.install_done && v.install_error is None),
        chapter(v.step) >= 9 ==> chapter(v.step_key(press).step) >= 9,
{
    lemma_custom_fs_fits(v);
}

proof fn lemma_key_at_custom_partition_another(v: AppView, press: KeyPress)
    requires
        v.wf(),
        v.bounded(),
        v.step == Step::CustomPartitionAnother,
    ensures
        v.step_key(press).wf(),
        keeps_users(v.users, v.step_key(press).users),
        v.step_key(press).step == Step::Installing ==> v.step == Step::Installing || (v.step
            == Step::Confirm && plan_valid(v.partitions)),
        v.step_key(press).step == Step::RootPassword ==> v.step == Step::RootPassword || v.step
            == Step::RootPasswordConfirm || (v.step == Step::Installing && v.install_done && v.install_error is None),
        chapter(v.step) >= 9 ==> chapter(v.step_key(press).step) >= 9,
{
}

proof fn lemma_key_at_confirm(v: AppView, press: KeyPress)
    requires
        v.wf(),
        v.bounded(),
        v.step == Step::Confirm,
    ensures
        v.step_key(press).wf(),
        keeps_users(v.users, v.step_key(press).users),
        v.step_key(press).step == Step::Installing ==> v.step == Step::Installing || (v.step
            == Step::Confirm && plan_valid(v.partitions)),
        v.step_key(press).step == Step::RootPassword ==> v.step == Step::RootPassword || v.step
            == Step::RootPasswordConfirm || (v.step == Step::Installing && v.install_done && v.install_error is None),
        chapter(v.step) >= 9 ==> chapter(v.step_key(press).step) >= 9,
{
}

proof fn lemma_key_at_installing(v: AppView, press: KeyPress)
    requires
        v.wf(),
        v.bounded(),
        v.step == Step::Installing,
    ensures
        v.step_key(press).wf(),
        keeps_users(v.users, v.step_key(press).users),
        v.step_key(press).step == Step::Installing ==> v.step == Step::Installing || (v.step
            == Step::Confirm && plan_valid(v.partitions)),
        v.step_key(press).step == Step::RootPassword ==> v.step == Step::RootPassword || v.step
            == Step::RootPasswordConfirm || (v.step == Step::Installing && v.install_done && v.install_error is None),
        chapter(v.step) >= 9 ==> chapter(v.step_key(press).step) >= 9,
{
}

proof fn lemma_key_at_root_password(v: AppView, press: KeyPress)
    requires
        v.wf(),
        v.bounded(),
        v.step == Step::RootPassword,
    ensures
        v.step_key(press).wf(),
        keeps_users(v.users, v.step_key(press).users),
        v.step_key(press).step == Step::Installing ==> v.step == Step::Installing || (v.step
            == Step::Confirm && plan_valid(v.partitions)),
        v.step_key(press).step == Step::RootPassword ==> v.step == Step::RootPassword || v.step
            == Step::RootPasswordConfirm || (v.step == Step::Installing && v.install_done && v.install_error is None),
        chapter(v.step) >= 9 ==> chapter(v.step_key(press).step) >= 9,
{
}

proof fn lemma_key_at_root_password_confirm(v: AppView, press: KeyPress)
    requires
        v.wf(),
        v.bounded(),
        v.step == Step::RootPasswordConfirm,
    ensures
        v.step_key(press).wf(),
        keeps_users(v.users, v.step_key(press).users),
        v.step_key(press).step == Step::Installing ==> v.step == Step::Installing || (v.step
            == Step::Confirm && plan_valid(v.partitions)),
        v.step_key(press).step == Step::RootPassword ==> v.step == Step::RootPassword || v.step
            == Step::RootPasswordConfirm || (v.step == Step::Installing && v.install_done && v.install_error is None),
        chapter(v.step) >= 9 ==> chapter(v.step_key(press).step) >= 9,
{
}

proof fn lemma_key_at_user_password(v: AppView, press: KeyPress)
    requires
        v.wf(),
        v.bounded(),
        v.step == Step::UserPassword,
    ensures
        v.step_key(press).wf(),
        keeps_users(v.users, v.step_key(press).users),
        v.step_key(press).step == Step::Installing ==> v.step == Step::Installing || (v.step
            == Step::Confirm && plan_valid(v.partitions)),
        v.step_key(press).step == Step::RootPassword ==> v.step == Step::RootPassword || v.step
            == Step::RootPasswordConfirm || (v.step == Step::Installing && v.install_done && v.install_error is None),
        chapter(v.step) >= 9 ==> chapter(v.step_key(press).step) >= 9,
{
}

proof fn lemma_key_at_user_password_confirm(v: AppView, press: KeyPress)
    requires
        v.wf(),
        v.bounded(),
        v.step == Step::UserPasswordConfirm,
    ensures
        v.step_key(press).wf(),
        keeps_users(v.users, v.step_key(press).users),
        v.step_key(press).step == Step::Installing ==> v.step == Step::Installing || (v.step
            == Step::Confirm && plan_valid(v.partitions)),
        v.step_key(press).step == Step::RootPassword ==> v.step == Step::RootPassword || v.step
            == Step::RootPasswordConfirm || (v.step == Step::Installing && v.install_done && v.install_error is None),
        chapter(v.step) >= 9 ==> chapter(v.step_key(press).step) >= 9,
{
}

proof fn lemma_key_at_complete(v: AppView, press: KeyPress)
    requires
        v.wf(),
        v.bounded(),
        v.step == Step::Complete,
    ensures
        v.step_key(press).wf(),
        keeps_users(v.users, v.step_key(press).users),
        v.step_key(press).step == Step::Installing ==> v.step == Step::Installing || (v.step
            == Step::Confirm && plan_valid(v.partitions)),
        v.step_key(press).step == Step::RootPassword ==> v.step == Step::RootPassword || v.step
            == Step::RootPasswordConfirm || (v.step == Step::Installing && v.install_done && v.install_error is None),
        chapter(v.step) >= 9 ==> chapter(v.step_key(press).step) >= 9,
{
}

/// A key on the current screen keeps what holds of every state that the
/// wizard reaches.
pub proof fn lemma_step_key_keeps_wf(v: AppView, press: KeyPress)
    requires
        v.wf(),
        v.bounded(),
    ensures
        v.step_key(press).wf(),
        keeps_users(v.users, v.step_key(press).users),
        v.step_key(press).step == Step::Installing ==> v.step == Step::Installing || (v.step
            == Step::Confirm && plan_valid(v.partitions)),
        v.step_key(press).step == Step::RootPassword ==> v.step == Step::RootPassword || v.step
            == Step::RootPasswordConfirm || (v.step == Step::Installing && v.install_done && v.install_error is None),
        chapter(v.step) >= 9 ==> chapter(v.step_key(press).step) >= 9,
{
    match v.step {
        Step::CloningRepo => lemma_key_at_cloning_repo(v, press),
        Step::SelectPreset => lemma_key_at_select_preset(v, press),
        Step::HostName => lemma_key_at_host_name(v, press),
        Step::SelectNixosModules => lemma_key_at_select_nixos_modules(v, press),
        Step::SelectSystemPackages => lemma_key_at_select_system_packages(v, press),
        Step::CreateUser => lemma_key_at_create_user(v, press),
        Step::AddAnotherUser => lemma_key_at_add_another_user(v, press),
        Step::SelectHmModules => lemma_key_at_select_hm_modules(v, press),
        Step::SelectUserPackages => lemma_key_at_select_user_packages(v, press),
        Step::SelectDisk => lemma_key_at_select_disk(v, press),
        Step::PartitionModeSelect => lemma_key_at_partition_mode_select(v, press),
        Step::SwapSize => lemma_key_at_swap_size(v, press),
        Step::CustomPartitionMount => lemma_key_at_custom_partition_mount(v, press),
        Step::CustomPartitionSize => lemma_key_at_custom_partition_size(v, press),
        Step::CustomPartitionFs => lemma_key_at_custom_partition_fs(v, press),
        Step::CustomPartitionAnother => lemma_key_at_custom_partition_another(v, press),
        Step::Confirm => lemma_key_at_confirm(v, press),
        Step::Installing => lemma_key_at_installing(v, press),
        Step::RootPassword => lemma_key_at_root_password(v, press),
        Step::RootPasswordConfirm => lemma_key_at_root_password_confirm(v, press),
        Step::UserPassword => lemma_key_at_user_password(v, press),
        Step::UserPasswordConfirm => lemma_key_at_user_password_confirm(v, press),
        Step::Complete => lemma_key_at_complete(v, press),
    }
}

/// The full-disk plan that a confirmed swap size gives can be laid out.
pub proof fn lemma_swap_size_fits(v: AppView)
    requires
        plan_fits(v.partitions),
    ensures
        plan_fits(v.confirmed_swap_size().partitions),
{
    match crate::disk::size_input_of(v.swap_size_input) {
        crate::disk::SizeInput::Empty => {
            lemma_full_disk_layout(0);
        },
        crate::disk::SizeInput::Gib(gib) => {
            lemma_full_disk_layout(gib as nat);
        },
        crate::disk::SizeInput::Invalid => {},
    }
}

/// The plan with the custom partition that a confirmed filesystem
/// completes can be laid out.
pub proof fn lemma_custom_fs_fits(v: AppView)
    requires
        plan_fits(v.partitions),
    ensures
        plan_fits(v.confirmed_custom_fs().partitions),
{
    let after = v.confirmed_custom_fs();
    if after.partitions != v.partitions {
        lemma_plan_extent_push(v.partitions, after.partitions.last());
        assert(after.partitions == v.partitions.push(after.partitions.last()));
    }
}

/// A key press keeps what holds of every state that the wizard reaches,
/// and it removes no user: every user stays where the user stood, under
/// the same name and with the same need for a selection of modules.
pub proof fn lemma_key_keeps_wf(v: AppView, press: KeyPress)
    requires
        v.wf(),
        v.bounded(),
    ensures
        v.pressed(press).wf(),
        keeps_users(v.users, v.pressed(press).users),
{
    lemma_step_key_keeps_wf(v, press);
}

/// The way into the installation and out of it. No key leads to the
/// installation but the confirmation of a summary whose plan is valid; no
/// key leads to the root password, and the wizard does not move there by
/// itself, but at the end of an installation that is done and has no
/// error, or after a repetition of the password that differs; and from the
/// installation on nothing leads back to a screen before it.
pub proof fn lemma_installation_is_a_one_way_door(v: AppView, press: KeyPress)
    requires
        v.wf(),
        v.bounded(),
    ensures
        v.pressed(press).step == Step::Installing ==> v.step == Step::Installing || (v.step
            == Step::Confirm && plan_valid(v.partitions)),
        v.pressed(press).step == Step::RootPassword ==> v.step == Step::RootPassword || v.step
            == Step::RootPasswordConfirm || (v.step == Step::Installing && v.install_done && v.install_error is None),
        chapter(v.step) >= 9 ==> chapter(v.pressed(press).step) >= 9,
        chapter(v.step) >= 9 ==> chapter(v.auto_advanced().step) >= 9,
        v.auto_advanced().step == Step::Installing ==> v.step == Step::Installing,
        v.auto_advanced().step == Step::RootPassword ==> v.step == Step::RootPassword
            || v.install_finished(),
        v.install_error is Some ==> v.auto_advanced() == v,
        !v.install_done ==> v.auto_advanced() == v,
{
    lemma_step_key_keeps_wf(v, press);
}


/// What arrives from outside removes no user either: every user stays
/// where the user stood, under the same name and with the same need for a
/// selection of modules.
pub proof fn lemma_arrivals_keep_users(
    v: AppView,
    config_exists: bool,
    hm_modules: Seq<NixModuleView>,
    package_modules: Seq<NixModuleView>,
    listed: Result<Seq<BlockDeviceView>, Seq<char>>,
    applied: Result<(), Seq<char>>,
    scan: RepoScanView,
)
    requires
        v.bounded(),
    ensures
        keeps_users(v.users, v.confirmed_username(config_exists).users),
        keeps_users(v.users, v.loaded_user_modules(hm_modules, package_modules).users),
        keeps_users(v.users, v.at_disk_selection(listed).users),
        keeps_users(v.users, v.after_root_password(applied).users),
        keeps_users(v.users, v.after_user_password(applied).users),
        keeps_users(v.users, v.finished_clone(scan).users),
        keeps_users(v.users, v.auto_advanced().users),
{
}


/// An empty host name is refused, and the refusal can be tried again: it
/// changes nothing but the message, so that confirming once more gives the
/// same state.
pub proof fn lemma_retry_host_name(v: AppView)
    requires
        text::trimmed(v.host_name_input).len() == 0,
    ensures
        v.confirmed_host_name() == v.says(v.confirmed_host_name().status_message->0),
        v.confirmed_host_name().confirmed_host_name() == v.confirmed_host_name(),
{
}

/// A user name that is not accepted is refused, and the refusal can be
/// tried again: it changes nothing but the message.
pub proof fn lemma_retry_username(v: AppView, config_exists: bool)
    requires
        !username_accepted(v.users, v.current_username),
    ensures
        v.confirmed_username(config_exists) == v.says(v.confirmed_username(config_exists).status_message->0),
        v.confirmed_username(config_exists).confirmed_username(config_exists) == v.confirmed_username(config_exists),
{
}

/// A mount point that is neither `swap` nor a path from the root is
/// refused, and the refusal can be tried again: it changes nothing but the
/// message.
pub proof fn lemma_retry_custom_mount(v: AppView)
    requires
        !crate::app::disks::mount_point_valid(text::trimmed(v.part_mount_input)),
    ensures
        v.confirmed_custom_mount() == v.says(v.confirmed_custom_mount().status_message->0),
        v.confirmed_custom_mount().confirmed_custom_mount() == v.confirmed_custom_mount(),
{
    reveal_strlit("swap");
}

/// A swap size that is no whole number is refused, and the refusal can be
/// tried again: it changes nothing but the message.
pub proof fn lemma_retry_swap_size(v: AppView)
    requires
        crate::disk::size_input_of(v.swap_size_input) is Invalid,
    ensures
        v.confirmed_swap_size() == v.says(v.confirmed_swap_size().status_message->0),
        v.confirmed_swap_size().confirmed_swap_size() == v.confirmed_swap_size(),
{
}

/// An empty root password is refused, and the refusal can be tried again:
/// it changes nothing but the message.
pub proof fn lemma_retry_root_password(v: AppView)
    requires
        v.root_password.len() == 0,
    ensures
        v.confirmed_root_password() == v.says(v.confirmed_root_password().status_message->0),
        v.confirmed_root_password().confirmed_root_password() == v.confirmed_root_password(),
{
}

/// An empty password of a user is refused, and the refusal can be tried
/// again: it changes nothing but the message.
pub proof fn lemma_retry_user_password(v: AppView)
    requires
        v.current_password.len() == 0,
    ensures
        v.confirmed_user_password() == v.says(v.confirmed_user_password().status_message->0),
        v.confirmed_user_password().confirmed_user_password() == v.confirmed_user_password(),
{
}

/// A plan that is not valid is refused at the summary, and the refusal can
/// be tried again: it changes nothing but the message.
pub proof fn lemma_retry_install(v: AppView)
    requires
        !plan_valid(v.partitions) && v.confirm_cursor == 0,
    ensures
        v.confirmed_install() == v.says(v.confirmed_install().status_message->0),
        v.confirmed_install().confirmed_install() == v.confirmed_install(),
{
}

} // verus!
