//! The command dispatch: one routine per command family, each reporting
//! whether the registry changed and what happened, and `run_command`, which
//! resolves the selected profile and runs the matching routine.

use vstd::prelude::*;

use crate::cli::AddRemovePath;
use crate::cli::Cli;
use crate::cli::Commands;
use crate::cli::EditProfile;
use crate::cli::SetClear;
use crate::config::Config;
use crate::config::ConfigView;
use crate::config::EntryView;
use crate::config::Profile;
use crate::config::ProfileEntry;
use crate::config::ProfileView;
use crate::config::spec_add_profile;
use crate::config::spec_list_profiles;
use crate::config::spec_remove_profile;
use crate::config::spec_set_default;
use crate::paths::PathOutcome;
use crate::paths::spec_add_path;
use crate::prefix::spec_clear_prefix;
use crate::prefix::spec_prefix_display;
use crate::prefix::spec_prefix_view_message;
use crate::prefix::spec_set_prefix;
use crate::script::routine_make_command;
use crate::script::spec_script_ok;

verus! {

/// The outcomes of the `profile` commands.
#[derive(Debug, PartialEq, Eq)]
pub enum ProfileOutcome {
    /// The profile names, the default first.
    Listed { names: Vec<String> },
    /// The profile was created.
    Added { made_default: bool },
    /// `profile add` named a profile that already exists.
    AlreadyExists,
    /// The profile was removed.
    Removed,
    /// `profile remove` named the default profile, which is protected.
    CannotRemoveDefault,
    /// The named profile does not exist.
    NoSuchProfile,
    /// The named profile became the default.
    DefaultSet,
}

/// What `routine_profile` does: how the registry after the call and the
/// outcome relate to the registry before it, for each subcommand.
pub open spec fn spec_profile_routine(
    pre: ConfigView,
    post: ConfigView,
    command: Option<EditProfile>,
    changed: bool,
    out: ProfileOutcome,
) -> bool {
    match command {
        None => !changed && post == pre && (out matches ProfileOutcome::Listed { names }
            && names.deep_view() == spec_list_profiles(pre)),
        Some(EditProfile::Add { default, name }) => if pre.contains_name(name@) {
            !changed && post == pre && out == ProfileOutcome::AlreadyExists
        } else {
            changed && post == spec_add_profile(pre, name@, default) && out
                == (ProfileOutcome::Added { made_default: default })
        },
        Some(EditProfile::Remove { name }) => if !pre.contains_name(name@) {
            !changed && post == pre && out == ProfileOutcome::NoSuchProfile
        } else if name@ == pre.default_profile {
            !changed && post == pre && out == ProfileOutcome::CannotRemoveDefault
        } else {
            changed && post == spec_remove_profile(pre, name@) && out == ProfileOutcome::Removed
        },
        Some(EditProfile::SetDefault { name }) => if !pre.contains_name(name@) {
            !changed && post == pre && out == ProfileOutcome::NoSuchProfile
        } else {
            changed && post == spec_set_default(pre, name@) && out == ProfileOutcome::DefaultSet
        },
    }
}

/// Law: the default profile can never be removed; the attempt changes
/// nothing and is reported.
pub proof fn lemma_default_never_removed(
    pre: ConfigView,
    post: ConfigView,
    name: String,
    changed: bool,
    out: ProfileOutcome,
)
    requires
        pre.wf(),
        name@ == pre.default_profile,
        spec_profile_routine(pre, post, Some(EditProfile::Remove { name }), changed, out),
    ensures
        post == pre,
        !changed,
        out == ProfileOutcome::CannotRemoveDefault,
{
}

/// `profile`: lists, adds, or removes profiles, or sets the default one.
/// Additions of existing names, removals of missing names, and removals of
/// the default profile are rejected and change nothing.
pub fn routine_profile(config: &mut Config, command: &Option<EditProfile>) -> (r: (
    bool,
    ProfileOutcome,
))
    requires
        old(config).wf(),
    ensures
        final(config).wf(),
        spec_profile_routine(old(config)@, final(config)@, *command, r.0, r.1),
{
    match command {
        None => {
            let names = config.list_profiles();
            (false, ProfileOutcome::Listed { names })
        },
        Some(EditProfile::Add { default, name }) => {
            match config.profile_index(name) {
                Some(_) => (false, ProfileOutcome::AlreadyExists),
                None => {
                    config.profiles.push(
                        ProfileEntry { name: name.clone(), profile: Profile::default() },
                    );
                    if *default {
                        config.default_profile = name.clone();
                    }
                    proof {
                        let pre = old(config)@;
                        assert(config@.entries =~~= spec_add_profile(
                            pre,
                            name@,
                            *default,
                        ).entries);
                        assert(config@ =~~= spec_add_profile(pre, name@, *default));
                        let n = pre.entries.len() as int;
                        assert(config@.entries[n].name == name@);
                        if !*default {
                            let k = choose|k: int|
                                0 <= k < pre.entries.len() && pre.entries[k].name
                                    == pre.default_profile;
                            assert(config@.entries[k].name == config@.default_profile);
                        }
                    }
                    (true, ProfileOutcome::Added { made_default: *default })
                },
            }
        },
        Some(EditProfile::Remove { name }) => {
            match config.profile_index(name) {
                None => (false, ProfileOutcome::NoSuchProfile),
                Some(i) => {
                    if config.default_profile == *name {
                        (false, ProfileOutcome::CannotRemoveDefault)
                    } else {
                        let ghost pre = old(config)@;
                        config.profiles.remove(i);
                        proof {
                            let idx = i as int;
                            assert(pre.contains_name(name@));
                            let j = pre.index_of_name(name@);
                            assert(pre.entries[j].name == name@);
                            assert(j == idx);
                            pre.entries.remove_ensures(idx);
                            old(config).profiles@.remove_ensures(idx);
                            assert(config@.entries =~~= pre.entries.remove(idx));
                            assert(config@ =~~= spec_remove_profile(pre, name@));
                            assert forall|a: int, b: int|
                                0 <= a < b < config@.entries.len() implies config@.entries[a].name
                                != config@.entries[b].name by {
                                let a0: int = if a < idx {
                                    a
                                } else {
                                    a + 1
                                };
                                let b0: int = if b < idx {
                                    b
                                } else {
                                    b + 1
                                };
                                assert(config@.entries[a] == pre.entries[a0]);
                                assert(config@.entries[b] == pre.entries[b0]);
                            }
                            let k = choose|k: int|
                                0 <= k < pre.entries.len() && pre.entries[k].name
                                    == pre.default_profile;
                            assert(k != idx);
                            if k < idx {
                                assert(config@.entries[k].name == pre.default_profile);
                            } else {
                                assert(config@.entries[k - 1].name == pre.default_profile);
                            }
                        }
                        (true, ProfileOutcome::Removed)
                    }
                },
            }
        },
        Some(EditProfile::SetDefault { name }) => {
            if config.contains_profile(name) {
                config.default_profile = name.clone();
                proof {
                    assert(config@ =~~= spec_set_default(old(config)@, name@));
                }
                (true, ProfileOutcome::DefaultSet)
            } else {
                (false, ProfileOutcome::NoSuchProfile)
            }
        },
    }
}

/// What `routine_path` does: how the profile after the call and the outcome
/// relate to the profile before it, for each subcommand.
pub open spec fn spec_path_routine(
    pre: ProfileView,
    post: ProfileView,
    command: Option<AddRemovePath>,
    changed: bool,
    out: PathOutcome,
) -> bool {
    match command {
        None => !changed && post == pre && (out matches PathOutcome::Listed { paths }
            && paths.deep_view() == pre.paths),
        Some(AddRemovePath::Add { force, add_relative, path }) => {
            &&& post.prefix == pre.prefix
            &&& changed == (out is Added)
            &&& out is Added || out is AlreadyRegistered || out is DoesNotExist
                || out is NotRepresentable
            &&& out is DoesNotExist ==> !force && post == pre
            &&& out is NotRepresentable ==> !add_relative && post == pre
            &&& out is AlreadyRegistered ==> post == pre
            &&& out matches PathOutcome::Added { stored } ==> !pre.paths.contains(stored@) && post
                == spec_add_path(pre, stored@) && (add_relative ==> stored@ == path@)
            &&& force && add_relative ==> if !pre.paths.contains(path@) {
                out matches PathOutcome::Added { stored } && stored@ == path@
            } else {
                out == PathOutcome::AlreadyRegistered
            }
        },
        Some(AddRemovePath::Remove { path }) => {
            &&& post.prefix == pre.prefix
            &&& changed == (out is Removed)
            &&& out is Removed || out is NotFound
            &&& pre.paths.contains(path@) ==> out is Removed
            &&& out is Removed ==> exists|i: int, c: Seq<char>|
                {
                    &&& 0 <= i < pre.paths.len()
                    &&& crate::paths::matches_either(pre.paths[i], c, path@)
                    &&& forall|j: int|
                        0 <= j < i ==> !crate::paths::matches_either(pre.paths[j], c, path@)
                    &&& post.paths == pre.paths.remove(i)
                }
            &&& out is NotFound ==> post == pre && !pre.paths.contains(path@)
        },
    }
}

/// `path`: lists the selected profile's paths, adds one, or removes one.
pub fn routine_path(profile: &mut Profile, command: &Option<AddRemovePath>) -> (r: (
    bool,
    PathOutcome,
))
    ensures
        spec_path_routine(old(profile)@, final(profile)@, *command, r.0, r.1),
{
    match command {
        None => {
            let paths = profile.list_paths();
            (false, PathOutcome::Listed { paths })
        },
        Some(AddRemovePath::Add { force, add_relative, path }) => {
            let out = profile.add_path(path, *force, *add_relative);
            let changed = match &out {
                PathOutcome::Added { .. } => true,
                _ => false,
            };
            (changed, out)
        },
        Some(AddRemovePath::Remove { path }) => {
            let out = profile.remove_path(path);
            let changed = match &out {
                PathOutcome::Removed => true,
                _ => false,
            };
            (changed, out)
        },
    }
}

/// The outcomes of the `prefix` commands.
#[derive(Debug, PartialEq, Eq)]
pub enum PrefixOutcome {
    /// The view line: the readout, `has`, and how the prefix reads.
    Viewed { message: String },
    /// The prefix was overwritten; how the old one read is carried here.
    Updated { old_display: String },
    /// The prefix was cleared; how the old one read is carried here.
    Cleared { old_display: String },
}

/// What `routine_prefix` does, for each subcommand.
pub open spec fn spec_prefix_routine(
    pre: ProfileView,
    post: ProfileView,
    readout: Seq<char>,
    command: Option<SetClear>,
    changed: bool,
    out: PrefixOutcome,
) -> bool {
    match command {
        None => !changed && post == pre && (out matches PrefixOutcome::Viewed { message }
            && message@ == spec_prefix_view_message(readout, pre.prefix)),
        Some(SetClear::SetValue { value }) => changed && post == spec_set_prefix(pre, value@) && (
        out matches PrefixOutcome::Updated { old_display } && old_display@ == spec_prefix_display(
            pre.prefix,
        )),
        Some(SetClear::Clear) => changed && post == spec_clear_prefix(pre) && (
        out matches PrefixOutcome::Cleared { old_display } && old_display@ == spec_prefix_display(
            pre.prefix,
        )),
    }
}

/// `prefix`: views, sets, or clears the selected profile's prefix.
pub fn routine_prefix(profile: &mut Profile, readout: &String, command: &Option<SetClear>) -> (r: (
    bool,
    PrefixOutcome,
))
    ensures
        spec_prefix_routine(old(profile)@, final(profile)@, readout@, *command, r.0, r.1),
{
    match command {
        None => {
            let message = profile.prefix_view_message(readout);
            (false, PrefixOutcome::Viewed { message })
        },
        Some(SetClear::SetValue { value }) => {
            let old_display = profile.set_prefix(value);
            (true, PrefixOutcome::Updated { old_display })
        },
        Some(SetClear::Clear) => {
            let old_display = profile.clear_prefix();
            (true, PrefixOutcome::Cleared { old_display })
        },
    }
}

/// The phrase naming the selected profile in messages: `default profile`
/// when none was selected by name, else `profile <name>`.
pub open spec fn spec_profile_readout(selected: Option<String>) -> Seq<char> {
    match selected {
        None => "default profile"@,
        Some(n) => "profile "@ + n@,
    }
}

/// The phrase naming the selected profile in messages.
pub fn profile_readout(selected: &Option<String>) -> (r: String)
    ensures
        r@ == spec_profile_readout(*selected),
{
    match selected {
        None => String::from_str("default profile"),
        Some(n) => {
            let mut r = String::from_str("profile ");
            r.append(n.as_str());
            r
        },
    }
}

/// The outcome of one whole invocation.
#[derive(Debug, PartialEq, Eq)]
pub enum CommandOutcome {
    /// The selected profile does not exist; nothing ran.
    SelectionMissing,
    ProfileEdit(ProfileOutcome),
    PathEdit(PathOutcome),
    PrefixEdit(PrefixOutcome),
    /// The rendered script lines.
    Script(Vec<String>),
}

/// The name the invocation selects: the one given, or the default.
pub open spec fn spec_selected_name(cli: Cli, pre: ConfigView) -> Seq<char> {
    match cli.profile {
        Some(n) => n@,
        None => pre.default_profile,
    }
}

/// One whole invocation: resolves the selected profile, refuses a missing
/// one, and otherwise runs the matching routine on it. Reports whether the
/// registry changed (and must be persisted) and what happened.
pub fn run_command(config: &mut Config, cli: &Cli) -> (r: (bool, CommandOutcome))
    requires
        old(config).wf(),
    ensures
        final(config).wf(),
        ({
            let pre = old(config)@;
            let post = final(config)@;
            let sel = spec_selected_name(*cli, pre);
            if !pre.contains_name(sel) {
                !r.0 && r.1 == CommandOutcome::SelectionMissing && post == pre
            } else {
                let idx = pre.index_of_name(sel);
                match cli.command {
                    Commands::Profile { subcommand } => r.1 matches CommandOutcome::ProfileEdit(
                        out,
                    ) && spec_profile_routine(pre, post, subcommand, r.0, out),
                    Commands::Path { subcommand } => {
                        &&& r.1 matches CommandOutcome::PathEdit(out) && spec_path_routine(
                            pre.entries[idx].profile,
                            post.entries[idx].profile,
                            subcommand,
                            r.0,
                            out,
                        )
                        &&& post.entries == pre.entries.update(
                            idx,
                            EntryView { name: sel, profile: post.entries[idx].profile },
                        )
                        &&& post.default_profile == pre.default_profile
                    },
                    Commands::Prefix { subcommand } => {
                        &&& r.1 matches CommandOutcome::PrefixEdit(out) && spec_prefix_routine(
                            pre.entries[idx].profile,
                            post.entries[idx].profile,
                            spec_profile_readout(cli.profile),
                            subcommand,
                            r.0,
                            out,
                        )
                        &&& post.entries == pre.entries.update(
                            idx,
                            EntryView { name: sel, profile: post.entries[idx].profile },
                        )
                        &&& post.default_profile == pre.default_profile
                    },
                    Commands::MakeCommand { shell_command } => !r.0 && post == pre && (
                    r.1 matches CommandOutcome::Script(lines) && spec_script_ok(
                        pre.entries[idx].profile,
                        shell_command.deep_view(),
                        lines.deep_view(),
                    )),
                }
            }
        }),
{
    let selected_name = match &cli.profile {
        None => config.default_profile.clone(),
        Some(n) => n.clone(),
    };
    let i = match config.profile_index(&selected_name) {
        None => {
            return (false, CommandOutcome::SelectionMissing);
        },
        Some(i) => i,
    };
    proof {
        let pre = old(config)@;
        let sel = spec_selected_name(*cli, pre);
        assert(pre.entries[i as int].name == sel);
        assert(pre.contains_name(sel));
        let j = pre.index_of_name(sel);
        assert(pre.entries[j].name == sel);
        assert(j == i as int);
    }
    match &cli.command {
        Commands::Profile { subcommand } => {
            let (changed, out) = routine_profile(config, subcommand);
            (changed, CommandOutcome::ProfileEdit(out))
        },
        Commands::Path { subcommand } => {
            let ghost s0 = config.profiles@;
            let mut entry = config.profiles.remove(i);
            let (changed, out) = routine_path(&mut entry.profile, subcommand);
            let ghost entry2 = entry;
            config.profiles.insert(i, entry);
            proof {
                reinserted_entry_facts(old(config)@, config@, s0, entry2, i as int);
            }
            (changed, CommandOutcome::PathEdit(out))
        },
        Commands::Prefix { subcommand } => {
            let readout = profile_readout(&cli.profile);
            let ghost s0 = config.profiles@;
            let mut entry = config.profiles.remove(i);
            let (changed, out) = routine_prefix(&mut entry.profile, &readout, subcommand);
            let ghost entry2 = entry;
            config.profiles.insert(i, entry);
            proof {
                reinserted_entry_facts(old(config)@, config@, s0, entry2, i as int);
            }
            (changed, CommandOutcome::PrefixEdit(out))
        },
        Commands::MakeCommand { shell_command } => {
            let lines = routine_make_command(&config.profiles[i].profile, shell_command);
            (false, CommandOutcome::Script(lines))
        },
    }
}

/// After taking the entry at `idx` out of a well-formed registry, mutating
/// only its profile, and putting it back at `idx`, the registry is the old
/// one with only that profile updated, and it is still well-formed.
proof fn reinserted_entry_facts(
    pre: ConfigView,
    post: ConfigView,
    s0: Seq<ProfileEntry>,
    entry2: ProfileEntry,
    idx: int,
)
    requires
        pre.wf(),
        0 <= idx < s0.len(),
        pre.entries == s0.map_values(|e: ProfileEntry| e@),
        post.entries == s0.remove(idx).insert(idx, entry2).map_values(|e: ProfileEntry| e@),
        entry2.name@ == s0[idx].name@,
        post.default_profile == pre.default_profile,
    ensures
        post.wf(),
        post.entries == pre.entries.update(
            idx,
            EntryView { name: pre.entries[idx].name, profile: post.entries[idx].profile },
        ),
        post.entries.len() == pre.entries.len(),
        post.entries[idx].name == pre.entries[idx].name,
        post.entries[idx].profile == entry2.profile@,
        forall|x: int| 0 <= x < pre.entries.len() && x != idx ==> post.entries[x] == pre.entries[x],
{
    s0.remove_ensures(idx);
    s0.remove(idx).insert_ensures(idx, entry2);
    assert(s0.remove(idx).insert(idx, entry2) =~= s0.update(idx, entry2));
    assert forall|x: int|
        0 <= x < pre.entries.len() && x != idx implies post.entries[x] == pre.entries[x] by {
        assert(s0.update(idx, entry2)[x] == s0[x]);
    }
    run_update_facts(pre, post, idx);
}

/// After putting a mutated entry back at its old position under its old
/// name, the registry is the old one with only that profile updated, and it
/// is still well-formed.
proof fn run_update_facts(pre: ConfigView, post: ConfigView, idx: int)
    requires
        pre.wf(),
        0 <= idx < pre.entries.len(),
        post.entries.len() == pre.entries.len(),
        post.default_profile == pre.default_profile,
        post.entries[idx].name == pre.entries[idx].name,
        forall|x: int| 0 <= x < pre.entries.len() && x != idx ==> post.entries[x] == pre.entries[x],
    ensures
        post.wf(),
        post.entries == pre.entries.update(
            idx,
            EntryView { name: pre.entries[idx].name, profile: post.entries[idx].profile },
        ),
{
    assert forall|x: int| 0 <= x < post.entries.len() implies post.entries[x].name
        == pre.entries[x].name by {}
    assert(post.contains_name(post.default_profile)) by {
        let k = choose|k: int|
            0 <= k < pre.entries.len() && pre.entries[k].name == pre.default_profile;
        assert(post.entries[k].name == post.default_profile);
    }
    assert(post.entries =~~= pre.entries.update(
        idx,
        EntryView { name: pre.entries[idx].name, profile: post.entries[idx].profile },
    ));
}

} // verus!
