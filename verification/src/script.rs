//! Script generation: renders a profile and a command into the lines of a
//! shell script that visits every stored path and runs the command there.

use vstd::prelude::*;

use crate::config::Profile;
use crate::config::ProfileView;
use crate::utils::canonical_form;

verus! {

/// The command tokens joined with single spaces.
pub open spec fn spec_join_tokens(tokens: Seq<Seq<char>>) -> Seq<char>
    decreases tokens.len(),
{
    if tokens.len() == 0 {
        Seq::empty()
    } else if tokens.len() == 1 {
        tokens[0]
    } else {
        spec_join_tokens(tokens.drop_last()) + seq![' '] + tokens.last()
    }
}

/// The full command line: the prefix, one space, and the joined tokens. An
/// empty prefix leaves a cosmetic leading space.
pub open spec fn spec_full_command(prefix: Seq<char>, tokens: Seq<Seq<char>>) -> Seq<char> {
    prefix + seq![' '] + spec_join_tokens(tokens)
}

/// The three script lines for one path: a `cd` into its shown form, a bolded
/// echo of that form, and the full command line.
pub open spec fn spec_script_lines(shown: Seq<char>, command: Seq<char>) -> Seq<Seq<char>> {
    seq![
        "cd \""@ + shown + "\""@,
        " printf \"$(tput bold)"@ + shown + "$(tput sgr0)\\n\""@,
        command,
    ]
}

/// The command tokens joined with single spaces, as `make-command` wants
/// them.
pub fn join_tokens(tokens: &Vec<String>) -> (r: String)
    ensures
        r@ == spec_join_tokens(tokens.deep_view()),
{
    let ghost all = tokens.deep_view();
    let mut r = String::new();
    proof {
        assert(all.take(0) =~= Seq::<Seq<char>>::empty());
    }
    let mut i: usize = 0;
    while i < tokens.len()
        invariant
            i <= tokens@.len(),
            all == tokens.deep_view(),
            all.len() == tokens@.len(),
            r@ == spec_join_tokens(all.take(i as int)),
        decreases tokens@.len() - i,
    {
        if i > 0 {
            r.append(" ");
        }
        r.append(tokens[i].as_str());
        proof {
            reveal_strlit(" ");
            assert(" "@ =~= seq![' ']);
            assert(all.take(i + 1).drop_last() =~= all.take(i as int));
            assert(all.take(i + 1).last() == all[i as int]);
            assert(r@ =~= spec_join_tokens(all.take(i + 1)));
        }
        i += 1;
    }
    proof {
        assert(all.take(tokens@.len() as int) =~= all);
    }
    r
}

/// The full command line for this profile's prefix and these tokens.
pub fn full_command(profile: &Profile, shell_command: &Vec<String>) -> (r: String)
    ensures
        r@ == spec_full_command(profile@.prefix, shell_command.deep_view()),
{
    let joined = join_tokens(shell_command);
    let mut r = profile.prefix.clone();
    r.append(" ");
    r.append(joined.as_str());
    proof {
        reveal_strlit(" ");
        assert(" "@ =~= seq![' ']);
    }
    r
}

/// The three script lines for one shown path form and one command line.
fn script_lines_for_path(shown: &String, command: &String) -> (r: Vec<String>)
    ensures
        r.deep_view() == spec_script_lines(shown@, command@),
{
    let mut open_line = String::from_str("cd \"");
    open_line.append(shown.as_str());
    open_line.append("\"");
    let mut echo_line = String::from_str(" printf \"$(tput bold)");
    echo_line.append(shown.as_str());
    echo_line.append("$(tput sgr0)\\n\"");
    let mut r: Vec<String> = Vec::new();
    r.push(open_line);
    r.push(echo_line);
    r.push(command.clone());
    proof {
        assert(r.deep_view() =~= spec_script_lines(shown@, command@));
    }
    r
}

/// Whether the three lines starting at position `3 * k` are the script
/// lines of some shown path form under this command line.
pub open spec fn spec_script_chunk(lines: Seq<Seq<char>>, k: int, command: Seq<char>) -> bool {
    exists|shown: Seq<char>| lines.subrange(3 * k, 3 * k + 3) == spec_script_lines(shown, command)
}

/// What the whole script must look like for a profile and command tokens:
/// three lines per stored path, each triple the script lines of some shown
/// form under the full command line.
pub open spec fn spec_script_ok(p: ProfileView, tokens: Seq<Seq<char>>, lines: Seq<Seq<char>>) -> bool {
    &&& lines.len() == 3 * p.paths.len()
    &&& forall|k: int|
        0 <= k < p.paths.len() ==> spec_script_chunk(lines, k, spec_full_command(p.prefix, tokens))
}

/// `make-command`: the script, three lines for each stored path in stored
/// order. Each path is shown in its canonical form where the filesystem
/// gives one, else as stored; every third line is the full command line.
pub fn routine_make_command(profile: &Profile, shell_command: &Vec<String>) -> (r: Vec<String>)
    ensures
        spec_script_ok(profile@, shell_command.deep_view(), r.deep_view()),
{
    let ghost cmd = spec_full_command(profile@.prefix, shell_command.deep_view());
    let command = full_command(profile, shell_command);
    let mut r: Vec<String> = Vec::new();
    let mut i: usize = 0;
    while i < profile.paths.len()
        invariant
            i <= profile.paths@.len(),
            profile@.paths.len() == profile.paths@.len(),
            cmd == spec_full_command(profile@.prefix, shell_command.deep_view()),
            command@ == cmd,
            r.deep_view().len() == 3 * i,
            forall|k: int| 0 <= k < i ==> spec_script_chunk(r.deep_view(), k, cmd),
        decreases profile.paths@.len() - i,
    {
        let stored = &profile.paths[i];
        let shown = match canonical_form(stored) {
            Some(c) => c,
            None => stored.clone(),
        };
        let ghost prev = r.deep_view();
        let mut lines = script_lines_for_path(&shown, &command);
        let ghost pushed = lines.deep_view();
        r.append(&mut lines);
        proof {
            assert(r.deep_view() =~= prev + pushed);
            assert forall|k: int| 0 <= k < i + 1 implies spec_script_chunk(
                r.deep_view(),
                k,
                cmd,
            ) by {
                if k < i {
                    assert(spec_script_chunk(prev, k, cmd));
                    let s = choose|s: Seq<char>|
                        prev.subrange(3 * k, 3 * k + 3) == spec_script_lines(s, cmd);
                    assert(r.deep_view().subrange(3 * k, 3 * k + 3) =~= prev.subrange(
                        3 * k,
                        3 * k + 3,
                    ));
                    assert(r.deep_view().subrange(3 * k, 3 * k + 3) == spec_script_lines(s, cmd));
                } else {
                    assert(r.deep_view().subrange(3 * k, 3 * k + 3) =~= pushed);
                    assert(r.deep_view().subrange(3 * k, 3 * k + 3) == spec_script_lines(
                        shown@,
                        cmd,
                    ));
                }
            }
        }
        i += 1;
    }
    r
}

} // verus!
