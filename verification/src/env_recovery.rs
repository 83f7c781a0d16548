//! Argument recovery: a previously recorded command line can stand in for
//! the process arguments. The recorded line is split into words the way the
//! Bourne shell would split it.

use vstd::prelude::*;

verus! {

/// The words `shellwords::split` reads in a command line, or `None` for a
/// line with mismatched quotes.
pub uninterp spec fn shell_split(s: Seq<char>) -> Option<Seq<Seq<char>>>;

/// Relies on `shellwords::split`: splits a command line into words the way
/// the Bourne shell would, and fails exactly on mismatched quotes. The
/// outcome depends on the input string alone.
#[verifier::external_body]
fn split_command_line(s: &String) -> (r: Option<Vec<String>>)
    ensures
        (r is Some) == (shell_split(s@) is Some),
        r matches Some(v) ==> v.deep_view() == shell_split(s@).unwrap(),
{
    match shellwords::split(s.as_str()) {
        Ok(words) => Some(words),
        Err(_) => None,
    }
}

/// The arguments an invocation works on: with no recovery line the given
/// arguments stand as they are; a recovery line is split as the shell would
/// split it, and `None` reports its mismatched quotes.
pub fn get_args(recovery: Option<String>, fallback: Vec<String>) -> (r: Option<Vec<String>>)
    ensures
        recovery is None ==> r == Some(fallback),
        recovery matches Some(line) ==> {
            &&& (r is Some) == (shell_split(line@) is Some)
            &&& (r matches Some(v) ==> v.deep_view() == shell_split(line@).unwrap())
        },
{
    match recovery {
        None => Some(fallback),
        Some(line) => split_command_line(&line),
    }
}

} // verus!
