//! Prefix operations on a profile: viewing, setting, and clearing the
//! command prefix, and the display forms those commands print.

use vstd::prelude::*;

use crate::config::Profile;
use crate::config::ProfileView;
use crate::utils::first_letter_uppercase;
use crate::utils::spec_first_letter_uppercase;

verus! {

/// The profile after `prefix set`: an unconditional overwrite.
pub open spec fn spec_set_prefix(p: ProfileView, value: Seq<char>) -> ProfileView {
    ProfileView { prefix: value, paths: p.paths }
}

/// The profile after `prefix clear`: back to the empty prefix.
pub open spec fn spec_clear_prefix(p: ProfileView) -> ProfileView {
    ProfileView { prefix: Seq::empty(), paths: p.paths }
}

/// How a prefix reads: `no prefix` when none is set, else `prefix <value>`.
pub open spec fn spec_prefix_display(prefix: Seq<char>) -> Seq<char> {
    if prefix.len() == 0 {
        "no prefix"@
    } else {
        "prefix "@ + prefix
    }
}

/// What `prefix` with no subcommand prints: the readout with its first
/// letter uppercased, ` has `, and how the prefix reads.
pub open spec fn spec_prefix_view_message(readout: Seq<char>, prefix: Seq<char>) -> Seq<char> {
    spec_first_letter_uppercase(readout) + " has "@ + spec_prefix_display(prefix)
}

/// Law: setting a prefix and then clearing it leaves the profile exactly as
/// clearing it alone would, and its display state reads `no prefix` again.
pub proof fn lemma_set_then_clear_restores_empty(p: ProfileView, value: Seq<char>)
    ensures
        spec_clear_prefix(spec_set_prefix(p, value)) == spec_clear_prefix(p),
        spec_prefix_display(spec_clear_prefix(spec_set_prefix(p, value)).prefix) == "no prefix"@,
{
    assert(spec_clear_prefix(spec_set_prefix(p, value)) =~~= spec_clear_prefix(p));
}

impl Profile {
    /// How this profile's prefix reads.
    pub fn prefix_display(&self) -> (r: String)
        ensures
            r@ == spec_prefix_display(self@.prefix),
    {
        if self.prefix.as_str().is_empty() {
            String::from_str("no prefix")
        } else {
            let mut r = String::from_str("prefix ");
            r.append(self.prefix.as_str());
            r
        }
    }

    /// The `prefix` view line for this profile under the given readout.
    pub fn prefix_view_message(&self, readout: &String) -> (r: String)
        ensures
            r@ == spec_prefix_view_message(readout@, self@.prefix),
    {
        let mut r = first_letter_uppercase(readout);
        r.append(" has ");
        let display = self.prefix_display();
        r.append(display.as_str());
        r
    }

    /// `prefix set`: overwrites the prefix; reports how the old one read.
    pub fn set_prefix(&mut self, value: &String) -> (r: String)
        ensures
            final(self)@ == spec_set_prefix(old(self)@, value@),
            r@ == spec_prefix_display(old(self)@.prefix),
    {
        let old_display = self.prefix_display();
        self.prefix = value.clone();
        proof {
            assert(self@ =~~= spec_set_prefix(old(self)@, value@));
        }
        old_display
    }

    /// `prefix clear`: resets to the empty prefix; reports how the old one
    /// read.
    pub fn clear_prefix(&mut self) -> (r: String)
        ensures
            final(self)@ == spec_clear_prefix(old(self)@),
            r@ == spec_prefix_display(old(self)@.prefix),
    {
        let old_display = self.prefix_display();
        self.prefix = String::new();
        proof {
            assert(self@ =~~= spec_clear_prefix(old(self)@));
        }
        old_display
    }
}

} // verus!
