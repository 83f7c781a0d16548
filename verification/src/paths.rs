//! Path operations on a profile: listing, adding (with the existence check
//! and the choice between the canonical and the given form), and removing by
//! either form.

use vstd::prelude::*;

use crate::config::Profile;
use crate::config::ProfileView;
use crate::utils::canonical_form;
use crate::utils::path_exists;
use crate::utils::pathbuf_to_string;

verus! {

/// The outcomes of the `path` commands.
#[derive(Debug, PartialEq, Eq)]
pub enum PathOutcome {
    /// The stored paths, in stored order.
    Listed { paths: Vec<String> },
    /// The path was appended, in the stored form carried here.
    Added { stored: String },
    /// `path add` without `--force` named a path absent from disk.
    DoesNotExist,
    /// The computed form is already stored.
    AlreadyRegistered,
    /// The filesystem gave no canonical string form for the path.
    NotRepresentable,
    /// The first stored path equal to either form was removed.
    Removed,
    /// No stored path equals either form.
    NotFound,
}

/// Whether `path add` accepts this stored form: exact string duplicates are
/// rejected.
pub open spec fn spec_path_add_allowed(p: ProfileView, stored: Seq<char>) -> bool {
    !p.paths.contains(stored)
}

/// The profile after a successful `path add`: the stored form is appended.
pub open spec fn spec_add_path(p: ProfileView, stored: Seq<char>) -> ProfileView {
    ProfileView { prefix: p.prefix, paths: p.paths.push(stored) }
}

/// Whether a stored path is removed by an input whose canonical and given
/// forms are these: either form matches.
pub open spec fn matches_either(p: Seq<char>, canonical: Seq<char>, given: Seq<char>) -> bool {
    p == canonical || p == given
}

/// Law: the same stored form, added a second time, is rejected.
pub proof fn lemma_add_path_twice_rejected(p: ProfileView, stored: Seq<char>)
    requires
        spec_path_add_allowed(p, stored),
    ensures
        !spec_path_add_allowed(spec_add_path(p, stored), stored),
{
    assert(spec_add_path(p, stored).paths.last() == stored);
}

impl Profile {
    /// Whether this exact string is among the stored paths.
    pub fn contains_path(&self, s: &String) -> (r: bool)
        ensures
            r == self@.paths.contains(s@),
    {
        let mut i: usize = 0;
        while i < self.paths.len()
            invariant
                i <= self.paths@.len(),
                self@.paths.len() == self.paths@.len(),
                forall|j: int| 0 <= j < i ==> self@.paths[j] != s@,
            decreases self.paths@.len() - i,
        {
            if self.paths[i] == *s {
                proof {
                    assert(self@.paths[i as int] == s@);
                }
                return true;
            }
            i += 1;
        }
        false
    }

    /// The stored paths, in stored order, for the listing.
    pub fn list_paths(&self) -> (r: Vec<String>)
        ensures
            r.deep_view() == self@.paths,
    {
        let mut r: Vec<String> = Vec::new();
        let mut i: usize = 0;
        proof {
            assert(r.deep_view() =~= self@.paths.take(0));
        }
        while i < self.paths.len()
            invariant
                i <= self.paths@.len(),
                self@.paths.len() == self.paths@.len(),
                r.deep_view() == self@.paths.take(i as int),
            decreases self.paths@.len() - i,
        {
            let ghost prev = r.deep_view();
            r.push(self.paths[i].clone());
            proof {
                assert(r.deep_view() =~= prev.push(self@.paths[i as int]));
                assert(r.deep_view() =~= self@.paths.take(i + 1));
            }
            i += 1;
        }
        proof {
            assert(self@.paths.take(self.paths@.len() as int) =~= self@.paths);
        }
        r
    }

    /// Appends the stored form, unless that exact string is already present.
    pub fn register_path(&mut self, stored: &String) -> (r: PathOutcome)
        ensures
            if spec_path_add_allowed(old(self)@, stored@) {
                (r matches PathOutcome::Added { stored: s } && s@ == stored@) && final(self)@
                    == spec_add_path(old(self)@, stored@)
            } else {
                r == PathOutcome::AlreadyRegistered && final(self)@ == old(self)@
            },
    {
        if self.contains_path(stored) {
            return PathOutcome::AlreadyRegistered;
        }
        self.paths.push(stored.clone());
        proof {
            assert(self@.paths =~= spec_add_path(old(self)@, stored@).paths);
            assert(self@ =~~= spec_add_path(old(self)@, stored@));
        }
        PathOutcome::Added { stored: stored.clone() }
    }

    /// Removes the first stored path equal to either given form; reports
    /// `NotFound`, and changes nothing, when no stored path equals either.
    pub fn remove_path_forms(&mut self, canonical: &String, given: &String) -> (r: PathOutcome)
        ensures
            r is Removed || r is NotFound,
            (r is Removed) <==> (exists|i: int|
                0 <= i < old(self)@.paths.len() && matches_either(
                    old(self)@.paths[i],
                    canonical@,
                    given@,
                )),
            r is Removed ==> exists|i: int|
                {
                    &&& 0 <= i < old(self)@.paths.len()
                    &&& matches_either(old(self)@.paths[i], canonical@, given@)
                    &&& forall|j: int|
                        0 <= j < i ==> !matches_either(old(self)@.paths[j], canonical@, given@)
                    &&& final(self)@.paths == old(self)@.paths.remove(i)
                },
            r is NotFound ==> final(self)@ == old(self)@,
            final(self)@.prefix == old(self)@.prefix,
    {
        let mut i: usize = 0;
        while i < self.paths.len()
            invariant
                i <= self.paths@.len(),
                self@.paths.len() == self.paths@.len(),
                self == old(self),
                forall|j: int| 0 <= j < i ==> !matches_either(self@.paths[j], canonical@, given@),
            decreases self.paths@.len() - i,
        {
            if self.paths[i] == *canonical || self.paths[i] == *given {
                proof {
                    assert(matches_either(self@.paths[i as int], canonical@, given@));
                }
                let ghost pre = self@.paths;
                self.paths.remove(i);
                proof {
                    pre.remove_ensures(i as int);
                    old(self).paths@.remove_ensures(i as int);
                    assert(self@.paths =~= pre.remove(i as int));
                }
                return PathOutcome::Removed;
            }
            i += 1;
        }
        PathOutcome::NotFound
    }

    /// `path add`: unless forced, a path absent from disk is rejected; the
    /// stored form is the canonical one, or the path as given under
    /// `add_relative`; a form already stored is rejected; anything else is
    /// appended.
    pub fn add_path(&mut self, path: &String, force: bool, add_relative: bool) -> (r: PathOutcome)
        ensures
            r is DoesNotExist ==> !force && final(self)@ == old(self)@,
            r is NotRepresentable ==> !add_relative && final(self)@ == old(self)@,
            r is AlreadyRegistered ==> final(self)@ == old(self)@ && exists|s: Seq<char>|
                old(self)@.paths.contains(s) && (add_relative ==> s == path@),
            r matches PathOutcome::Added { stored } ==> spec_path_add_allowed(old(self)@, stored@)
                && final(self)@ == spec_add_path(old(self)@, stored@) && (add_relative ==> stored@
                == path@),
            force && add_relative ==> if spec_path_add_allowed(old(self)@, path@) {
                r matches PathOutcome::Added { stored } && stored@ == path@
            } else {
                r == PathOutcome::AlreadyRegistered
            },
            r is Added || r is AlreadyRegistered || r is DoesNotExist || r is NotRepresentable,
    {
        if !force && !path_exists(path) {
            return PathOutcome::DoesNotExist;
        }
        match pathbuf_to_string(path, !add_relative) {
            None => PathOutcome::NotRepresentable,
            Some(stored) => self.register_path(&stored),
        }
    }

    /// `path remove`: removes the first stored path equal to the canonical
    /// form of the input or to the input as given. An input stored as given
    /// is always removed.
    pub fn remove_path(&mut self, path: &String) -> (r: PathOutcome)
        ensures
            r is Removed || r is NotFound,
            old(self)@.paths.contains(path@) ==> r is Removed,
            r is Removed ==> exists|i: int, c: Seq<char>|
                {
                    &&& 0 <= i < old(self)@.paths.len()
                    &&& matches_either(old(self)@.paths[i], c, path@)
                    &&& forall|j: int|
                        0 <= j < i ==> !matches_either(old(self)@.paths[j], c, path@)
                    &&& final(self)@.paths == old(self)@.paths.remove(i)
                },
            r is NotFound ==> final(self)@ == old(self)@ && !old(self)@.paths.contains(path@),
            final(self)@.prefix == old(self)@.prefix,
    {
        let canonical = match canonical_form(path) {
            Some(c) => c,
            None => path.clone(),
        };
        let r = self.remove_path_forms(&canonical, path);
        proof {
            if old(self)@.paths.contains(path@) {
                let i = choose|i: int|
                    0 <= i < old(self)@.paths.len() && old(self)@.paths[i] == path@;
                assert(matches_either(old(self)@.paths[i], canonical@, path@));
            }
        }
        r
    }
}

} // verus!
