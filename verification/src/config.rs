//! The data model: profiles, the profile registry, and its well-formedness
//! invariant (the default profile always names an existing entry, and
//! profile names are unique).

use vstd::prelude::*;

verus! {

/// A profile: a command prefix (empty means "no prefix") and an ordered list
/// of stored path strings.
pub struct Profile {
    pub prefix: String,
    pub paths: Vec<String>,
}

/// Mathematical content of a [`Profile`].
#[verifier::ext_equal]
pub struct ProfileView {
    pub prefix: Seq<char>,
    pub paths: Seq<Seq<char>>,
}

impl View for Profile {
    type V = ProfileView;

    open spec fn view(&self) -> ProfileView {
        ProfileView { prefix: self.prefix@, paths: self.paths.deep_view() }
    }
}

/// One named entry of the registry.
pub struct ProfileEntry {
    pub name: String,
    pub profile: Profile,
}

/// Mathematical content of a [`ProfileEntry`].
#[verifier::ext_equal]
pub struct EntryView {
    pub name: Seq<char>,
    pub profile: ProfileView,
}

impl View for ProfileEntry {
    type V = EntryView;

    open spec fn view(&self) -> EntryView {
        EntryView { name: self.name@, profile: self.profile@ }
    }
}

/// The whole persisted state: the name of the default profile and the
/// registry of profiles, keyed by unique names.
pub struct Config {
    pub default_profile: String,
    pub profiles: Vec<ProfileEntry>,
}

/// Mathematical content of a [`Config`].
#[verifier::ext_equal]
pub struct ConfigView {
    pub default_profile: Seq<char>,
    pub entries: Seq<EntryView>,
}

impl View for Config {
    type V = ConfigView;

    open spec fn view(&self) -> ConfigView {
        ConfigView {
            default_profile: self.default_profile@,
            entries: self.profiles@.map_values(|e: ProfileEntry| e@),
        }
    }
}

/// The profile every new registry starts from.
pub open spec fn empty_profile() -> ProfileView {
    ProfileView { prefix: Seq::empty(), paths: Seq::empty() }
}

impl ConfigView {
    /// Whether some entry carries this name.
    pub open spec fn contains_name(self, name: Seq<char>) -> bool {
        exists|i: int| 0 <= i < self.entries.len() && self.entries[i].name == name
    }

    /// The position of the entry carrying this name; meaningful only under
    /// [`ConfigView::wf`], which makes that entry unique.
    pub open spec fn index_of_name(self, name: Seq<char>) -> int {
        choose|i: int| 0 <= i < self.entries.len() && self.entries[i].name == name
    }

    /// Registry invariant: names are unique and the default profile exists.
    pub open spec fn wf(self) -> bool {
        &&& forall|i: int, j: int|
            0 <= i < j < self.entries.len() ==> self.entries[i].name != self.entries[j].name
        &&& self.contains_name(self.default_profile)
    }
}

impl Config {
    /// Registry invariant, stated of the executable value.
    pub open spec fn wf(self) -> bool {
        self@.wf()
    }

    /// Looks the name up in the registry and reports the position of its
    /// entry, or `None` when no entry carries it.
    pub fn profile_index(&self, name: &String) -> (r: Option<usize>)
        ensures
            match r {
                Some(i) => 0 <= i < self@.entries.len() && self@.entries[i as int].name == name@
                    && (forall|j: int| 0 <= j < i ==> self@.entries[j].name != name@),
                None => !self@.contains_name(name@),
            },
    {
        let mut i: usize = 0;
        while i < self.profiles.len()
            invariant
                i <= self.profiles@.len(),
                self@.entries.len() == self.profiles@.len(),
                forall|j: int| 0 <= j < i ==> self@.entries[j].name != name@,
            decreases self.profiles@.len() - i,
        {
            if self.profiles[i].name == *name {
                return Some(i);
            }
            i += 1;
        }
        None
    }

    /// Whether a profile with this name is registered.
    pub fn contains_profile(&self, name: &String) -> (r: bool)
        ensures
            r == self@.contains_name(name@),
    {
        self.profile_index(name).is_some()
    }

    /// Whether a registry read from elsewhere satisfies the invariant:
    /// unique names, and a default profile that exists.
    pub fn check_wf(&self) -> (r: bool)
        ensures
            r == self.wf(),
    {
        let mut i: usize = 0;
        while i < self.profiles.len()
            invariant
                i <= self.profiles@.len(),
                self@.entries.len() == self.profiles@.len(),
                forall|a: int, b: int|
                    0 <= a < b < i ==> self@.entries[a].name != self@.entries[b].name,
            decreases self.profiles@.len() - i,
        {
            let mut j: usize = 0;
            while j < i
                invariant
                    j <= i < self.profiles@.len(),
                    self@.entries.len() == self.profiles@.len(),
                    forall|a: int, b: int|
                        0 <= a < b < i ==> self@.entries[a].name != self@.entries[b].name,
                    forall|a: int|
                        0 <= a < j ==> self@.entries[a].name != self@.entries[i as int].name,
                decreases i - j,
            {
                if self.profiles[j].name == self.profiles[i].name {
                    proof {
                        assert(self@.entries[j as int].name == self@.entries[i as int].name);
                    }
                    return false;
                }
                j += 1;
            }
            i += 1;
        }
        self.contains_profile(&self.default_profile)
    }
}

impl Default for Profile {
    /// A fresh profile: no prefix, no paths.
    fn default() -> (p: Profile)
        ensures
            p@ == empty_profile(),
    {
        let p = Profile { prefix: String::new(), paths: Vec::new() };
        proof {
            assert(p@ =~~= empty_profile());
        }
        p
    }
}

/// The registry a first run starts from: a single empty profile named
/// `default`, set as the default.
pub open spec fn initial_config() -> ConfigView {
    ConfigView {
        default_profile: "default"@,
        entries: seq![EntryView { name: "default"@, profile: empty_profile() }],
    }
}

/// The registry after `profile add`: the new entry is appended with an empty
/// profile, and it becomes the default when asked for.
pub open spec fn spec_add_profile(c: ConfigView, name: Seq<char>, make_default: bool) -> ConfigView {
    ConfigView {
        default_profile: if make_default {
            name
        } else {
            c.default_profile
        },
        entries: c.entries.push(EntryView { name: name, profile: empty_profile() }),
    }
}

/// The registry after `profile remove`: the entry carrying the name is gone.
pub open spec fn spec_remove_profile(c: ConfigView, name: Seq<char>) -> ConfigView {
    ConfigView {
        default_profile: c.default_profile,
        entries: c.entries.remove(c.index_of_name(name)),
    }
}

/// The registry after `profile set-default`.
pub open spec fn spec_set_default(c: ConfigView, name: Seq<char>) -> ConfigView {
    ConfigView { default_profile: name, entries: c.entries }
}

/// The names of all entries other than the default one, in stored order.
pub open spec fn spec_other_names(entries: Seq<EntryView>, default_name: Seq<char>) -> Seq<
    Seq<char>,
>
    decreases entries.len(),
{
    if entries.len() == 0 {
        Seq::empty()
    } else {
        spec_other_names(entries.drop_last(), default_name) + (if entries.last().name
            == default_name {
            Seq::empty()
        } else {
            seq![entries.last().name]
        })
    }
}

/// What `profile` with no subcommand lists: the default profile first, then
/// the others in stored order.
pub open spec fn spec_list_profiles(c: ConfigView) -> Seq<Seq<char>> {
    seq![c.default_profile] + spec_other_names(c.entries, c.default_profile)
}

/// The listing of the non-default names shows exactly the names of the
/// non-default entries.
pub proof fn lemma_other_names_contains(entries: Seq<EntryView>, d: Seq<char>, x: Seq<char>)
    ensures
        spec_other_names(entries, d).contains(x) <==> (x != d && exists|i: int|
            0 <= i < entries.len() && entries[i].name == x),
    decreases entries.len(),
{
    if entries.len() == 0 {
    } else {
        let pre = entries.drop_last();
        let pre_names = spec_other_names(pre, d);
        let all = spec_other_names(entries, d);
        lemma_other_names_contains(pre, d, x);
        if all.contains(x) {
            let k = choose|k: int| 0 <= k < all.len() && all[k] == x;
            if k < pre_names.len() {
                assert(pre_names[k] == x);
                assert(pre_names.contains(x));
                let i = choose|i: int| 0 <= i < pre.len() && pre[i].name == x;
                assert(entries[i].name == x);
            } else {
                assert(entries[entries.len() - 1].name == x);
            }
        }
        if x != d && exists|i: int| 0 <= i < entries.len() && entries[i].name == x {
            let i = choose|i: int| 0 <= i < entries.len() && entries[i].name == x;
            if i < entries.len() - 1 {
                assert(pre[i].name == x);
                let k = choose|k: int| 0 <= k < pre_names.len() && pre_names[k] == x;
                assert(all[k] == x);
            } else {
                assert(all[pre_names.len() as int] == x);
            }
        }
    }
}

/// Law: a profile just added is shown by the listing.
pub proof fn lemma_added_profile_listed(c: ConfigView, name: Seq<char>, make_default: bool)
    requires
        c.wf(),
        !c.contains_name(name),
    ensures
        spec_list_profiles(spec_add_profile(c, name, make_default)).contains(name),
{
    let c2 = spec_add_profile(c, name, make_default);
    let listed = spec_list_profiles(c2);
    if make_default {
        assert(listed[0] == name);
    } else {
        assert(name != c.default_profile);
        assert(c2.entries[c.entries.len() as int].name == name);
        lemma_other_names_contains(c2.entries, c2.default_profile, name);
        let k = choose|k: int|
            0 <= k < spec_other_names(c2.entries, c2.default_profile).len()
                && spec_other_names(c2.entries, c2.default_profile)[k] == name;
        assert(listed[k + 1] == name);
    }
}

/// Law: a profile just removed is no longer shown by the listing.
pub proof fn lemma_removed_profile_unlisted(c: ConfigView, name: Seq<char>)
    requires
        c.wf(),
        c.contains_name(name),
        name != c.default_profile,
    ensures
        !spec_list_profiles(spec_remove_profile(c, name)).contains(name),
{
    let idx = c.index_of_name(name);
    let c2 = spec_remove_profile(c, name);
    c.entries.remove_ensures(idx);
    assert forall|i: int| 0 <= i < c2.entries.len() implies c2.entries[i].name != name by {
        if i < idx {
            assert(c2.entries[i] == c.entries[i]);
        } else {
            assert(c2.entries[i] == c.entries[i + 1]);
        }
    }
    lemma_other_names_contains(c2.entries, c2.default_profile, name);
    let listed = spec_list_profiles(c2);
    assert forall|k: int| 0 <= k < listed.len() implies listed[k] != name by {
        if k > 0 {
            let others = spec_other_names(c2.entries, c2.default_profile);
            assert(listed[k] == others[k - 1]);
            if others[k - 1] == name {
                assert(others.contains(name));
            }
        }
    }
    if listed.contains(name) {
        let k = choose|k: int| 0 <= k < listed.len() && listed[k] == name;
        assert(listed[k] != name);
    }
}

impl Config {
    /// Lists the profile names: the default first, then the others in
    /// stored order.
    pub fn list_profiles(&self) -> (r: Vec<String>)
        ensures
            r.deep_view() == spec_list_profiles(self@),
    {
        let ghost d = self@.default_profile;
        let mut r: Vec<String> = Vec::new();
        r.push(self.default_profile.clone());
        proof {
            assert(self@.entries.take(0) =~= Seq::<EntryView>::empty());
            assert(r.deep_view() =~= seq![d] + spec_other_names(self@.entries.take(0), d));
        }
        let mut i: usize = 0;
        while i < self.profiles.len()
            invariant
                i <= self.profiles@.len(),
                self@.entries.len() == self.profiles@.len(),
                d == self@.default_profile,
                r.deep_view() == seq![d] + spec_other_names(self@.entries.take(i as int), d),
            decreases self.profiles@.len() - i,
        {
            let ghost prev = r.deep_view();
            if !(self.profiles[i].name == self.default_profile) {
                r.push(self.profiles[i].name.clone());
                proof {
                    assert(r.deep_view() =~= prev.push(self@.entries[i as int].name));
                }
            }
            proof {
                assert(self@.entries.take(i + 1).drop_last() =~= self@.entries.take(i as int));
                assert(self@.entries.take(i + 1).last() == self@.entries[i as int]);
                assert(r.deep_view() =~= seq![d] + spec_other_names(
                    self@.entries.take(i + 1),
                    d,
                ));
            }
            i += 1;
        }
        proof {
            assert(self@.entries.take(self.profiles@.len() as int) =~= self@.entries);
        }
        r
    }
}

impl Default for Config {
    fn default() -> (c: Config)
        ensures
            c@ == initial_config(),
            c.wf(),
    {
        let name = String::from_str("default");
        let mut profiles: Vec<ProfileEntry> = Vec::new();
        profiles.push(ProfileEntry { name: name.clone(), profile: Profile::default() });
        let c = Config { default_profile: name, profiles };
        proof {
            assert(c@.entries =~~= initial_config().entries);
            assert(c@ =~~= initial_config());
            assert(c@.entries[0].name == c@.default_profile);
        }
        c
    }
}

} // verus!
