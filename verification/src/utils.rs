//! Small helpers: the string form of a path (canonical or as given), the
//! existence test behind `path add`, and uppercasing the first letter of a
//! readout.

use vstd::prelude::*;

verus! {

/// Relies on `std::path::Path::canonicalize`: the absolute, symlink-resolved
/// form of the path, or `None` where resolution fails (for instance because
/// the path does not exist) or the result is not valid UTF-8. The outcome
/// depends on the filesystem, so nothing is stated of it.
#[verifier::external_body]
pub(crate) fn canonical_form(p: &String) -> (r: Option<String>) {
    match std::path::Path::new(p.as_str()).canonicalize() {
        Ok(resolved) => resolved.into_os_string().into_string().ok(),
        Err(_) => None,
    }
}

/// Relies on `std::path::Path::exists`: whether the path points at an
/// existing entity on disk. The outcome depends on the filesystem, so
/// nothing is stated of it.
#[verifier::external_body]
pub(crate) fn path_exists(p: &String) -> (r: bool) {
    std::path::Path::new(p.as_str()).exists()
}

/// Relies on `String::push`: appends the given character at the end.
#[verifier::external_body]
pub(crate) fn push_char(s: &mut String, c: char)
    ensures
        final(s)@ == old(s)@.push(c),
{
    s.push(c);
}

/// The string form of a path: its canonical form when `canonicalize` is
/// set (`None` where the filesystem refuses that), otherwise the path as
/// given.
pub fn pathbuf_to_string(p: &String, canonicalize: bool) -> (r: Option<String>)
    ensures
        !canonicalize ==> (r matches Some(s) && s@ == p@),
{
    if canonicalize {
        canonical_form(p)
    } else {
        Some(p.clone())
    }
}

/// `c` with an ASCII lowercase letter mapped to its uppercase form.
pub open spec fn upper_char(c: char) -> char {
    if 'a' <= c <= 'z' {
        ((c as u8) - 32) as char
    } else {
        c
    }
}

/// `s` with the first letter uppercased, when it is an ASCII lowercase one.
pub open spec fn spec_first_letter_uppercase(s: Seq<char>) -> Seq<char> {
    if s.len() == 0 {
        s
    } else {
        seq![upper_char(s[0])] + s.skip(1)
    }
}

/// A copy of `s` whose first letter is uppercased, when it is an ASCII
/// lowercase one; any other string comes back unchanged.
pub fn first_letter_uppercase(s: &String) -> (r: String)
    ensures
        r@ == spec_first_letter_uppercase(s@),
{
    let n = s.as_str().unicode_len();
    if n == 0 {
        return s.clone();
    }
    let c = s.as_str().get_char(0);
    let up: char = if 'a' <= c && c <= 'z' {
        ((c as u8) - 32) as char
    } else {
        c
    };
    let mut r = String::new();
    push_char(&mut r, up);
    let rest = s.as_str().substring_char(1, n);
    r.append(rest);
    proof {
        assert(r@ =~= spec_first_letter_uppercase(s@));
    }
    r
}

} // verus!
