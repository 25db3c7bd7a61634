//! Character-level helpers: blank-name detection and role names.

use vstd::prelude::*;
use vstd::string::StrSliceExecFns;
use crate::role::Role;

verus! {

/// A whitespace character, as the name validation rule understands it:
/// the Unicode white-space characters.
pub open spec fn spec_is_space(c: char) -> bool {
    c == ' ' || c == '\t' || c == '\n' || c == '\r' || c == '\u{b}' || c == '\u{c}'
        || c == '\u{85}' || c == '\u{a0}' || c == '\u{1680}' || c == '\u{2000}'
        || c == '\u{2001}' || c == '\u{2002}' || c == '\u{2003}' || c == '\u{2004}'
        || c == '\u{2005}' || c == '\u{2006}' || c == '\u{2007}' || c == '\u{2008}'
        || c == '\u{2009}' || c == '\u{200a}' || c == '\u{2028}' || c == '\u{2029}'
        || c == '\u{202f}' || c == '\u{205f}' || c == '\u{3000}'
}

/// A name is blank when every character is whitespace; the empty name is blank.
pub open spec fn spec_blank(s: Seq<char>) -> bool {
    forall|i: int| 0 <= i < s.len() ==> spec_is_space(s[i])
}

/// Whether `c` is a whitespace character.
pub fn is_space(c: char) -> (b: bool)
    ensures
        b == spec_is_space(c),
{
    c == ' ' || c == '\t' || c == '\n' || c == '\r' || c == '\u{b}' || c == '\u{c}'
        || c == '\u{85}' || c == '\u{a0}' || c == '\u{1680}' || c == '\u{2000}'
        || c == '\u{2001}' || c == '\u{2002}' || c == '\u{2003}' || c == '\u{2004}'
        || c == '\u{2005}' || c == '\u{2006}' || c == '\u{2007}' || c == '\u{2008}'
        || c == '\u{2009}' || c == '\u{200a}' || c == '\u{2028}' || c == '\u{2029}'
        || c == '\u{202f}' || c == '\u{205f}' || c == '\u{3000}'
}

/// Whether `s` is empty or consists of whitespace only.
pub fn is_blank(s: &str) -> (b: bool)
    ensures
        b == spec_blank(s@),
{
    let n = s.unicode_len();
    let mut i: usize = 0;
    while i < n
        invariant
            i <= n,
            n == s@.len(),
            forall|j: int| 0 <= j < i ==> spec_is_space(s@[j]),
        decreases n - i,
    {
        let c = s.get_char(i);
        if !is_space(c) {
            assert(!spec_is_space(s@[i as int]));
            return false;
        }
        i += 1;
    }
    true
}

/// Character-for-character equality of two string slices.
pub fn str_eq(a: &str, b: &str) -> (r: bool)
    ensures
        r == (a@ == b@),
{
    let sa: String = a.to_owned();
    let sb: String = b.to_owned();
    sa == sb
}

/// The wire name of a role, as the permission rows spell it.
pub fn role_name(r: Role) -> (s: &'static str)
    ensures
        r == Role::Viewer ==> s@ == "viewer"@,
        r == Role::Editor ==> s@ == "editor"@,
        r == Role::Owner ==> s@ == "owner"@,
{
    match r {
        Role::Viewer => "viewer",
        Role::Editor => "editor",
        Role::Owner => "owner",
    }
}

/// Parses a wire role name; every other string is rejected, so invalid role
/// strings stop at this boundary.
pub fn parse_role(s: &str) -> (r: Option<Role>)
    ensures
        r == (if s@ == "viewer"@ {
            Option::Some(Role::Viewer)
        } else if s@ == "editor"@ {
            Option::Some(Role::Editor)
        } else if s@ == "owner"@ {
            Option::Some(Role::Owner)
        } else {
            Option::<Role>::None
        }),
{
    if str_eq(s, "viewer") {
        Option::Some(Role::Viewer)
    } else if str_eq(s, "editor") {
        Option::Some(Role::Editor)
    } else if str_eq(s, "owner") {
        Option::Some(Role::Owner)
    } else {
        Option::None
    }
}

} // verus!
