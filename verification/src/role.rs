//! The role lattice and the access decision rule.

use vstd::prelude::*;

verus! {

/// A user's assigned tier on a document.
#[derive(Clone, Copy, PartialEq, Eq, Structural, Debug)]
pub enum Role {
    Viewer,
    Editor,
    Owner,
}

/// The permission tier an operation requires.
#[derive(Clone, Copy, PartialEq, Eq, Structural, Debug)]
pub enum Capability {
    View,
    Edit,
    Own,
}

/// Height of a role in the lattice viewer < editor < owner.
pub open spec fn role_rank(r: Role) -> int {
    match r {
        Role::Viewer => 0,
        Role::Editor => 1,
        Role::Owner => 2,
    }
}

/// Tier a capability demands: any role grants view, edit needs at least
/// editor, own needs owner exactly.
pub open spec fn cap_rank(c: Capability) -> int {
    match c {
        Capability::View => 0,
        Capability::Edit => 1,
        Capability::Own => 2,
    }
}

/// The lattice decision: a role covers a capability when its tier is at or
/// above the tier the capability demands.
pub open spec fn spec_satisfies(r: Role, c: Capability) -> bool {
    role_rank(r) >= cap_rank(c)
}

/// The decision rule over a permission lookup result: no role row denies;
/// a row allows iff its role covers the required capability.
pub open spec fn spec_allows(found: Option<Role>, c: Capability) -> bool {
    match found {
        Option::Some(r) => spec_satisfies(r, c),
        Option::None => false,
    }
}

/// Whether role `r` covers capability `c` in the lattice.
pub fn role_satisfies(r: Role, c: Capability) -> (b: bool)
    ensures
        b == spec_satisfies(r, c),
{
    match c {
        Capability::View => true,
        Capability::Edit => r == Role::Editor || r == Role::Owner,
        Capability::Own => r == Role::Owner,
    }
}

/// The access decision on the result of a permission store lookup:
/// deny when no row was found, otherwise decide by the lattice.
pub fn decide_access(found: Option<Role>, c: Capability) -> (b: bool)
    ensures
        b == spec_allows(found, c),
{
    match found {
        Option::Some(r) => role_satisfies(r, c),
        Option::None => false,
    }
}

} // verus!
