//! The properties the library promises, stated and proved over the same
//! spec functions and views the operations' contracts use.

use vstd::prelude::*;
use vstd::map::*;
use crate::role::{Role, Capability, spec_satisfies};
use crate::store::{Store, Document, spec_find_role, has_perm_at};
use crate::engine::spec_can_access;

verus! {

/// Lattice monotonicity: any role grants view; edit is granted exactly to
/// editor and owner; own exactly to owner.
pub proof fn lemma_lattice_monotonicity(r: Role)
    ensures
        spec_satisfies(r, Capability::View),
        spec_satisfies(r, Capability::Edit) <==> (r == Role::Editor || r == Role::Owner),
        spec_satisfies(r, Capability::Own) <==> r == Role::Owner,
{
}

/// Lattice monotonicity at the store: a user holding role `r` on document
/// `d` can always view it, can edit it exactly when the role is editor or
/// owner, and holds own capability exactly when the role is owner.
pub proof fn lemma_can_access_lattice(s: Store, u: int, d: int, r: Role)
    requires
        s.perms_map().contains_key((d, u)),
        s.perms_map()[(d, u)] == r,
    ensures
        spec_can_access(s, u, d, Capability::View),
        spec_can_access(s, u, d, Capability::Edit) <==> (r == Role::Editor || r == Role::Owner),
        spec_can_access(s, u, d, Capability::Own) <==> r == Role::Owner,
{
}

/// No-role denial: with no permission row for (`d`, `u`), every capability
/// check denies.
pub proof fn lemma_no_role_denial(s: Store, u: int, d: int, c: Capability)
    requires
        !s.perms_map().contains_key((d, u)),
    ensures
        !spec_can_access(s, u, d, c),
{
}

/// Owner seeding: a store whose permission state extends another's by an
/// owner row for (`id`, `u`) — as document creation leaves it — answers the
/// role lookup for (`id`, `u`) with owner.
pub proof fn lemma_owner_seeding(pre: Store, post: Store, id: int, u: int)
    requires
        post.perms_map() == pre.perms_map().insert((id, u), Role::Owner),
    ensures
        spec_find_role(post, id, u) == Option::Some(Role::Owner),
{
}

/// Grant idempotence: granting the same role twice leaves exactly the
/// permission state of granting it once.
pub proof fn lemma_grant_idempotent(m: Map<(int, int), Role>, d: int, u: int, r: Role)
    ensures
        m.insert((d, u), r).insert((d, u), r) == m.insert((d, u), r),
{
    assert_maps_equal!(m.insert((d, u), r).insert((d, u), r), m.insert((d, u), r));
}

/// A well-formed store holds at most one row per (document, user) pair, so
/// an upsert leaves exactly one row for its key.
pub proof fn lemma_at_most_one_row(s: Store, d: int, u: int, i: int, j: int)
    requires
        s.wf(),
        has_perm_at(s.perms@, i, d, u),
        has_perm_at(s.perms@, j, d, u),
    ensures
        i == j,
{
}

/// Self-protection preserves ownership: a role update that passes the
/// self-downgrade rule keeps an owner row on the document, because the
/// acting owner's own row survives every such update.
pub proof fn lemma_update_keeps_owner(m: Map<(int, int), Role>, d: int, o: int, t: int, r: Role)
    requires
        m.contains_key((d, o)),
        m[(d, o)] == Role::Owner,
        t == o ==> r == Role::Owner,
    ensures
        exists|u: int| #![auto]
            m.insert((d, t), r).contains_key((d, u)) && m.insert((d, t), r)[(d, u)] == Role::Owner,
{
    let m2 = m.insert((d, t), r);
    assert(m2.contains_key((d, o)) && m2[(d, o)] == Role::Owner);
}

/// Self-protection preserves ownership under revocation: a revocation that
/// passes the self-revocation rule leaves the acting owner's row in place.
pub proof fn lemma_revoke_keeps_owner(m: Map<(int, int), Role>, d: int, o: int, t: int)
    requires
        m.contains_key((d, o)),
        m[(d, o)] == Role::Owner,
        t != o,
    ensures
        m.remove((d, t)).contains_key((d, o)),
        m.remove((d, t))[(d, o)] == Role::Owner,
{
}

/// Last writer wins: two racing document updates serialize at the store, the
/// stored document afterwards is the one of whichever write committed last,
/// and in either order it is one of the two submitted values — never a mix.
pub proof fn lemma_update_race(m: Map<int, Document>, d: int, a: Document, b: Document)
    ensures
        m.insert(d, a).insert(d, b)[d] == b,
        m.insert(d, b).insert(d, a)[d] == a,
        m.insert(d, a).insert(d, b)[d] == a || m.insert(d, a).insert(d, b)[d] == b,
        m.insert(d, b).insert(d, a)[d] == a || m.insert(d, b).insert(d, a)[d] == b,
{
}

} // verus!
