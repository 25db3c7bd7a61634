//! The access decision engine and the permission mutation engine.
//!
//! `can_access` answers allow/deny from the role lattice; `grant`,
//! `update_role` and `revoke` mutate permission state under the
//! self-protection rules. Authorization is the calling layer's
//! responsibility: these operations enforce only data-level invariants.

use vstd::prelude::*;
use crate::role::{Role, Capability, spec_allows};
use crate::error::MutationError;
use crate::store::{Store, spec_find_role, find_role, insert_or_replace_role, delete_role};

verus! {

/// Whether `actor` may act on document `d` with capability `c`: a pure
/// predicate over the store state at call time.
pub open spec fn spec_can_access(s: Store, actor: int, d: int, c: Capability) -> bool {
    spec_allows(spec_find_role(s, d, actor), c)
}

/// Decides whether `actor_id` holds `required` capability on `document_id`:
/// a fresh lookup, then the lattice rule; no role row means deny.
pub fn can_access(s: &Store, actor_id: i32, document_id: i32, required: Capability) -> (allowed:
    bool)
    requires
        s.wf(),
    ensures
        allowed == spec_can_access(*s, actor_id as int, document_id as int, required),
{
    let found = find_role(s, document_id, actor_id);
    crate::role::decide_access(found, required)
}

/// The role update rule on observed store state, for a caller whose store
/// reported whether the target row exists: an actor may not target themself
/// with anything below owner, and the target row must exist.
pub fn update_role_decision(
    actor_id: i32,
    target_user_id: i32,
    new_role: Role,
    target_exists: bool,
) -> (r: Result<(), MutationError>)
    ensures
        actor_id == target_user_id && new_role != Role::Owner ==> r == Result::<(),
            MutationError,
        >::Err(MutationError::SelfDowngradeError),
        !(actor_id == target_user_id && new_role != Role::Owner) && !target_exists ==> r
            == Result::<(), MutationError>::Err(MutationError::TargetNotFoundError),
        !(actor_id == target_user_id && new_role != Role::Owner) && target_exists ==> r is Ok,
{
    if actor_id == target_user_id && new_role != Role::Owner {
        Result::Err(MutationError::SelfDowngradeError)
    } else if !target_exists {
        Result::Err(MutationError::TargetNotFoundError)
    } else {
        Result::Ok(())
    }
}

/// The revocation rule on observed store state: an actor may never remove
/// their own access, and the target row must exist.
pub fn revoke_decision(actor_id: i32, target_user_id: i32, target_exists: bool) -> (r: Result<
    (),
    MutationError,
>)
    ensures
        actor_id == target_user_id ==> r == Result::<(), MutationError>::Err(
            MutationError::SelfRevocationError,
        ),
        actor_id != target_user_id && !target_exists ==> r == Result::<(), MutationError>::Err(
            MutationError::TargetNotFoundError,
        ),
        actor_id != target_user_id && target_exists ==> r is Ok,
{
    if actor_id == target_user_id {
        Result::Err(MutationError::SelfRevocationError)
    } else if !target_exists {
        Result::Err(MutationError::TargetNotFoundError)
    } else {
        Result::Ok(())
    }
}

/// Grants `role` on `document_id` to `grantee_id` as an upsert: an existing
/// row has its role replaced, otherwise a new row is inserted. Granting the
/// same role twice is a no-op in effect, and no restriction is placed on the
/// role value beyond the three valid tiers.
pub fn grant(s: &mut Store, document_id: i32, grantee_id: i32, role: Role, now: i64) -> (r: Result<
    (),
    MutationError,
>)
    requires
        old(s).wf(),
    ensures
        final(s).wf(),
        r is Ok,
        final(s).perms_map() == old(s).perms_map().insert(
            (document_id as int, grantee_id as int),
            role,
        ),
        final(s).docs@ == old(s).docs@,
        final(s).next_doc_id == old(s).next_doc_id,
{
    insert_or_replace_role(s, document_id, grantee_id, role, now);
    Result::Ok(())
}

/// Overwrites the role of an existing row for (`document_id`,
/// `target_user_id`). Fails with `SelfDowngradeError` when the actor targets
/// themself with anything below owner, and with `TargetNotFoundError` when no
/// row exists; in both cases the store is unchanged.
pub fn update_role(
    s: &mut Store,
    document_id: i32,
    actor_id: i32,
    target_user_id: i32,
    new_role: Role,
) -> (r: Result<(), MutationError>)
    requires
        old(s).wf(),
    ensures
        final(s).wf(),
        actor_id == target_user_id && new_role != Role::Owner ==> r == Result::<(),
            MutationError,
        >::Err(MutationError::SelfDowngradeError) && *final(s) == *old(s),
        !(actor_id == target_user_id && new_role != Role::Owner) && !old(s).perms_map().contains_key(
            (document_id as int, target_user_id as int),
        ) ==> r == Result::<(), MutationError>::Err(MutationError::TargetNotFoundError) && *final(s)
            == *old(s),
        !(actor_id == target_user_id && new_role != Role::Owner) && old(s).perms_map().contains_key(
            (document_id as int, target_user_id as int),
        ) ==> r is Ok && final(s).perms_map() == old(s).perms_map().insert(
            (document_id as int, target_user_id as int),
            new_role,
        ) && final(s).docs@ == old(s).docs@ && final(s).next_doc_id == old(s).next_doc_id,
{
    let target_exists = find_role(s, document_id, target_user_id).is_some();
    match update_role_decision(actor_id, target_user_id, new_role, target_exists) {
        Result::Ok(()) => {
            insert_or_replace_role(s, document_id, target_user_id, new_role, 0);
            Result::Ok(())
        },
        Result::Err(e) => Result::Err(e),
    }
}

/// Deletes the row for (`document_id`, `target_user_id`). Fails with
/// `SelfRevocationError` when the actor targets themself — an owner may never
/// remove their own access — and with `TargetNotFoundError` when no row
/// exists; in both cases the store is unchanged.
pub fn revoke(s: &mut Store, document_id: i32, actor_id: i32, target_user_id: i32) -> (r: Result<
    (),
    MutationError,
>)
    requires
        old(s).wf(),
    ensures
        final(s).wf(),
        actor_id == target_user_id ==> r == Result::<(), MutationError>::Err(
            MutationError::SelfRevocationError,
        ) && *final(s) == *old(s),
        actor_id != target_user_id && !old(s).perms_map().contains_key(
            (document_id as int, target_user_id as int),
        ) ==> r == Result::<(), MutationError>::Err(MutationError::TargetNotFoundError) && *final(s)
            == *old(s),
        actor_id != target_user_id && old(s).perms_map().contains_key(
            (document_id as int, target_user_id as int),
        ) ==> r is Ok && final(s).perms_map() == old(s).perms_map().remove(
            (document_id as int, target_user_id as int),
        ) && final(s).docs@ == old(s).docs@ && final(s).next_doc_id == old(s).next_doc_id,
{
    if actor_id == target_user_id {
        return Result::Err(MutationError::SelfRevocationError);
    }
    let existed = delete_role(s, document_id, target_user_id);
    if existed {
        Result::Ok(())
    } else {
        Result::Err(MutationError::TargetNotFoundError)
    }
}

} // verus!
