//! The calling layer over the engines: each permission request first passes
//! the own- or view-capability pre-check, and only then does the mutation
//! engine run — a denied actor never reaches the store write.

use vstd::prelude::*;
use crate::role::{Role, Capability};
use crate::error::MutationError;
use crate::engine::{can_access, grant, update_role, revoke, spec_can_access};
use crate::store::{Store, list_users_with_role_for_document};

verus! {

/// Payload of a permission grant request.
#[derive(Clone, Copy, PartialEq, Eq, Structural, Debug)]
pub struct CreatePermissionPayload {
    pub user_id: i32,
    pub role: Role,
}

/// Payload of a permission update request.
#[derive(Clone, Copy, PartialEq, Eq, Structural, Debug)]
pub struct UpdatePermissionPayload {
    pub user_id: i32,
    pub role: Role,
}

/// Grants a role on a document on behalf of `actor_id`: the actor must hold
/// own capability, and the grant itself is an upsert with no further
/// restriction — the mutation never runs for a denied actor.
pub fn grant_document_permission(
    s: &mut Store,
    actor_id: i32,
    document_id: i32,
    payload: CreatePermissionPayload,
    now: i64,
) -> (r: Result<(), MutationError>)
    requires
        old(s).wf(),
    ensures
        final(s).wf(),
        !spec_can_access(*old(s), actor_id as int, document_id as int, Capability::Own) ==> r
            == Result::<(), MutationError>::Err(MutationError::PermissionDeniedError) && *final(s)
            == *old(s),
        spec_can_access(*old(s), actor_id as int, document_id as int, Capability::Own) ==> r is Ok
            && final(s).perms_map() == old(s).perms_map().insert(
            (document_id as int, payload.user_id as int),
            payload.role,
        ) && final(s).docs@ == old(s).docs@ && final(s).next_doc_id == old(s).next_doc_id,
{
    if !can_access(s, actor_id, document_id, Capability::Own) {
        return Result::Err(MutationError::PermissionDeniedError);
    }
    grant(s, document_id, payload.user_id, payload.role, now)
}

/// Updates a user's role on a document on behalf of `actor_id`: the actor
/// must hold own capability; an owner may not downgrade themself; the target
/// row must exist.
pub fn update_document_permission(
    s: &mut Store,
    actor_id: i32,
    document_id: i32,
    payload: UpdatePermissionPayload,
) -> (r: Result<(), MutationError>)
    requires
        old(s).wf(),
    ensures
        final(s).wf(),
        !spec_can_access(*old(s), actor_id as int, document_id as int, Capability::Own) ==> r
            == Result::<(), MutationError>::Err(MutationError::PermissionDeniedError) && *final(s)
            == *old(s),
        spec_can_access(*old(s), actor_id as int, document_id as int, Capability::Own) ==> {
            &&& actor_id == payload.user_id && payload.role != Role::Owner ==> r == Result::<
                (),
                MutationError,
            >::Err(MutationError::SelfDowngradeError) && *final(s) == *old(s)
            &&& !(actor_id == payload.user_id && payload.role != Role::Owner)
                && !old(s).perms_map().contains_key((document_id as int, payload.user_id as int))
                ==> r == Result::<(), MutationError>::Err(MutationError::TargetNotFoundError)
                && *final(s) == *old(s)
            &&& !(actor_id == payload.user_id && payload.role != Role::Owner)
                && old(s).perms_map().contains_key((document_id as int, payload.user_id as int))
                ==> r is Ok && final(s).perms_map() == old(s).perms_map().insert(
                (document_id as int, payload.user_id as int),
                payload.role,
            ) && final(s).docs@ == old(s).docs@ && final(s).next_doc_id == old(s).next_doc_id
        },
{
    if !can_access(s, actor_id, document_id, Capability::Own) {
        return Result::Err(MutationError::PermissionDeniedError);
    }
    update_role(s, document_id, actor_id, payload.user_id, payload.role)
}

/// Removes a user's permission on a document on behalf of `actor_id`: the
/// actor must hold own capability; an owner may never remove their own
/// access; the target row must exist.
pub fn remove_document_permission(
    s: &mut Store,
    actor_id: i32,
    document_id: i32,
    target_user_id: i32,
) -> (r: Result<(), MutationError>)
    requires
        old(s).wf(),
    ensures
        final(s).wf(),
        !spec_can_access(*old(s), actor_id as int, document_id as int, Capability::Own) ==> r
            == Result::<(), MutationError>::Err(MutationError::PermissionDeniedError) && *final(s)
            == *old(s),
        spec_can_access(*old(s), actor_id as int, document_id as int, Capability::Own) ==> {
            &&& actor_id == target_user_id ==> r == Result::<(), MutationError>::Err(
                MutationError::SelfRevocationError,
            ) && *final(s) == *old(s)
            &&& actor_id != target_user_id && !old(s).perms_map().contains_key(
                (document_id as int, target_user_id as int),
            ) ==> r == Result::<(), MutationError>::Err(MutationError::TargetNotFoundError)
                && *final(s) == *old(s)
            &&& actor_id != target_user_id && old(s).perms_map().contains_key(
                (document_id as int, target_user_id as int),
            ) ==> r is Ok && final(s).perms_map() == old(s).perms_map().remove(
                (document_id as int, target_user_id as int),
            ) && final(s).docs@ == old(s).docs@ && final(s).next_doc_id == old(s).next_doc_id
        },
{
    if !can_access(s, actor_id, document_id, Capability::Own) {
        return Result::Err(MutationError::PermissionDeniedError);
    }
    revoke(s, document_id, actor_id, target_user_id)
}

/// Lists the users holding a role on a document on behalf of `actor_id`:
/// view capability suffices, and every role qualifies for inclusion.
pub fn get_document_users(s: &Store, actor_id: i32, document_id: i32) -> (r: Result<
    Vec<(i32, Role)>,
    MutationError,
>)
    requires
        s.wf(),
    ensures
        !spec_can_access(*s, actor_id as int, document_id as int, Capability::View) ==> r
            == Result::<Vec<(i32, Role)>, MutationError>::Err(MutationError::PermissionDeniedError),
        spec_can_access(*s, actor_id as int, document_id as int, Capability::View) ==> r is Ok && {
            let users = r->Ok_0;
            &&& forall|j: int|
                0 <= j < users@.len() ==> s.perms_map().contains_key(
                    (document_id as int, #[trigger] users@[j].0 as int),
                ) && s.perms_map()[(document_id as int, users@[j].0 as int)] == users@[j].1
            &&& forall|u: int|
                s.perms_map().contains_key((document_id as int, u)) ==> exists|j: int|
                    0 <= j < users@.len() && #[trigger] users@[j].0 as int == u
            &&& forall|j1: int, j2: int|
                0 <= j1 < j2 < users@.len() ==> users@[j1].0 != users@[j2].0
        },
{
    if !can_access(s, actor_id, document_id, Capability::View) {
        return Result::Err(MutationError::PermissionDeniedError);
    }
    Result::Ok(list_users_with_role_for_document(s, document_id))
}

} // verus!
