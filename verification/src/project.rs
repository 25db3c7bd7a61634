//! Projects: an independent single-owner resource. Only the decision and
//! merge logic lives here; projects carry no multi-user permissions.

use vstd::prelude::*;

verus! {

/// A project: owned exclusively by one user; timestamps are epoch
/// milliseconds.
#[derive(Debug)]
pub struct Project {
    pub id: i32,
    pub name: String,
    pub description: Option<String>,
    pub owner_id: i32,
    pub created_at: i64,
    pub updated_at: i64,
}

/// Payload of a project creation request.
#[derive(Debug)]
pub struct CreateProjectPayload {
    pub name: String,
    pub description: Option<String>,
}

/// Payload of a project update request; an absent field keeps the stored
/// value.
#[derive(Debug)]
pub struct UpdateProjectPayload {
    pub name: Option<String>,
    pub description: Option<String>,
}

/// A field-for-field copy of an optional text.
fn clone_text(o: &Option<String>) -> (r: Option<String>)
    ensures
        r == *o,
{
    match o {
        Option::Some(x) => Option::Some(x.clone()),
        Option::None => Option::None,
    }
}

/// The single-owner access rule: only the owner may read, change or delete
/// a project.
pub fn owns_project(p: &Project, user_id: i32) -> (b: bool)
    ensures
        b == (p.owner_id == user_id),
{
    p.owner_id == user_id
}

/// Merges an update payload into a stored project: a given name replaces the
/// stored one, a given description replaces the stored one, absent fields
/// keep the stored values, and the modification timestamp is refreshed.
pub fn apply_project_update(p: &Project, payload: UpdateProjectPayload, now: i64) -> (q: Project)
    ensures
        q.id == p.id,
        q.owner_id == p.owner_id,
        q.created_at == p.created_at,
        q.updated_at == now,
        q.name == (match payload.name {
            Option::Some(n) => n,
            Option::None => p.name,
        }),
        q.description == (match payload.description {
            Option::Some(x) => Option::Some(x),
            Option::None => p.description,
        }),
{
    let name = match payload.name {
        Option::Some(n) => n,
        Option::None => p.name.clone(),
    };
    let description = match payload.description {
        Option::Some(x) => Option::Some(x),
        Option::None => clone_text(&p.description),
    };
    Project {
        id: p.id,
        name,
        description,
        owner_id: p.owner_id,
        created_at: p.created_at,
        updated_at: now,
    }
}

} // verus!
