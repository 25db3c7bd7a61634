//! The document lifecycle coordinator: creation seeds an owner permission,
//! and reads and writes are gated through the access decision engine.

use vstd::prelude::*;
use vstd::map::*;
use crate::role::{Role, Capability};
use crate::error::{CreationError, ReadError, UpdateError};
use crate::text::{is_blank, spec_blank};
use crate::engine::{can_access, grant, spec_can_access};
use crate::store::{
    Store, Document, doc_at, docs_unique, has_doc_id, find_doc_index, lemma_doc_index_is,
    lemma_perms_map_congruent, lemma_docs_map_congruent,
};

verus! {

/// Creates a document owned by `creator_id`: a blank name is rejected before
/// any store interaction; otherwise the document is persisted under a fresh
/// identifier and the creator is granted the owner role in the same step.
pub fn create_document(
    s: &mut Store,
    creator_id: i32,
    name: String,
    content: String,
    now: i64,
) -> (r: Result<Document, CreationError>)
    requires
        old(s).wf(),
    ensures
        final(s).wf(),
        spec_blank(name@) ==> r == Result::<Document, CreationError>::Err(
            CreationError::InvalidNameError,
        ) && *final(s) == *old(s),
        !spec_blank(name@) && old(s).next_doc_id == i32::MAX ==> r == Result::<
            Document,
            CreationError,
        >::Err(CreationError::StoreError) && *final(s) == *old(s),
        !spec_blank(name@) && old(s).next_doc_id < i32::MAX ==> r is Ok && {
            let doc = r->Ok_0;
            &&& doc.id == old(s).next_doc_id
            &&& doc.name == name
            &&& doc.content == content
            &&& doc.user_id == creator_id
            &&& doc.created_at == now
            &&& doc.updated_at == now
            &&& !old(s).docs_map().contains_key(doc.id as int)
            &&& final(s).docs_map() == old(s).docs_map().insert(doc.id as int, doc)
            &&& final(s).perms_map() == old(s).perms_map().insert(
                (doc.id as int, creator_id as int),
                Role::Owner,
            )
            &&& final(s).next_doc_id == old(s).next_doc_id + 1
        },
{
    if is_blank(name.as_str()) {
        return Result::Err(CreationError::InvalidNameError);
    }
    if s.next_doc_id == i32::MAX {
        return Result::Err(CreationError::StoreError);
    }
    let id = s.next_doc_id;
    let doc = Document { id, name, content, user_id: creator_id, created_at: now, updated_at: now };
    let result = doc.duplicate();
    let ghost pre = *s;
    s.docs.push(doc);
    s.next_doc_id = id + 1;
    proof {
        let new_d = s.docs@;
        let old_d = pre.docs@;
        assert(new_d == old_d.push(result));
        assert forall|j1: int, j2: int|
            0 <= j1 < new_d.len() && 0 <= j2 < new_d.len() && j1 != j2 implies new_d[j1].id
            != new_d[j2].id by {
            if j1 < old_d.len() && j2 < old_d.len() {
                assert(new_d[j1] == old_d[j1]);
                assert(new_d[j2] == old_d[j2]);
            } else if j1 < old_d.len() {
                assert(new_d[j2] == result);
                assert(old_d[j1].id < id);
            } else {
                assert(new_d[j1] == result);
                assert(old_d[j2].id < id);
            }
        }
        assert(docs_unique(new_d));
        if has_doc_id(old_d, id as int) {
            let j = choose|j: int| doc_at(old_d, j, id as int);
            assert(doc_at(old_d, j, id as int));
            assert(false);
        }
        assert_maps_equal!(s.docs_map(), pre.docs_map().insert(id as int, result), k => {
            if k == id as int {
                lemma_doc_index_is(new_d, old_d.len() as int, id as int);
            } else {
                if has_doc_id(new_d, k) {
                    let j = choose|j: int| doc_at(new_d, j, k);
                    assert(doc_at(new_d, j, k));
                    assert(j < old_d.len());
                    assert(doc_at(old_d, j, k));
                    lemma_doc_index_is(old_d, j, k);
                    lemma_doc_index_is(new_d, j, k);
                }
                if has_doc_id(old_d, k) {
                    let j = choose|j: int| doc_at(old_d, j, k);
                    assert(doc_at(old_d, j, k));
                    assert(doc_at(new_d, j, k));
                    lemma_doc_index_is(old_d, j, k);
                    lemma_doc_index_is(new_d, j, k);
                }
            }
        });
        lemma_perms_map_congruent(*s, pre);
    }
    let ghost mid = *s;
    let granted = grant(s, id, creator_id, Role::Owner, now);
    if granted.is_err() {
        return Result::Err(CreationError::StoreError);
    }
    proof {
        lemma_docs_map_congruent(*s, mid);
    }
    Result::Ok(result)
}

/// Fetches a document for `actor_id`: a missing document is reported before
/// the permission check; view capability is required to read.
pub fn get_document(s: &Store, actor_id: i32, document_id: i32) -> (r: Result<Document, ReadError>)
    requires
        s.wf(),
    ensures
        !s.docs_map().contains_key(document_id as int) ==> r == Result::<Document, ReadError>::Err(
            ReadError::NotFoundError,
        ),
        s.docs_map().contains_key(document_id as int) && !spec_can_access(
            *s,
            actor_id as int,
            document_id as int,
            Capability::View,
        ) ==> r == Result::<Document, ReadError>::Err(ReadError::PermissionDeniedError),
        s.docs_map().contains_key(document_id as int) && spec_can_access(
            *s,
            actor_id as int,
            document_id as int,
            Capability::View,
        ) ==> r is Ok && r->Ok_0 == s.docs_map()[document_id as int],
{
    let idx = match find_doc_index(&s.docs, document_id) {
        Option::Some(i) => i,
        Option::None => {
            return Result::Err(ReadError::NotFoundError);
        },
    };
    if !can_access(s, actor_id, document_id, Capability::View) {
        return Result::Err(ReadError::PermissionDeniedError);
    }
    Result::Ok(s.docs[idx].duplicate())
}

/// Overwrites a document's name and content for `actor_id` and refreshes its
/// modification timestamp: a blank name is rejected first, a missing document
/// next, and edit capability is required; permissions are untouched.
pub fn update_document(
    s: &mut Store,
    actor_id: i32,
    document_id: i32,
    new_name: String,
    new_content: String,
    now: i64,
) -> (r: Result<Document, UpdateError>)
    requires
        old(s).wf(),
    ensures
        final(s).wf(),
        spec_blank(new_name@) ==> r == Result::<Document, UpdateError>::Err(
            UpdateError::InvalidNameError,
        ) && *final(s) == *old(s),
        !spec_blank(new_name@) && !old(s).docs_map().contains_key(document_id as int) ==> r
            == Result::<Document, UpdateError>::Err(UpdateError::NotFoundError) && *final(s)
            == *old(s),
        !spec_blank(new_name@) && old(s).docs_map().contains_key(document_id as int)
            && !spec_can_access(*old(s), actor_id as int, document_id as int, Capability::Edit)
            ==> r == Result::<Document, UpdateError>::Err(UpdateError::PermissionDeniedError)
            && *final(s) == *old(s),
        !spec_blank(new_name@) && old(s).docs_map().contains_key(document_id as int)
            && spec_can_access(*old(s), actor_id as int, document_id as int, Capability::Edit)
            ==> r is Ok && {
            let doc = r->Ok_0;
            let prev = old(s).docs_map()[document_id as int];
            &&& doc.id == document_id
            &&& doc.name == new_name
            &&& doc.content == new_content
            &&& doc.user_id == prev.user_id
            &&& doc.created_at == prev.created_at
            &&& doc.updated_at == now
            &&& final(s).docs_map() == old(s).docs_map().insert(document_id as int, doc)
            &&& final(s).perms@ == old(s).perms@
            &&& final(s).perms_map() == old(s).perms_map()
            &&& final(s).next_doc_id == old(s).next_doc_id
        },
{
    if is_blank(new_name.as_str()) {
        return Result::Err(UpdateError::InvalidNameError);
    }
    let idx = match find_doc_index(&s.docs, document_id) {
        Option::Some(i) => i,
        Option::None => {
            return Result::Err(UpdateError::NotFoundError);
        },
    };
    if !can_access(s, actor_id, document_id, Capability::Edit) {
        return Result::Err(UpdateError::PermissionDeniedError);
    }
    let updated = Document {
        id: document_id,
        name: new_name,
        content: new_content,
        user_id: s.docs[idx].user_id,
        created_at: s.docs[idx].created_at,
        updated_at: now,
    };
    let result = updated.duplicate();
    let ghost pre = *s;
    s.docs[idx] = updated;
    proof {
        let new_d = s.docs@;
        let old_d = pre.docs@;
        let d = document_id as int;
        assert(new_d == old_d.update(idx as int, result));
        assert forall|j1: int, j2: int|
            0 <= j1 < new_d.len() && 0 <= j2 < new_d.len() && j1 != j2 implies new_d[j1].id
            != new_d[j2].id by {
            assert(new_d[j1].id == old_d[j1].id);
            assert(new_d[j2].id == old_d[j2].id);
        }
        assert(docs_unique(new_d));
        assert_maps_equal!(s.docs_map(), pre.docs_map().insert(d, result), k => {
            if k == d {
                lemma_doc_index_is(new_d, idx as int, d);
            } else {
                if has_doc_id(new_d, k) {
                    let j = choose|j: int| doc_at(new_d, j, k);
                    assert(doc_at(new_d, j, k));
                    assert(j != idx as int);
                    assert(doc_at(old_d, j, k));
                    lemma_doc_index_is(old_d, j, k);
                    lemma_doc_index_is(new_d, j, k);
                }
                if has_doc_id(old_d, k) {
                    let j = choose|j: int| doc_at(old_d, j, k);
                    assert(doc_at(old_d, j, k));
                    assert(j != idx as int);
                    assert(doc_at(new_d, j, k));
                    lemma_doc_index_is(old_d, j, k);
                    lemma_doc_index_is(new_d, j, k);
                }
            }
        });
        lemma_perms_map_congruent(*s, pre);
    }
    Result::Ok(result)
}

} // verus!
