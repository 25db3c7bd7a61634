//! The permission store model: documents and (document, user) → role rows,
//! with the single-row-per-pair invariant and map views for contracts.

use vstd::prelude::*;
use vstd::map::*;
use crate::role::Role;

verus! {

/// One (document, user) → role row; the grant timestamp is epoch milliseconds.
#[derive(Clone, Copy, PartialEq, Eq, Structural, Debug)]
pub struct DocumentPermission {
    pub document_id: i32,
    pub user_id: i32,
    pub role: Role,
    pub created_at: i64,
}

/// A stored document; timestamps are epoch milliseconds.
#[derive(Debug)]
pub struct Document {
    pub id: i32,
    pub name: String,
    pub content: String,
    pub user_id: i32,
    pub created_at: i64,
    pub updated_at: i64,
}

impl Document {
    /// A field-for-field copy of the document.
    pub fn duplicate(&self) -> (d: Document)
        ensures
            d == *self,
    {
        Document {
            id: self.id,
            name: self.name.clone(),
            content: self.content.clone(),
            user_id: self.user_id,
            created_at: self.created_at,
            updated_at: self.updated_at,
        }
    }
}

/// Row `i` of `s` carries the key (`d`, `u`).
pub open spec fn has_perm_at(s: Seq<DocumentPermission>, i: int, d: int, u: int) -> bool {
    0 <= i < s.len() && s[i].document_id == d && s[i].user_id == u
}

/// Some row of `s` carries the key (`d`, `u`).
pub open spec fn has_row(s: Seq<DocumentPermission>, d: int, u: int) -> bool {
    exists|i: int| has_perm_at(s, i, d, u)
}

/// The index of the row with key (`d`, `u`); meaningful under `has_row`.
pub open spec fn row_index(s: Seq<DocumentPermission>, d: int, u: int) -> int {
    choose|i: int| has_perm_at(s, i, d, u)
}

/// The role of the row with key (`d`, `u`); meaningful under `has_row`.
pub open spec fn role_of(s: Seq<DocumentPermission>, d: int, u: int) -> Role {
    s[row_index(s, d, u)].role
}

/// At most one row per (document, user) pair.
pub open spec fn perms_unique(s: Seq<DocumentPermission>) -> bool {
    forall|i: int, j: int|
        0 <= i < s.len() && 0 <= j < s.len() && i != j
            ==> !(#[trigger] s[i].document_id == #[trigger] s[j].document_id
                && s[i].user_id == s[j].user_id)
}

/// Position `i` of `s` holds the document with identifier `id`.
pub open spec fn doc_at(s: Seq<Document>, i: int, id: int) -> bool {
    0 <= i < s.len() && s[i].id == id
}

/// Some position of `s` holds the document with identifier `id`.
pub open spec fn has_doc_id(s: Seq<Document>, id: int) -> bool {
    exists|i: int| doc_at(s, i, id)
}

/// The position of the document with identifier `id`; meaningful under `has_doc_id`.
pub open spec fn doc_index(s: Seq<Document>, id: int) -> int {
    choose|i: int| doc_at(s, i, id)
}

/// Document identifiers occur at most once.
pub open spec fn docs_unique(s: Seq<Document>) -> bool {
    forall|i: int, j: int|
        0 <= i < s.len() && 0 <= j < s.len() && i != j ==> #[trigger] s[i].id != #[trigger] s[j].id
}

/// The in-memory permission store: documents and permission rows, with
/// a counter minting fresh document identifiers.
#[derive(Debug)]
pub struct Store {
    pub docs: Vec<Document>,
    pub perms: Vec<DocumentPermission>,
    pub next_doc_id: i32,
}

impl Store {
    /// The permission state as a map from (document, user) keys to roles.
    pub open spec fn perms_map(self) -> Map<(int, int), Role> {
        Map::new(
            |k: (int, int)| has_row(self.perms@, k.0, k.1),
            |k: (int, int)| role_of(self.perms@, k.0, k.1),
        )
    }

    /// The document state as a map from identifiers to documents.
    pub open spec fn docs_map(self) -> Map<int, Document> {
        Map::new(
            |id: int| has_doc_id(self.docs@, id),
            |id: int| self.docs@[doc_index(self.docs@, id)],
        )
    }

    /// Well-formedness: one row per (document, user) pair, unique document
    /// identifiers, and every identifier positive and below the mint counter.
    pub open spec fn wf(self) -> bool {
        &&& perms_unique(self.perms@)
        &&& docs_unique(self.docs@)
        &&& self.next_doc_id >= 1
        &&& forall|i: int|
            0 <= i < self.docs@.len()
                ==> 1 <= #[trigger] self.docs@[i].id < self.next_doc_id
    }

    /// An empty store.
    pub fn new() -> (s: Store)
        ensures
            s.wf(),
            s.perms_map() == Map::<(int, int), Role>::empty(),
            s.docs_map() == Map::<int, Document>::empty(),
            s.next_doc_id == 1,
    {
        let s = Store { docs: Vec::new(), perms: Vec::new(), next_doc_id: 1 };
        proof {
            assert_maps_equal!(s.perms_map(), Map::<(int, int), Role>::empty());
            assert_maps_equal!(s.docs_map(), Map::<int, Document>::empty());
        }
        s
    }
}

/// The role the store holds for (`d`, `u`), if any: the lookup every access
/// decision is made from.
pub open spec fn spec_find_role(s: Store, d: int, u: int) -> Option<Role> {
    if s.perms_map().contains_key((d, u)) {
        Option::Some(s.perms_map()[(d, u)])
    } else {
        Option::None
    }
}

/// Under uniqueness, a row with key (`d`, `u`) at index `i` is the row the
/// view speaks of.
pub proof fn lemma_row_index_is(s: Seq<DocumentPermission>, i: int, d: int, u: int)
    requires
        perms_unique(s),
        has_perm_at(s, i, d, u),
    ensures
        has_row(s, d, u),
        row_index(s, d, u) == i,
        role_of(s, d, u) == s[i].role,
{
    assert(has_row(s, d, u));
    assert(has_perm_at(s, row_index(s, d, u), d, u));
}

/// Under uniqueness, a document with identifier `id` at position `i` is the
/// document the view speaks of.
pub proof fn lemma_doc_index_is(s: Seq<Document>, i: int, id: int)
    requires
        docs_unique(s),
        doc_at(s, i, id),
    ensures
        has_doc_id(s, id),
        doc_index(s, id) == i,
{
    assert(has_doc_id(s, id));
    assert(doc_at(s, doc_index(s, id), id));
}

/// Stores with equal permission rows have equal permission views.
pub proof fn lemma_perms_map_congruent(a: Store, b: Store)
    requires
        a.perms@ == b.perms@,
    ensures
        a.perms_map() == b.perms_map(),
{
    assert_maps_equal!(a.perms_map(), b.perms_map());
}

/// Stores with equal document rows have equal document views.
pub proof fn lemma_docs_map_congruent(a: Store, b: Store)
    requires
        a.docs@ == b.docs@,
    ensures
        a.docs_map() == b.docs_map(),
{
    assert_maps_equal!(a.docs_map(), b.docs_map());
}

/// The position of the row with key (`document_id`, `user_id`), if one exists.
fn find_perm_index(perms: &Vec<DocumentPermission>, document_id: i32, user_id: i32) -> (o: Option<
    usize,
>)
    requires
        perms_unique(perms@),
    ensures
        match o {
            Option::Some(i) => has_perm_at(perms@, i as int, document_id as int, user_id as int)
                && row_index(perms@, document_id as int, user_id as int) == i as int,
            Option::None => !has_row(perms@, document_id as int, user_id as int),
        },
{
    let ghost d = document_id as int;
    let ghost u = user_id as int;
    let n = perms.len();
    let mut i: usize = 0;
    while i < n
        invariant
            i <= n,
            n == perms@.len(),
            perms_unique(perms@),
            forall|j: int|
                0 <= j < i ==> !(#[trigger] perms@[j].document_id == document_id
                    && perms@[j].user_id == user_id),
        decreases n - i,
    {
        if perms[i].document_id == document_id && perms[i].user_id == user_id {
            proof {
                lemma_row_index_is(perms@, i as int, document_id as int, user_id as int);
            }
            return Option::Some(i);
        }
        i += 1;
    }
    proof {
        if has_row(perms@, d, u) {
            let j = choose|j: int| has_perm_at(perms@, j, d, u);
            assert(has_perm_at(perms@, j, d, u));
            assert(false);
        }
    }
    Option::None
}

/// The position of the document with identifier `id`, if one exists.
pub(crate) fn find_doc_index(docs: &Vec<Document>, id: i32) -> (o: Option<usize>)
    requires
        docs_unique(docs@),
    ensures
        match o {
            Option::Some(i) => doc_at(docs@, i as int, id as int)
                && doc_index(docs@, id as int) == i as int,
            Option::None => !has_doc_id(docs@, id as int),
        },
{
    let n = docs.len();
    let mut i: usize = 0;
    while i < n
        invariant
            i <= n,
            n == docs@.len(),
            docs_unique(docs@),
            forall|j: int| 0 <= j < i ==> #[trigger] docs@[j].id != id,
        decreases n - i,
    {
        if docs[i].id == id {
            proof {
                lemma_doc_index_is(docs@, i as int, id as int);
            }
            return Option::Some(i);
        }
        i += 1;
    }
    proof {
        if has_doc_id(docs@, id as int) {
            let j = choose|j: int| doc_at(docs@, j, id as int);
            assert(doc_at(docs@, j, id as int));
            assert(false);
        }
    }
    Option::None
}

/// Looks up the role the store holds for (`document_id`, `user_id`).
pub fn find_role(s: &Store, document_id: i32, user_id: i32) -> (r: Option<Role>)
    requires
        s.wf(),
    ensures
        r == spec_find_role(*s, document_id as int, user_id as int),
{
    match find_perm_index(&s.perms, document_id, user_id) {
        Option::Some(i) => Option::Some(s.perms[i].role),
        Option::None => Option::None,
    }
}

/// Upserts the role for (`document_id`, `user_id`): an existing row keeps its
/// grant timestamp and gets the new role, otherwise a new row is appended.
pub fn insert_or_replace_role(s: &mut Store, document_id: i32, user_id: i32, role: Role, now: i64)
    requires
        old(s).wf(),
    ensures
        final(s).wf(),
        final(s).perms_map() == old(s).perms_map().insert(
            (document_id as int, user_id as int),
            role,
        ),
        final(s).docs@ == old(s).docs@,
        final(s).next_doc_id == old(s).next_doc_id,
{
    let ghost d = document_id as int;
    let ghost u = user_id as int;
    let ghost old_p = s.perms@;
    match find_perm_index(&s.perms, document_id, user_id) {
        Option::Some(i) => {
            let row = DocumentPermission {
                document_id,
                user_id,
                role,
                created_at: s.perms[i].created_at,
            };
            s.perms[i] = row;
            proof {
                let new_p = s.perms@;
                assert(new_p == old_p.update(i as int, row));
                assert forall|j1: int, j2: int|
                    0 <= j1 < new_p.len() && 0 <= j2 < new_p.len() && j1 != j2 implies !(new_p[j1].document_id
                    == new_p[j2].document_id && new_p[j1].user_id == new_p[j2].user_id) by {
                    assert(new_p[j1].document_id == old_p[j1].document_id && new_p[j1].user_id
                        == old_p[j1].user_id);
                    assert(new_p[j2].document_id == old_p[j2].document_id && new_p[j2].user_id
                        == old_p[j2].user_id);
                }
                assert(perms_unique(new_p));
                assert_maps_equal!(s.perms_map(), old(s).perms_map().insert((d, u), role), k => {
                    if k == (d, u) {
                        lemma_row_index_is(new_p, i as int, d, u);
                    } else {
                        if has_row(new_p, k.0, k.1) {
                            let j = row_index(new_p, k.0, k.1);
                            assert(has_perm_at(new_p, j, k.0, k.1));
                            assert(j != i as int);
                            assert(has_perm_at(old_p, j, k.0, k.1));
                            lemma_row_index_is(old_p, j, k.0, k.1);
                        }
                        if has_row(old_p, k.0, k.1) {
                            let j = row_index(old_p, k.0, k.1);
                            assert(has_perm_at(old_p, j, k.0, k.1));
                            assert(j != i as int);
                            assert(has_perm_at(new_p, j, k.0, k.1));
                            lemma_row_index_is(new_p, j, k.0, k.1);
                        }
                    }
                });
            }
        },
        Option::None => {
            let row = DocumentPermission { document_id, user_id, role, created_at: now };
            s.perms.push(row);
            proof {
                let new_p = s.perms@;
                assert(new_p == old_p.push(row));
                assert forall|j1: int, j2: int|
                    0 <= j1 < new_p.len() && 0 <= j2 < new_p.len() && j1 != j2 implies !(new_p[j1].document_id
                    == new_p[j2].document_id && new_p[j1].user_id == new_p[j2].user_id) by {
                    if j1 < old_p.len() && j2 < old_p.len() {
                        assert(new_p[j1] == old_p[j1]);
                        assert(new_p[j2] == old_p[j2]);
                    } else if j1 < old_p.len() {
                        assert(new_p[j2] == row);
                        assert(!has_perm_at(old_p, j1, d, u));
                    } else {
                        assert(new_p[j1] == row);
                        assert(!has_perm_at(old_p, j2, d, u));
                    }
                }
                assert(perms_unique(new_p));
                assert_maps_equal!(s.perms_map(), old(s).perms_map().insert((d, u), role), k => {
                    if k == (d, u) {
                        lemma_row_index_is(new_p, old_p.len() as int, d, u);
                    } else {
                        if has_row(new_p, k.0, k.1) {
                            let j = row_index(new_p, k.0, k.1);
                            assert(has_perm_at(new_p, j, k.0, k.1));
                            assert(j < old_p.len());
                            assert(has_perm_at(old_p, j, k.0, k.1));
                            lemma_row_index_is(old_p, j, k.0, k.1);
                        }
                        if has_row(old_p, k.0, k.1) {
                            let j = row_index(old_p, k.0, k.1);
                            assert(has_perm_at(old_p, j, k.0, k.1));
                            assert(has_perm_at(new_p, j, k.0, k.1));
                            lemma_row_index_is(new_p, j, k.0, k.1);
                        }
                    }
                });
            }
        },
    }
}

/// Deletes the row for (`document_id`, `user_id`); reports whether one existed.
pub fn delete_role(s: &mut Store, document_id: i32, user_id: i32) -> (existed: bool)
    requires
        old(s).wf(),
    ensures
        final(s).wf(),
        existed == old(s).perms_map().contains_key((document_id as int, user_id as int)),
        final(s).perms_map() == old(s).perms_map().remove((document_id as int, user_id as int)),
        !existed ==> *final(s) == *old(s),
        final(s).docs@ == old(s).docs@,
        final(s).next_doc_id == old(s).next_doc_id,
{
    let ghost d = document_id as int;
    let ghost u = user_id as int;
    let ghost old_p = s.perms@;
    match find_perm_index(&s.perms, document_id, user_id) {
        Option::Some(i) => {
            s.perms.remove(i);
            proof {
                let new_p = s.perms@;
                assert(new_p == old_p.remove(i as int));
                assert forall|j: int| 0 <= j < new_p.len() implies new_p[j] == (if j < i as int {
                    old_p[j]
                } else {
                    old_p[j + 1]
                }) by {}
                assert forall|j1: int, j2: int|
                    0 <= j1 < new_p.len() && 0 <= j2 < new_p.len() && j1 != j2 implies !(new_p[j1].document_id
                    == new_p[j2].document_id && new_p[j1].user_id == new_p[j2].user_id) by {
                    let o1: int = if j1 < i as int { j1 } else { j1 + 1 };
                    let o2: int = if j2 < i as int { j2 } else { j2 + 1 };
                    assert(new_p[j1] == old_p[o1]);
                    assert(new_p[j2] == old_p[o2]);
                }
                assert(perms_unique(new_p));
                assert_maps_equal!(s.perms_map(), old(s).perms_map().remove((d, u)), k => {
                    if k == (d, u) {
                        if has_row(new_p, d, u) {
                            let j = row_index(new_p, d, u);
                            assert(has_perm_at(new_p, j, d, u));
                            let oj: int = if j < i as int { j } else { j + 1 };
                            assert(has_perm_at(old_p, oj, d, u));
                            assert(oj == i as int);
                            assert(false);
                        }
                    } else {
                        if has_row(new_p, k.0, k.1) {
                            let j = row_index(new_p, k.0, k.1);
                            assert(has_perm_at(new_p, j, k.0, k.1));
                            let oj: int = if j < i as int { j } else { j + 1 };
                            assert(has_perm_at(old_p, oj, k.0, k.1));
                            lemma_row_index_is(old_p, oj, k.0, k.1);
                        }
                        if has_row(old_p, k.0, k.1) {
                            let j = row_index(old_p, k.0, k.1);
                            assert(has_perm_at(old_p, j, k.0, k.1));
                            assert(j != i as int);
                            let nj: int = if j < i as int { j } else { j - 1 };
                            assert(has_perm_at(new_p, nj, k.0, k.1));
                            lemma_row_index_is(new_p, nj, k.0, k.1);
                        }
                    }
                });
            }
            true
        },
        Option::None => {
            proof {
                assert_maps_equal!(s.perms_map(), old(s).perms_map().remove((d, u)), k => {});
            }
            false
        },
    }
}

/// Lists every user holding a role on `document_id`, with that role: any role
/// qualifies, a document with no rows yields the empty list, and no order is
/// promised.
pub fn list_users_with_role_for_document(s: &Store, document_id: i32) -> (r: Vec<(i32, Role)>)
    requires
        s.wf(),
    ensures
        forall|j: int|
            0 <= j < r@.len() ==> s.perms_map().contains_key(
                (document_id as int, #[trigger] r@[j].0 as int),
            ) && s.perms_map()[(document_id as int, r@[j].0 as int)] == r@[j].1,
        forall|u: int|
            s.perms_map().contains_key((document_id as int, u)) ==> exists|j: int|
                0 <= j < r@.len() && #[trigger] r@[j].0 as int == u,
        forall|j1: int, j2: int| 0 <= j1 < j2 < r@.len() ==> r@[j1].0 != r@[j2].0,
{
    let ghost d = document_id as int;
    let n = s.perms.len();
    let mut r: Vec<(i32, Role)> = Vec::new();
    let ghost mut src: Seq<int> = Seq::empty();
    let mut i: usize = 0;
    while i < n
        invariant
            i <= n,
            n == s.perms@.len(),
            s.wf(),
            d == document_id as int,
            src.len() == r@.len(),
            forall|j: int| #![trigger src[j]]
                0 <= j < src.len() ==> 0 <= src[j] < i && has_perm_at(
                    s.perms@,
                    src[j],
                    d,
                    r@[j].0 as int,
                ) && s.perms@[src[j]].role == r@[j].1,
            forall|j1: int, j2: int| 0 <= j1 < j2 < src.len() ==> src[j1] < src[j2],
            forall|p: int|
                0 <= p < i && #[trigger] s.perms@[p].document_id == document_id ==> exists|j: int|
                    0 <= j < r@.len() && #[trigger] r@[j].0 == s.perms@[p].user_id,
        decreases n - i,
    {
        if s.perms[i].document_id == document_id {
            let entry = (s.perms[i].user_id, s.perms[i].role);
            let ghost old_r = r@;
            let ghost old_src = src;
            r.push(entry);
            proof {
                src = src.push(i as int);
                assert(has_perm_at(s.perms@, i as int, d, entry.0 as int));
                assert forall|j: int| #![trigger src[j]]
                    0 <= j < src.len() implies 0 <= src[j] < i + 1 && has_perm_at(
                    s.perms@,
                    src[j],
                    d,
                    r@[j].0 as int,
                ) && s.perms@[src[j]].role == r@[j].1 by {
                    if j < old_src.len() {
                        assert(src[j] == old_src[j]);
                        assert(r@[j] == old_r[j]);
                    } else {
                        assert(src[j] == i as int);
                        assert(r@[j] == entry);
                    }
                }
                assert forall|p: int|
                    0 <= p < i + 1 && #[trigger] s.perms@[p].document_id == document_id implies
                    exists|j: int|
                        0 <= j < r@.len() && #[trigger] r@[j].0 == s.perms@[p].user_id by {
                    if p < i {
                        let j = choose|j: int|
                            0 <= j < old_r.len() && #[trigger] old_r[j].0 == s.perms@[p].user_id;
                        assert(r@[j] == old_r[j]);
                        assert(r@[j].0 == s.perms@[p].user_id);
                    } else {
                        assert(r@[r@.len() - 1].0 == s.perms@[p].user_id);
                    }
                }
            }
        }
        i += 1;
    }
    proof {
        assert forall|j: int| 0 <= j < r@.len() implies s.perms_map().contains_key(
            (d, #[trigger] r@[j].0 as int),
        ) && s.perms_map()[(d, r@[j].0 as int)] == r@[j].1 by {
            let p = src[j];
            assert(has_perm_at(s.perms@, p, d, r@[j].0 as int));
            lemma_row_index_is(s.perms@, p, d, r@[j].0 as int);
        }
        assert forall|u: int| s.perms_map().contains_key((d, u)) implies exists|j: int|
            0 <= j < r@.len() && #[trigger] r@[j].0 as int == u by {
            let p = row_index(s.perms@, d, u);
            assert(has_perm_at(s.perms@, p, d, u));
            assert(s.perms@[p].document_id == document_id);
            let j = choose|j: int| 0 <= j < r@.len() && #[trigger] r@[j].0 == s.perms@[p].user_id;
            assert(r@[j].0 as int == u);
        }
        assert forall|j1: int, j2: int|
            0 <= j1 < j2 < r@.len() implies r@[j1].0 != r@[j2].0 by {
            let p1 = src[j1];
            let p2 = src[j2];
            assert(has_perm_at(s.perms@, p1, d, r@[j1].0 as int));
            assert(has_perm_at(s.perms@, p2, d, r@[j2].0 as int));
            assert(p1 != p2);
            assert(!(s.perms@[p1].document_id == s.perms@[p2].document_id
                && s.perms@[p1].user_id == s.perms@[p2].user_id));
        }
    }
    r
}

} // verus!

