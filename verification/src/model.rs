use vstd::prelude::*;
use crate::error::ErrorView;
use crate::oid::ID_BYTE_LEN;
use crate::oid::decoded_bytes;
use crate::oid::encoded_hex;
use crate::oid::is_object_id_hex;
use crate::oid::lemma_decode_encode;
use crate::user::UserView;
use crate::user::sanitized;

verus! {

/// The abstract state of the user collection: each stored record under its
/// assigned identifier bytes.
pub type StoreState = Map<Seq<u8>, UserView>;

/// The record as the store holds it after assigning `id`: the given fields
/// under the assigned identifier.
pub open spec fn stored_record(id: Seq<u8>, fields: UserView) -> UserView {
    UserView { id: Some(id), name: fields.name, title: fields.title, location: fields.location }
}

/// Every stored record carries the identifier it is stored under: a record
/// has an identifier exactly when it has been persisted.
pub open spec fn store_inv(s: StoreState) -> bool {
    forall|id: Seq<u8>| #[trigger] s.dom().contains(id) ==> s[id].id == Some(id)
}

/// What a find-by-id returns: the record under `id`, if any.
pub open spec fn store_lookup(s: StoreState, id: Seq<u8>) -> Option<UserView> {
    if s.dom().contains(id) {
        Some(s[id])
    } else {
        None
    }
}

/// The collection after an insert: the store files the document's fields
/// under the fresh identifier it assigned.
pub open spec fn store_after_insert(s: StoreState, new_id: Seq<u8>, doc: UserView) -> StoreState {
    s.insert(new_id, stored_record(new_id, doc))
}

/// The collection after an update: the fields of every document matching
/// `id` — at most one, identifiers being unique — are overwritten; the
/// identifier itself is immutable.
pub open spec fn store_after_update(s: StoreState, id: Seq<u8>, fields: UserView) -> StoreState {
    if s.dom().contains(id) {
        s.insert(id, stored_record(id, fields))
    } else {
        s
    }
}

/// How many documents an update of `id` matches.
pub open spec fn update_matched(s: StoreState, id: Seq<u8>) -> int {
    if s.dom().contains(id) {
        1
    } else {
        0
    }
}

/// How many documents an update of `id` changes: one when the overwritten
/// record differs from what was stored, none when it is identical.
pub open spec fn update_modified(s: StoreState, id: Seq<u8>, fields: UserView) -> int {
    if s.dom().contains(id) && s[id] != stored_record(id, fields) {
        1
    } else {
        0
    }
}

/// The collection after a delete of `id`.
pub open spec fn store_after_delete(s: StoreState, id: Seq<u8>) -> StoreState {
    s.remove(id)
}

/// How many documents a delete of `id` removes.
pub open spec fn delete_count(s: StoreState, id: Seq<u8>) -> int {
    if s.dom().contains(id) {
        1
    } else {
        0
    }
}

/// What `get(id_str)` means over a store state: an unparsable identifier is
/// `InvalidId` (nothing reaches the store), a parsed identifier that no
/// record carries is `NotFound`, and otherwise the one matching record is
/// returned.
pub open spec fn get_outcome(s: StoreState, id_str: Seq<char>) -> Result<UserView, ErrorView> {
    if !is_object_id_hex(id_str) {
        Err(ErrorView::InvalidId)
    } else {
        match store_lookup(s, decoded_bytes(id_str)) {
            Some(u) => Ok(u),
            None => Err(ErrorView::NotFound),
        }
    }
}

/// A sequence that `list` may return for store state `s`: one element per
/// stored record, every stored record present, order unconstrained.
pub open spec fn is_listing(s: StoreState, l: Seq<UserView>) -> bool {
    l.len() == s.dom().len() && forall|id: Seq<u8>| #[trigger] s.dom().contains(id) ==> l.contains(
        s[id],
    )
}

/// Creating a record and then getting the identifier the store assigned —
/// through its string form — returns a record equal to the input except for
/// that assigned identifier.
pub proof fn lemma_create_then_get(s: StoreState, new_user: UserView, new_id: Seq<u8>)
    requires
        new_id.len() == ID_BYTE_LEN,
    ensures
        get_outcome(store_after_insert(s, new_id, sanitized(new_user)), encoded_hex(new_id))
            == Ok::<UserView, ErrorView>(
            UserView {
                id: Some(new_id),
                name: new_user.name,
                title: new_user.title,
                location: new_user.location,
            },
        ),
{
    lemma_decode_encode(new_id);
}

/// `create` discards any caller-supplied identifier: two inputs that agree
/// on name, title and location insert the same document whatever their
/// identifier fields, and two such creates leave two records, each under
/// its own fresh identifier.
pub proof fn lemma_create_discards_id(
    s: StoreState,
    u1: UserView,
    u2: UserView,
    id1: Seq<u8>,
    id2: Seq<u8>,
)
    requires
        u1.name == u2.name,
        u1.title == u2.title,
        u1.location == u2.location,
        id1 != id2,
    ensures
        sanitized(u1) == sanitized(u2),
        store_lookup(
            store_after_insert(store_after_insert(s, id1, sanitized(u1)), id2, sanitized(u2)),
            id1,
        ) == Some(stored_record(id1, sanitized(u1))),
        store_lookup(
            store_after_insert(store_after_insert(s, id1, sanitized(u1)), id2, sanitized(u2)),
            id2,
        ) == Some(stored_record(id2, sanitized(u2))),
{
    assert(sanitized(u1) =~= sanitized(u2));
}

/// `get` on a well-formed identifier that no record carries reports
/// not-found — a reported condition, not a failure of the call path.
pub proof fn lemma_get_missing(s: StoreState, id_str: Seq<char>)
    requires
        is_object_id_hex(id_str),
        !s.dom().contains(decoded_bytes(id_str)),
    ensures
        get_outcome(s, id_str) == Err::<UserView, ErrorView>(ErrorView::NotFound),
{
}

/// `get` on a syntactically invalid identifier string reports invalid-id,
/// whatever the store holds; the store is never consulted.
pub proof fn lemma_get_invalid_id(s: StoreState, id_str: Seq<char>)
    requires
        !is_object_id_hex(id_str),
    ensures
        get_outcome(s, id_str) == Err::<UserView, ErrorView>(ErrorView::InvalidId),
{
}

/// Updating an existing record and then getting the same identifier returns
/// the new name, title and location under the unchanged identifier; exactly
/// one record matched the update.
pub proof fn lemma_update_then_get(s: StoreState, id_str: Seq<char>, fields: UserView)
    requires
        is_object_id_hex(id_str),
        s.dom().contains(decoded_bytes(id_str)),
    ensures
        update_matched(s, decoded_bytes(id_str)) == 1,
        get_outcome(store_after_update(s, decoded_bytes(id_str), fields), id_str) == Ok::<
            UserView,
            ErrorView,
        >(
            UserView {
                id: Some(decoded_bytes(id_str)),
                name: fields.name,
                title: fields.title,
                location: fields.location,
            },
        ),
{
}

/// Deleting an identifier and then getting it reports not-found; the delete
/// removed one record when one was stored, none otherwise.
pub proof fn lemma_delete_then_get(s: StoreState, id_str: Seq<char>)
    requires
        is_object_id_hex(id_str),
    ensures
        delete_count(s, decoded_bytes(id_str)) == (if s.dom().contains(decoded_bytes(id_str)) {
            1int
        } else {
            0int
        }),
        get_outcome(store_after_delete(s, decoded_bytes(id_str)), id_str) == Err::<
            UserView,
            ErrorView,
        >(ErrorView::NotFound),
{
}

/// Insert, update and delete all preserve the store invariant: every record
/// stays filed under its own identifier.
pub proof fn lemma_store_inv_preserved(s: StoreState, id: Seq<u8>, fields: UserView)
    requires
        store_inv(s),
    ensures
        store_inv(store_after_insert(s, id, fields)),
        store_inv(store_after_update(s, id, fields)),
        store_inv(store_after_delete(s, id)),
{
}

/// The collection after creating each entry of `entries` in order: the
/// store assigns the entry's fresh identifier and files the sanitized
/// record under it.
pub open spec fn store_after_creates(s: StoreState, entries: Seq<(Seq<u8>, UserView)>) -> StoreState
    decreases entries.len(),
{
    if entries.len() == 0 {
        s
    } else {
        store_after_insert(
            store_after_creates(s, entries.drop_last()),
            entries.last().0,
            sanitized(entries.last().1),
        )
    }
}

/// The identifiers the store assigns across a run of creates: pairwise
/// distinct, and none already in use.
pub open spec fn fresh_distinct_ids(s: StoreState, entries: Seq<(Seq<u8>, UserView)>) -> bool {
    (forall|i: int| 0 <= i < entries.len() ==> !s.dom().contains(#[trigger] entries[i].0))
        && (forall|i: int, j: int|
        0 <= i < j < entries.len() ==> (#[trigger] entries[i].0) != (#[trigger] entries[j].0))
}

/// After a run of creates, the collection holds one record more per entry,
/// and each created record is stored under its assigned identifier.
pub proof fn lemma_store_after_creates(s: StoreState, entries: Seq<(Seq<u8>, UserView)>)
    requires
        s.dom().finite(),
        fresh_distinct_ids(s, entries),
    ensures
        store_after_creates(s, entries).dom().finite(),
        store_after_creates(s, entries).dom().len() == s.dom().len() + entries.len(),
        forall|id: Seq<u8>| #[trigger] store_after_creates(s, entries).dom().contains(id) <==> (
        s.dom().contains(id) || exists|i: int|
            0 <= i < entries.len() && (#[trigger] entries[i].0) == id),
        forall|i: int|
            0 <= i < entries.len() ==> store_lookup(
                store_after_creates(s, entries),
                (#[trigger] entries[i].0),
            ) == Some(stored_record(entries[i].0, sanitized(entries[i].1))),
    decreases entries.len(),
{
    if entries.len() > 0 {
        let prefix = entries.drop_last();
        let last = entries.last();
        lemma_store_after_creates(s, prefix);
        let s1 = store_after_creates(s, prefix);
        assert(!s1.dom().contains(last.0)) by {
            assert(!s.dom().contains(entries[entries.len() - 1].0));
            if exists|i: int| 0 <= i < prefix.len() && (#[trigger] prefix[i].0) == last.0 {
                let i = choose|i: int| 0 <= i < prefix.len() && (#[trigger] prefix[i].0) == last.0;
                assert(entries[i].0 == entries[entries.len() - 1].0);
                assert(false);
            }
        }
        assert(store_after_creates(s, entries) == store_after_insert(
            s1,
            last.0,
            sanitized(last.1),
        ));
        assert(store_after_creates(s, entries).dom() =~= s1.dom().insert(last.0));
        vstd::set::axiom_set_insert_len(s1.dom(), last.0);
        assert forall|id: Seq<u8>| #[trigger] store_after_creates(s, entries).dom().contains(id)
            implies (s.dom().contains(id) || exists|i: int|
            0 <= i < entries.len() && (#[trigger] entries[i].0) == id) by {
            if id == last.0 {
                assert(entries[entries.len() - 1].0 == id);
            } else {
                assert(s1.dom().contains(id));
                if !s.dom().contains(id) {
                    let i = choose|i: int|
                        0 <= i < prefix.len() && (#[trigger] prefix[i].0) == id;
                    assert(entries[i].0 == id);
                }
            }
        }
        assert forall|id: Seq<u8>|
            (s.dom().contains(id) || exists|i: int|
                0 <= i < entries.len() && (#[trigger] entries[i].0) == id)
            implies #[trigger] store_after_creates(s, entries).dom().contains(id) by {
            if s.dom().contains(id) {
                assert(s1.dom().contains(id));
            } else {
                let i = choose|i: int|
                    0 <= i < entries.len() && (#[trigger] entries[i].0) == id;
                if i < entries.len() - 1 {
                    assert(prefix[i].0 == id);
                    assert(s1.dom().contains(id));
                }
            }
        }
        assert forall|i: int| 0 <= i < entries.len() implies store_lookup(
            store_after_creates(s, entries),
            (#[trigger] entries[i].0),
        ) == Some(stored_record(entries[i].0, sanitized(entries[i].1))) by {
            if i < entries.len() - 1 {
                assert(prefix[i].0 == entries[i].0 && prefix[i].1 == entries[i].1);
                assert(entries[i].0 != last.0);
            }
        }
    }
}

/// `list` after creating a run of records returns at least as many elements
/// as were created, and every created record is among them, in whatever
/// order the store chose.
pub proof fn lemma_list_after_creates(
    s: StoreState,
    entries: Seq<(Seq<u8>, UserView)>,
    l: Seq<UserView>,
)
    requires
        s.dom().finite(),
        fresh_distinct_ids(s, entries),
        is_listing(store_after_creates(s, entries), l),
    ensures
        l.len() >= entries.len(),
        forall|i: int|
            0 <= i < entries.len() ==> l.contains(
                stored_record((#[trigger] entries[i].0), sanitized(entries[i].1)),
            ),
{
    lemma_store_after_creates(s, entries);
    let sn = store_after_creates(s, entries);
    assert forall|i: int| 0 <= i < entries.len() implies l.contains(
        stored_record((#[trigger] entries[i].0), sanitized(entries[i].1)),
    ) by {
        assert(sn.dom().contains(entries[i].0));
        assert(sn[entries[i].0] == stored_record(entries[i].0, sanitized(entries[i].1)));
    }
}

} // verus!
