use vstd::prelude::*;
use crate::error::ErrorView;
use crate::error::RepoError;
use crate::oid::UserId;
use crate::oid::decoded_bytes;
use crate::oid::is_object_id_hex;
use crate::user::User;
use crate::user::sanitized;

verus! {

/// Configuration the repository shell is opened with. The connection string
/// is the one recognized option; the database and collection names are
/// fixed and not configurable per call.
pub struct RepoConfig {
    pub connection_uri: String,
}

/// The fixed name of the database the repository resolves.
pub fn database_name() -> (r: &'static str)
    ensures
        r@ == "rustDB"@,
{
    "rustDB"
}

/// The fixed name of the collection of user records.
pub fn collection_name() -> (r: &'static str)
    ensures
        r@ == "User"@,
{
    "User"
}

/// One request to the backing store, as the repository issues it: the five
/// wire shapes behind the five operations.
pub enum StoreRequest {
    /// Insert the whole document; its identifier field is absent, so the
    /// store assigns one.
    Insert { doc: User },
    /// Match-all query, no filter.
    FindAll,
    /// Query for the single document whose identifier equals `id`.
    FindById { id: UserId },
    /// Overwrite the record fields of every document whose identifier
    /// equals `id` (a field-level `$set`, not a partial patch).
    UpdateById { id: UserId, fields: User },
    /// Delete the single document whose identifier equals `id`.
    DeleteById { id: UserId },
}

/// The store's acknowledgment of a successful insert: the identifier it
/// assigned to the new record.
#[derive(Debug, PartialEq, Eq)]
pub struct InsertAck {
    pub inserted_id: UserId,
}

/// How many documents an update matched and how many it changed.
#[derive(Debug, Clone, Copy, PartialEq, Eq)]
pub struct UpdateSummary {
    pub matched_count: u64,
    pub modified_count: u64,
}

/// How many documents a delete removed.
#[derive(Debug, Clone, Copy, PartialEq, Eq)]
pub struct DeleteSummary {
    pub deleted_count: u64,
}

/// The insert request for `create`: the caller's record with any
/// caller-supplied identifier discarded, so that the store assigns a fresh
/// one.
pub fn insert_request(new_user: &User) -> (r: StoreRequest)
    ensures
        r matches StoreRequest::Insert { doc } && doc@ == sanitized(new_user@) && doc.wf(),
{
    StoreRequest::Insert { doc: new_user.sanitized_for_insert() }
}

/// The match-all find request for `list`.
pub fn list_request() -> (r: StoreRequest)
    ensures
        r == StoreRequest::FindAll,
{
    StoreRequest::FindAll
}

/// The find request for `get`: parses the identifier string and filters by
/// the parsed identifier. A string that is not 24 hexadecimal digits is
/// rejected as `InvalidId` and nothing is sent to the store.
pub fn get_request(id: &str) -> (r: Result<StoreRequest, RepoError>)
    ensures
        is_object_id_hex(id@) ==> (r matches Ok(req) && req matches StoreRequest::FindById {
            id: oid,
        } && oid@ == decoded_bytes(id@) && oid.wf()),
        !is_object_id_hex(id@) ==> r == Err::<StoreRequest, RepoError>(RepoError::InvalidId),
{
    match UserId::parse(id) {
        Ok(oid) => Ok(StoreRequest::FindById { id: oid }),
        Err(e) => Err(e),
    }
}

/// The update request for `update`: parses the identifier string and
/// carries all four fields of `user` to be `$set` on the matching document.
/// The identifier field carried inside `user` is redundant: identifiers are
/// immutable keys, and the store's identifier is taken from the filter.
pub fn update_request(id: &str, user: &User) -> (r: Result<StoreRequest, RepoError>)
    ensures
        is_object_id_hex(id@) ==> (r matches Ok(req) && req matches StoreRequest::UpdateById {
            id: oid,
            fields,
        } && oid@ == decoded_bytes(id@) && oid.wf() && fields@ == user@),
        !is_object_id_hex(id@) ==> r == Err::<StoreRequest, RepoError>(RepoError::InvalidId),
{
    match UserId::parse(id) {
        Ok(oid) => Ok(StoreRequest::UpdateById { id: oid, fields: user.clone() }),
        Err(e) => Err(e),
    }
}

/// The delete request for `delete`: parses the identifier string and
/// filters by the parsed identifier.
pub fn delete_request(id: &str) -> (r: Result<StoreRequest, RepoError>)
    ensures
        is_object_id_hex(id@) ==> (r matches Ok(req) && req matches StoreRequest::DeleteById {
            id: oid,
        } && oid@ == decoded_bytes(id@) && oid.wf()),
        !is_object_id_hex(id@) ==> r == Err::<StoreRequest, RepoError>(RepoError::InvalidId),
{
    match UserId::parse(id) {
        Ok(oid) => Ok(StoreRequest::DeleteById { id: oid }),
        Err(e) => Err(e),
    }
}

/// Interprets the store's reply to an insert: a successful acknowledgment
/// carries the assigned identifier; a store failure is reported as `Store`,
/// never as an abort.
pub fn finish_create(reply: Result<UserId, String>) -> (r: Result<InsertAck, RepoError>)
    ensures
        reply matches Ok(id) ==> (r matches Ok(ack) && ack.inserted_id@ == id@),
        reply matches Err(m) ==> (r matches Err(e) && e@ == (ErrorView::Store { message: m@ })),
{
    match reply {
        Ok(id) => Ok(InsertAck { inserted_id: id }),
        Err(message) => Err(RepoError::Store { message }),
    }
}

/// Interprets the store's reply to a find-by-id: a found document is the
/// result, an empty reply is `NotFound` — distinct from a store failure,
/// which is `Store`.
pub fn finish_get(reply: Result<Option<User>, String>) -> (r: Result<User, RepoError>)
    ensures
        reply matches Ok(Some(u)) ==> r == Ok::<User, RepoError>(u),
        reply matches Ok(None) ==> r == Err::<User, RepoError>(RepoError::NotFound),
        reply matches Err(m) ==> (r matches Err(e) && e@ == (ErrorView::Store { message: m@ })),
{
    match reply {
        Ok(Some(u)) => Ok(u),
        Ok(None) => Err(RepoError::NotFound),
        Err(message) => Err(RepoError::Store { message }),
    }
}

/// Interprets the store's reply to a match-all find: the fully materialized
/// sequence of records, in the order the store returned them; a failure
/// while querying or walking the result is `Store`.
pub fn finish_list(reply: Result<Vec<User>, String>) -> (r: Result<Vec<User>, RepoError>)
    ensures
        reply matches Ok(users) ==> r == Ok::<Vec<User>, RepoError>(users),
        reply matches Err(m) ==> (r matches Err(e) && e@ == (ErrorView::Store { message: m@ })),
{
    match reply {
        Ok(users) => Ok(users),
        Err(message) => Err(RepoError::Store { message }),
    }
}

/// Interprets the store's reply to an update: how many documents matched
/// the identifier filter and how many were changed.
pub fn finish_update(reply: Result<(u64, u64), String>) -> (r: Result<UpdateSummary, RepoError>)
    ensures
        reply matches Ok(counts) ==> (r matches Ok(s) && s.matched_count == counts.0
            && s.modified_count == counts.1),
        reply matches Err(m) ==> (r matches Err(e) && e@ == (ErrorView::Store { message: m@ })),
{
    match reply {
        Ok((matched, modified)) => Ok(UpdateSummary { matched_count: matched, modified_count: modified }),
        Err(message) => Err(RepoError::Store { message }),
    }
}

/// Interprets the store's reply to a delete: how many documents were
/// removed.
pub fn finish_delete(reply: Result<u64, String>) -> (r: Result<DeleteSummary, RepoError>)
    ensures
        reply matches Ok(n) ==> r == Ok::<DeleteSummary, RepoError>(DeleteSummary { deleted_count: n }),
        reply matches Err(m) ==> (r matches Err(e) && e@ == (ErrorView::Store { message: m@ })),
{
    match reply {
        Ok(n) => Ok(DeleteSummary { deleted_count: n }),
        Err(message) => Err(RepoError::Store { message }),
    }
}

} // verus!
