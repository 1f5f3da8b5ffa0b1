use vstd::prelude::*;
use crate::oid::ID_BYTE_LEN;
use crate::oid::UserId;

verus! {

/// The abstract value of a [`User`] record, used in contracts.
#[verifier::ext_equal]
pub struct UserView {
    pub id: Option<Seq<u8>>,
    pub name: Seq<char>,
    pub title: Seq<char>,
    pub location: Seq<char>,
}

/// A user record, the sole entity of the repository.
///
/// `id` is absent until the record has been persisted; the backing store
/// assigns it on insert, and callers never choose it.
#[derive(Debug, PartialEq, Eq)]
pub struct User {
    pub id: Option<UserId>,
    pub name: String,
    pub title: String,
    pub location: String,
}

impl View for User {
    type V = UserView;

    open spec fn view(&self) -> UserView {
        UserView {
            id: match self.id {
                Some(i) => Some(i@),
                None => None,
            },
            name: self.name@,
            title: self.title@,
            location: self.location@,
        }
    }
}

/// The record as `create` sends it to the store: the same three caller
/// fields, the identifier discarded.
pub open spec fn sanitized(u: UserView) -> UserView {
    UserView { id: None, name: u.name, title: u.title, location: u.location }
}

impl User {
    /// Well-formed: a present identifier holds twelve bytes.
    pub open spec fn wf(&self) -> bool {
        match self.id {
            Some(i) => i.wf(),
            None => true,
        }
    }

    /// A not-yet-persisted record built from its three caller-supplied
    /// fields.
    pub fn new(name: String, title: String, location: String) -> (r: User)
        ensures
            r@ == (UserView { id: None, name: name@, title: title@, location: location@ }),
            r.wf(),
    {
        User { id: None, name, title, location }
    }

    /// A copy of this record with any caller-supplied identifier discarded,
    /// ready to be inserted.
    pub fn sanitized_for_insert(&self) -> (r: User)
        ensures
            r@ == sanitized(self@),
            r.wf(),
    {
        User {
            id: None,
            name: self.name.clone(),
            title: self.title.clone(),
            location: self.location.clone(),
        }
    }
}

impl Clone for User {
    /// A clone carries the same abstract record.
    fn clone(&self) -> (r: Self)
        ensures
            r@ == self@,
            r.wf() == self.wf(),
    {
        User {
            id: match &self.id {
                Some(i) => Some(i.clone()),
                None => None,
            },
            name: self.name.clone(),
            title: self.title.clone(),
            location: self.location.clone(),
        }
    }
}

} // verus!
