use user_repo::error::RepoError;
use user_repo::oid::UserId;
use user_repo::protocol::DeleteSummary;
use user_repo::protocol::StoreRequest;
use user_repo::protocol::UpdateSummary;
use user_repo::protocol::collection_name;
use user_repo::protocol::database_name;
use user_repo::protocol::delete_request;
use user_repo::protocol::finish_create;
use user_repo::protocol::finish_delete;
use user_repo::protocol::finish_get;
use user_repo::protocol::finish_list;
use user_repo::protocol::finish_update;
use user_repo::protocol::get_request;
use user_repo::protocol::insert_request;
use user_repo::protocol::list_request;
use user_repo::protocol::update_request;
use user_repo::user::User;

fn ann() -> User {
    User::new(
        String::from("Ann"),
        String::from("Eng"),
        String::from("NYC"),
    )
}

fn some_id() -> UserId {
    UserId::parse("0123456789abcdef01234567").expect("valid id")
}

#[test]
fn parse_accepts_lowercase_hex() {
    let id = UserId::parse("0123456789abcdef01234567").expect("valid id");
    assert_eq!(
        id.as_bytes().as_slice(),
        &[0x01, 0x23, 0x45, 0x67, 0x89, 0xab, 0xcd, 0xef, 0x01, 0x23, 0x45, 0x67]
    );
}

#[test]
fn parse_accepts_uppercase_hex() {
    let lower = UserId::parse("0123456789abcdef01234567").expect("valid id");
    let upper = UserId::parse("0123456789ABCDEF01234567").expect("valid id");
    assert_eq!(lower, upper);
}

#[test]
fn parse_rejects_non_hex() {
    assert_eq!(
        UserId::parse("0123456789abcdef0123456g"),
        Err(RepoError::InvalidId)
    );
}

#[test]
fn parse_rejects_short() {
    assert_eq!(
        UserId::parse("0123456789abcdef0123456"),
        Err(RepoError::InvalidId)
    );
}

#[test]
fn parse_rejects_long() {
    assert_eq!(
        UserId::parse("0123456789abcdef012345678"),
        Err(RepoError::InvalidId)
    );
}

#[test]
fn parse_rejects_empty() {
    assert_eq!(UserId::parse(""), Err(RepoError::InvalidId));
}

#[test]
fn to_hex_round_trip() {
    let s = "5f9c1b2a3d4e5f6a7b8c9d0e";
    let id = UserId::parse(s).expect("valid id");
    assert_eq!(id.to_hex(), s);
}

#[test]
fn to_hex_canonicalizes_uppercase() {
    let id = UserId::parse("5F9C1B2A3D4E5F6A7B8C9D0E").expect("valid id");
    assert_eq!(id.to_hex(), "5f9c1b2a3d4e5f6a7b8c9d0e");
}

#[test]
fn from_bytes_accepts_twelve() {
    let id = UserId::from_bytes(vec![0u8; 12]).expect("twelve bytes");
    assert_eq!(id.to_hex(), "000000000000000000000000");
}

#[test]
fn from_bytes_rejects_other_lengths() {
    assert!(UserId::from_bytes(vec![0u8; 11]).is_none());
    assert!(UserId::from_bytes(vec![0u8; 13]).is_none());
    assert!(UserId::from_bytes(Vec::new()).is_none());
}

#[test]
fn insert_request_discards_caller_id() {
    let mut with_id = ann();
    with_id.id = Some(some_id());
    let without_id = ann();
    let StoreRequest::Insert { doc: doc_a } = insert_request(&with_id) else {
        panic!("insert_request must build an insert");
    };
    let StoreRequest::Insert { doc: doc_b } = insert_request(&without_id) else {
        panic!("insert_request must build an insert");
    };
    assert_eq!(doc_a.id, None);
    assert_eq!(doc_a, doc_b);
}

#[test]
fn insert_request_keeps_fields() {
    let StoreRequest::Insert { doc } = insert_request(&ann()) else {
        panic!("insert_request must build an insert");
    };
    assert_eq!(doc.name, "Ann");
    assert_eq!(doc.title, "Eng");
    assert_eq!(doc.location, "NYC");
}

#[test]
fn get_request_parses_the_id() {
    let StoreRequest::FindById { id } = get_request("0123456789abcdef01234567").expect("valid id")
    else {
        panic!("get_request must build a find-by-id");
    };
    assert_eq!(id, some_id());
}

#[test]
fn get_request_rejects_invalid_id() {
    assert!(matches!(
        get_request("not-an-identifier"),
        Err(RepoError::InvalidId)
    ));
}

#[test]
fn update_request_carries_all_fields() {
    let user = ann();
    let StoreRequest::UpdateById { id, fields } =
        update_request("0123456789abcdef01234567", &user).expect("valid id")
    else {
        panic!("update_request must build an update-by-id");
    };
    assert_eq!(id, some_id());
    assert_eq!(fields, user);
}

#[test]
fn update_request_rejects_invalid_id() {
    assert!(matches!(
        update_request("xyz", &ann()),
        Err(RepoError::InvalidId)
    ));
}

#[test]
fn delete_request_parses_the_id() {
    let StoreRequest::DeleteById { id } =
        delete_request("0123456789abcdef01234567").expect("valid id")
    else {
        panic!("delete_request must build a delete-by-id");
    };
    assert_eq!(id, some_id());
}

#[test]
fn delete_request_rejects_invalid_id() {
    assert!(matches!(delete_request("12"), Err(RepoError::InvalidId)));
}

#[test]
fn list_request_is_match_all() {
    assert!(matches!(list_request(), StoreRequest::FindAll));
}

#[test]
fn finish_create_returns_the_assigned_id() {
    let ack = finish_create(Ok(some_id())).expect("acknowledged");
    assert_eq!(ack.inserted_id, some_id());
}

#[test]
fn finish_create_reports_store_failure() {
    assert_eq!(
        finish_create(Err(String::from("connection reset"))),
        Err(RepoError::Store {
            message: String::from("connection reset")
        })
    );
}

#[test]
fn finish_get_returns_the_found_record() {
    let mut stored = ann();
    stored.id = Some(some_id());
    let got = finish_get(Ok(Some(stored.clone()))).expect("found");
    assert_eq!(got, stored);
}

#[test]
fn finish_get_empty_is_not_found() {
    assert_eq!(finish_get(Ok(None)), Err(RepoError::NotFound));
}

#[test]
fn finish_get_reports_store_failure() {
    assert_eq!(
        finish_get(Err(String::from("timeout"))),
        Err(RepoError::Store {
            message: String::from("timeout")
        })
    );
}

#[test]
fn finish_list_passes_the_records_through() {
    let mut a = ann();
    a.id = Some(some_id());
    let mut b = User::new(
        String::from("Bob"),
        String::from("Ops"),
        String::from("LA"),
    );
    b.id = Some(UserId::parse("aaaaaaaaaaaaaaaaaaaaaaaa").expect("valid id"));
    let listed = finish_list(Ok(vec![a.clone(), b.clone()])).expect("listed");
    assert_eq!(listed.len(), 2);
    assert!(listed.contains(&a));
    assert!(listed.contains(&b));
}

#[test]
fn finish_list_reports_store_failure() {
    assert_eq!(
        finish_list(Err(String::from("cursor failed"))),
        Err(RepoError::Store {
            message: String::from("cursor failed")
        })
    );
}

#[test]
fn finish_update_returns_the_counts() {
    assert_eq!(
        finish_update(Ok((1, 1))),
        Ok(UpdateSummary {
            matched_count: 1,
            modified_count: 1
        })
    );
    assert_eq!(
        finish_update(Ok((1, 0))),
        Ok(UpdateSummary {
            matched_count: 1,
            modified_count: 0
        })
    );
}

#[test]
fn finish_delete_returns_the_count() {
    assert_eq!(
        finish_delete(Ok(1)),
        Ok(DeleteSummary { deleted_count: 1 })
    );
    assert_eq!(
        finish_delete(Ok(0)),
        Ok(DeleteSummary { deleted_count: 0 })
    );
}

#[test]
fn fixed_database_and_collection_names() {
    assert_eq!(database_name(), "rustDB");
    assert_eq!(collection_name(), "User");
}

/// The create → get → update → get → delete → get walk-through, exercised at
/// the seam the unverified shell drives: each step builds its request, the
/// store's reply is played back, and the typed result is checked.
#[test]
fn crud_scenario() {
    // create {name: "Ann", title: "Eng", location: "NYC"} -> new id x
    let StoreRequest::Insert { doc } = insert_request(&ann()) else {
        panic!("insert_request must build an insert");
    };
    assert_eq!(doc.id, None);
    let x = some_id();
    let ack = finish_create(Ok(x.clone())).expect("acknowledged");
    assert_eq!(ack.inserted_id, x);
    let x_hex = ack.inserted_id.to_hex();

    // get(x) -> the record, now carrying id x
    let StoreRequest::FindById { id } = get_request(&x_hex).expect("valid id") else {
        panic!("get_request must build a find-by-id");
    };
    assert_eq!(id, x);
    let mut stored = ann();
    stored.id = Some(x.clone());
    let got = finish_get(Ok(Some(stored.clone()))).expect("found");
    assert_eq!(got.id, Some(x.clone()));
    assert_eq!(got.name, "Ann");
    assert_eq!(got.title, "Eng");
    assert_eq!(got.location, "NYC");

    // update(x, {id: None, name: "Ann", title: "Staff Eng", location: "NYC"})
    let promoted = User::new(
        String::from("Ann"),
        String::from("Staff Eng"),
        String::from("NYC"),
    );
    let StoreRequest::UpdateById { id, fields } =
        update_request(&x_hex, &promoted).expect("valid id")
    else {
        panic!("update_request must build an update-by-id");
    };
    assert_eq!(id, x);
    assert_eq!(fields.title, "Staff Eng");
    let summary = finish_update(Ok((1, 1))).expect("updated");
    assert_eq!(summary.matched_count, 1);
    assert_eq!(summary.modified_count, 1);

    // get(x) -> title is now "Staff Eng"
    let mut renamed = stored.clone();
    renamed.title = String::from("Staff Eng");
    let got = finish_get(Ok(Some(renamed))).expect("found");
    assert_eq!(got.title, "Staff Eng");

    // delete(x) -> deleted = 1
    let StoreRequest::DeleteById { id } = delete_request(&x_hex).expect("valid id") else {
        panic!("delete_request must build a delete-by-id");
    };
    assert_eq!(id, x);
    let summary = finish_delete(Ok(1)).expect("deleted");
    assert_eq!(summary.deleted_count, 1);

    // get(x) -> not-found
    assert_eq!(finish_get(Ok(None)), Err(RepoError::NotFound));
}
