use asset_portal::auth::{admission_for, session_user_id, Admission, Client, UserId};
use asset_portal::errors::ClientError;
use asset_portal::records::{
    page_index, test_user_info, user_role_ids, BulkInsert, RowOutcome, TestRoleRecord,
    TestUserRecord,
};

fn strings(v: &[&str]) -> Vec<String> {
    v.iter().map(|s| s.to_string()).collect()
}

#[test]
fn bulk_insert_counts_each_row_once() {
    let outcomes = vec![
        RowOutcome::Inserted,
        RowOutcome::Unparsable,
        RowOutcome::Inserted,
        RowOutcome::Rejected,
        RowOutcome::Inserted,
    ];
    let s = BulkInsert::summarize(&outcomes);
    assert_eq!(s, BulkInsert { total: 5, inserted: 3, skipped: 2 });
    assert_eq!(s.inserted + s.skipped, s.total);
}

#[test]
fn bulk_insert_of_nothing() {
    assert_eq!(BulkInsert::summarize(&vec![]), BulkInsert { total: 0, inserted: 0, skipped: 0 });
}

#[test]
fn bulk_insert_record_step() {
    let mut s = BulkInsert::new(2);
    s.record(RowOutcome::Rejected);
    assert_eq!(s, BulkInsert { total: 2, inserted: 0, skipped: 1 });
    s.record(RowOutcome::Inserted);
    assert_eq!(s, BulkInsert { total: 2, inserted: 1, skipped: 1 });
}

#[test]
fn role_ids_keep_linked_roles_in_order() {
    let linked = vec![Some("admin".to_string()), None, Some("user_read".to_string())];
    assert_eq!(user_role_ids(linked), strings(&["admin", "user_read"]));
    assert!(user_role_ids(vec![None]).is_empty());
}

#[test]
fn test_user_info_messages() {
    assert_eq!(test_user_info(&None), "No TestUser found");
    let no_role = Some(TestUserRecord { name: "bob".to_string(), role: None });
    assert_eq!(test_user_info(&no_role), "User[ name: bob] No TestRole found");
    let with_role = Some(TestUserRecord {
        name: "admin".to_string(),
        role: Some(TestRoleRecord {
            name: "admin".to_string(),
            description: "default admin role".to_string(),
        }),
    });
    assert_eq!(
        test_user_info(&with_role),
        "User[ name: admin] Role[ name: admin | description: default admin role ]"
    );
}

#[test]
fn page_numbers_start_at_one() {
    assert_eq!(page_index(1), 0);
    assert_eq!(page_index(7), 6);
}

#[test]
fn session_without_user_is_refused() {
    assert!(matches!(session_user_id(Ok(None)), Err(ClientError::MissingUserSession)));
}

#[test]
fn session_with_user_gives_its_id() {
    assert!(matches!(session_user_id(Ok(Some(42))), Ok(42)));
}

#[test]
fn session_read_failure_is_unexpected() {
    match session_user_id(Err(strings(&["cookie is corrupt"]))) {
        Err(ClientError::UnexpectedError(c)) => {
            assert_eq!(c, strings(&["Session Error", "cookie is corrupt"]))
        }
        _ => panic!("expected an unexpected error"),
    }
}

#[test]
fn client_from_roles() {
    let c = Client::from_roles(7, Ok(strings(&["admin"]))).ok().unwrap();
    assert_eq!(c.user_id, 7);
    assert_eq!(c.roles, strings(&["admin"]));
    match Client::from_roles(7, Err(strings(&["Query Error: timeout"]))) {
        Err(ClientError::UnexpectedError(c)) => assert_eq!(c, strings(&["Query Error: timeout"])),
        _ => panic!("expected an unexpected error"),
    }
}

#[test]
fn admission_of_requests() {
    assert!(matches!(admission_for(Some(9)), Admission::Proceed(UserId(9))));
    match admission_for(None) {
        Admission::Redirect { location, reason } => {
            assert_eq!(location, "/login");
            assert_eq!(reason, "The user has not logged in");
        }
        Admission::Proceed(_) => panic!("expected a redirection"),
    }
}
