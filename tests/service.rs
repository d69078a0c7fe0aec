use authors_api::handlers::{
    create_reply, delete_reply, get_all, get_by_id, get_by_id_reply, merge, patch_update,
    patch_update_fetched, patch_update_reply, Action, Body, Reply, StoreError,
};
use authors_api::model::{Author, CreateAuthorDto, Date, UpdateAuthorDto};
use authors_api::table::{AuthorTable, Request};
use authors_api::validation::{
    field_errors_of, is_valid_email, is_valid_name, validate_create, FieldError,
};

fn new_author(name: &str, email: &str) -> CreateAuthorDto {
    CreateAuthorDto { name: name.to_string(), email: email.to_string(), date_of_birth: None }
}

fn only_name(name: &str) -> UpdateAuthorDto {
    UpdateAuthorDto { name: Some(name.to_string()), email: None, date_of_birth: None }
}

fn created_id(r: &Reply) -> i32 {
    match &r.body {
        Body::Created { id, .. } => *id,
        _ => panic!("not a created reply"),
    }
}

fn one(r: &Reply) -> Author {
    match &r.body {
        Body::One { author } => author.clone(),
        _ => panic!("not a single author"),
    }
}

fn row_count(t: &AuthorTable) -> usize {
    t.select_all().len()
}

#[test]
fn ada_lifecycle() {
    let mut t = AuthorTable::new();
    let r = t.serve(Request::Create { dto: new_author("Ada Lovelace", "ada@example.com") });
    assert_eq!(r.status, 201);
    let id = created_id(&r);

    let r = t.serve(Request::Get { id });
    assert_eq!(r.status, 200);
    let a = one(&r);
    assert_eq!(a.id, id);
    assert_eq!(a.name, "Ada Lovelace");
    assert_eq!(a.date_of_birth, None);

    let r = t.serve(Request::Patch { id, dto: only_name("Ada L.") });
    assert_eq!(r.status, 204);

    let r = t.serve(Request::Get { id });
    assert_eq!(r.status, 200);
    let a = one(&r);
    assert_eq!(a.name, "Ada L.");
    assert_eq!(a.email, "ada@example.com");

    assert_eq!(t.serve(Request::Delete { id }).status, 204);
    assert_eq!(t.serve(Request::Get { id }).status, 404);
}

#[test]
fn nonpositive_ids_are_rejected_before_the_store() {
    let mut t = AuthorTable::new();
    t.serve(Request::Create { dto: new_author("Grace Hopper", "grace@example.com") });
    for id in [0, -1, i32::MIN] {
        assert_eq!(t.serve(Request::Get { id }).status, 400);
        assert_eq!(t.serve(Request::Delete { id }).status, 400);
        assert_eq!(t.serve(Request::Patch { id, dto: only_name("Someone") }).status, 400);
        assert!(matches!(get_by_id(id), Action::Respond { .. }));
        assert!(matches!(patch_update(id, &only_name("Someone")), Action::Respond { .. }));
    }
    assert_eq!(row_count(&t), 1);
    assert!(matches!(get_by_id(1), Action::Fetch { id: 1 }));
}

#[test]
fn invalid_create_inserts_nothing() {
    let mut t = AuthorTable::new();
    let long = "x".repeat(61);
    for dto in [
        new_author("A", "a@example.com"),
        new_author(&long, "a@example.com"),
        new_author("Alan Turing", "not-an-email"),
        new_author("Alan Turing", ""),
    ] {
        assert_eq!(t.serve(Request::Create { dto }).status, 400);
    }
    assert_eq!(row_count(&t), 0);
}

#[test]
fn validation_lists_each_broken_field() {
    match validate_create(&new_author("A", "nope")) {
        Err(v) => assert_eq!(v, vec![FieldError::NameLength, FieldError::InvalidEmail]),
        Ok(()) => panic!("accepted"),
    }
    match validate_create(&new_author("Al", "nope")) {
        Err(v) => assert_eq!(v, vec![FieldError::InvalidEmail]),
        Ok(()) => panic!("accepted"),
    }
    assert!(validate_create(&new_author("Al", "al@example.com")).is_ok());
}

#[test]
fn name_length_bounds_count_characters() {
    assert!(!is_valid_name(""));
    assert!(!is_valid_name("A"));
    assert!(is_valid_name("Al"));
    assert!(is_valid_name(&"x".repeat(60)));
    assert!(!is_valid_name(&"x".repeat(61)));
    // thirty two-byte characters: 60 bytes, 30 characters
    assert!(is_valid_name(&"é".repeat(30)));
    assert!(!is_valid_name(&"é".repeat(61)));
}

#[test]
fn email_rule_follows_garde() {
    assert!(is_valid_email("email@here.com"));
    assert!(is_valid_email("email@[127.0.0.1]"));
    assert!(!is_valid_email(""));
    assert!(!is_valid_email("no-at-sign.example.com"));
    assert!(!is_valid_email("a b@example.com"));
}

#[test]
fn duplicate_email_conflicts() {
    let mut t = AuthorTable::new();
    assert_eq!(t.serve(Request::Create { dto: new_author("Ada", "same@example.com") }).status, 201);
    assert_eq!(t.serve(Request::Create { dto: new_author("Bob", "same@example.com") }).status, 409);
    let rows = t.select_all();
    assert_eq!(rows.iter().filter(|a| a.email == "same@example.com").count(), 1);
    assert_eq!(rows[0].name, "Ada");
}

#[test]
fn ids_increase_and_are_not_reused() {
    let mut t = AuthorTable::new();
    let a = created_id(&t.serve(Request::Create { dto: new_author("Ada", "a@example.com") }));
    let b = created_id(&t.serve(Request::Create { dto: new_author("Bob", "b@example.com") }));
    assert_eq!((a, b), (1, 2));
    assert_eq!(t.serve(Request::Delete { id: b }).status, 204);
    let c = created_id(&t.serve(Request::Create { dto: new_author("Cy", "c@example.com") }));
    assert_eq!(c, 3);
}

#[test]
fn delete_missing_then_twice() {
    let mut t = AuthorTable::new();
    assert_eq!(t.serve(Request::Delete { id: 7 }).status, 404);
    let id = created_id(&t.serve(Request::Create { dto: new_author("Ada", "a@example.com") }));
    assert_eq!(t.serve(Request::Delete { id }).status, 204);
    assert_eq!(t.serve(Request::Delete { id }).status, 404);
}

#[test]
fn patch_keeps_unsupplied_fields() {
    let mut t = AuthorTable::new();
    let dob = Date::new(1815, 12, 10).unwrap();
    let dto = CreateAuthorDto {
        name: "Ada Lovelace".to_string(),
        email: "ada@example.com".to_string(),
        date_of_birth: Some(dob),
    };
    let id = created_id(&t.serve(Request::Create { dto }));
    assert_eq!(t.serve(Request::Patch { id, dto: only_name("Ada King") }).status, 204);
    let a = one(&t.serve(Request::Get { id }));
    assert_eq!(a.name, "Ada King");
    assert_eq!(a.email, "ada@example.com");
    assert_eq!(a.date_of_birth, Some(dob));
}

#[test]
fn patch_statuses() {
    let mut t = AuthorTable::new();
    assert_eq!(t.serve(Request::Patch { id: 3, dto: only_name("Nobody") }).status, 404);
    let a = created_id(&t.serve(Request::Create { dto: new_author("Ada", "a@example.com") }));
    t.serve(Request::Create { dto: new_author("Bob", "b@example.com") });
    let steal = UpdateAuthorDto { name: None, email: Some("b@example.com".to_string()), date_of_birth: None };
    assert_eq!(t.serve(Request::Patch { id: a, dto: steal }).status, 409);
    let bad = UpdateAuthorDto { name: None, email: Some("broken".to_string()), date_of_birth: None };
    assert_eq!(t.serve(Request::Patch { id: a, dto: bad }).status, 400);
    let same = UpdateAuthorDto { name: None, email: Some("a@example.com".to_string()), date_of_birth: None };
    assert_eq!(t.serve(Request::Patch { id: a, dto: same }).status, 204);
}

#[test]
fn list_returns_rows_in_order() {
    let mut t = AuthorTable::new();
    t.serve(Request::Create { dto: new_author("Ada", "a@example.com") });
    t.serve(Request::Create { dto: new_author("Bob", "b@example.com") });
    let r = t.serve(Request::List);
    assert_eq!(r.status, 200);
    match r.body {
        Body::Many { authors } => {
            let names: Vec<&str> = authors.iter().map(|a| a.name.as_str()).collect();
            assert_eq!(names, vec!["Ada", "Bob"]);
        }
        _ => panic!("not a list"),
    }
}

#[test]
fn merge_prefers_supplied_fields() {
    let existing = Author {
        id: 4,
        name: "Old".to_string(),
        email: "old@example.com".to_string(),
        date_of_birth: Some(Date::new(1900, 1, 1).unwrap()),
    };
    let dto = UpdateAuthorDto {
        name: None,
        email: Some("new@example.com".to_string()),
        date_of_birth: Some(Date::new(2000, 2, 29).unwrap()),
    };
    let m = merge(existing, dto);
    assert_eq!(m.id, 4);
    assert_eq!(m.name, "Old");
    assert_eq!(m.email, "new@example.com");
    assert_eq!(m.date_of_birth, Some(Date::new(2000, 2, 29).unwrap()));
}

#[test]
fn store_errors_map_to_statuses() {
    let constraint = StoreError::Database {
        constraint: Some("authors_email_key".to_string()),
        text: "duplicate".to_string(),
    };
    let plain_db = StoreError::Database { constraint: None, text: "syntax".to_string() };
    let other = StoreError::Other { text: "pool timed out".to_string() };
    assert_eq!(create_reply(Err(constraint.clone())).status, 409);
    assert_eq!(create_reply(Err(plain_db.clone())).status, 500);
    assert_eq!(create_reply(Err(other.clone())).status, 500);
    assert_eq!(create_reply(Ok(12)).status, 201);
    assert_eq!(delete_reply(Ok(1)).status, 204);
    assert_eq!(delete_reply(Ok(0)).status, 404);
    assert_eq!(delete_reply(Err(constraint.clone())).status, 409);
    assert_eq!(delete_reply(Err(other.clone())).status, 500);
    assert_eq!(patch_update_reply(Ok(1)).status, 204);
    assert_eq!(patch_update_reply(Ok(0)).status, 500);
    assert_eq!(patch_update_reply(Ok(2)).status, 500);
    assert_eq!(patch_update_reply(Err(constraint)).status, 409);
    assert_eq!(patch_update_reply(Err(plain_db)).status, 500);
    let r = get_all(Err(other));
    assert_eq!(r.status, 500);
    match r.body {
        Body::Failure { error, .. } => assert_eq!(error, "pool timed out"),
        _ => panic!("no error text"),
    }
}

#[test]
fn field_errors_follow_the_verdicts() {
    assert_eq!(field_errors_of(Some(false), Some(true)), vec![FieldError::NameLength]);
    assert_eq!(field_errors_of(None, Some(false)), vec![FieldError::InvalidEmail]);
    assert_eq!(
        field_errors_of(Some(false), Some(false)),
        vec![FieldError::NameLength, FieldError::InvalidEmail]
    );
    assert!(field_errors_of(None, None).is_empty());
    assert!(field_errors_of(Some(true), Some(true)).is_empty());
}

#[test]
fn conflict_reply_carries_store_text() {
    let e = StoreError::Database {
        constraint: Some("authors_email_key".to_string()),
        text: "duplicate key".to_string(),
    };
    match create_reply(Err(e)).body {
        Body::Conflict { message, detail } => {
            assert_eq!(message, "Constraint violation");
            assert_eq!(detail, "duplicate key");
        }
        _ => panic!("not a conflict"),
    }
}

fn message_of(r: &Reply) -> String {
    match &r.body {
        Body::Message { message } => message.clone(),
        Body::Failure { message, .. } => message.clone(),
        Body::Conflict { message, .. } => message.clone(),
        Body::Invalid { message, .. } => message.clone(),
        Body::Created { message, .. } => message.clone(),
        _ => panic!("no message"),
    }
}

#[test]
fn dates_must_exist() {
    assert!(Date::new(2000, 2, 29).is_some());
    assert!(Date::new(1900, 2, 29).is_none());
    assert!(Date::new(2024, 2, 29).is_some());
    assert!(Date::new(-400, 2, 29).is_some());
    assert!(Date::new(-100, 2, 29).is_none());
    assert!(Date::new(2023, 4, 31).is_none());
    assert!(Date::new(2023, 13, 1).is_none());
    assert!(Date::new(2023, 0, 1).is_none());
    assert!(Date::new(2023, 1, 0).is_none());
    let d = Date::new(1815, 12, 10).unwrap();
    assert_eq!((d.year(), d.month(), d.day()), (1815, 12, 10));
}

#[test]
fn failure_replies_carry_messages() {
    let constraint = StoreError::Database {
        constraint: Some("fk".to_string()),
        text: "still referenced".to_string(),
    };
    let other = StoreError::Other { text: "pool timed out".to_string() };

    let r = delete_reply(Ok(0));
    assert_eq!(message_of(&r), "Author not found");
    let r = delete_reply(Err(constraint.clone()));
    assert_eq!(r.status, 409);
    match &r.body {
        Body::Conflict { message, detail } => {
            assert_eq!(message, "Constraint violation");
            assert_eq!(detail, "still referenced");
        }
        _ => panic!("not a conflict"),
    }
    let r = delete_reply(Err(other.clone()));
    match &r.body {
        Body::Failure { message, error } => {
            assert_eq!(message, "Failed to delete author");
            assert_eq!(error, "pool timed out");
        }
        _ => panic!("not a failure"),
    }
    assert!(matches!(delete_reply(Ok(1)).body, Body::Empty));

    match get_by_id(0) {
        Action::Respond { reply } => assert_eq!(message_of(&reply), "ID must be positive i32"),
        _ => panic!("not refused"),
    }
    match patch_update(-3, &only_name("Someone")) {
        Action::Respond { reply } => assert_eq!(message_of(&reply), "ID must be positive i32"),
        _ => panic!("not refused"),
    }
    assert_eq!(message_of(&get_by_id_reply(Ok(None))), "Author not found");
    assert_eq!(message_of(&get_by_id_reply(Err(other.clone()))), "Database error");
    assert_eq!(message_of(&get_all(Err(other.clone()))), "Failed to fetch authors");
    assert_eq!(message_of(&create_reply(Ok(5))), "Author created successfully");
    assert_eq!(message_of(&create_reply(Err(other.clone()))), "Failed to create author");
    assert_eq!(message_of(&patch_update_reply(Ok(0))), "Failed to update author");
    assert_eq!(message_of(&patch_update_reply(Err(other.clone()))), "Internal Server Error");
    assert_eq!(message_of(&patch_update_reply(Err(constraint))), "Constraint violation");
    match patch_update_fetched(only_name("Someone"), Ok(None)) {
        Action::Respond { reply } => assert_eq!(message_of(&reply), "Not Found"),
        _ => panic!("not refused"),
    }
    match patch_update_fetched(only_name("Someone"), Err(other)) {
        Action::Respond { reply } => match reply.body {
            Body::Failure { message, error } => {
                assert_eq!(message, "Database error");
                assert_eq!(error, "pool timed out");
            }
            _ => panic!("not a failure"),
        },
        _ => panic!("not refused"),
    }
}

#[test]
fn invalid_payload_reply_has_message_and_errors() {
    let mut t = AuthorTable::new();
    let r = t.serve(Request::Create { dto: new_author("A", "a@example.com") });
    assert_eq!(r.status, 400);
    match r.body {
        Body::Invalid { message, errors } => {
            assert_eq!(message, "Validation failed");
            assert_eq!(errors, vec![FieldError::NameLength]);
        }
        _ => panic!("not a validation reply"),
    }
}
