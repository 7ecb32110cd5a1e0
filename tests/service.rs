use user_service::handlers::{self, Body, Response};
use user_service::models::{CreateUserRequest, User};
use user_service::services::{self, ServiceError};
use user_service::store::UserStore;
use uuid::Uuid;

fn request(name: &str, email: &str) -> CreateUserRequest {
    CreateUserRequest { name: name.to_string(), email: email.to_string() }
}

fn text_of(r: &Response) -> String {
    match &r.body {
        Body::Text(t) => t.clone(),
        _ => panic!("expected a text body"),
    }
}

fn record_of(r: &Response) -> User {
    match &r.body {
        Body::Record(u) => u.clone(),
        _ => panic!("expected one user"),
    }
}

fn records_of(r: &Response) -> Vec<User> {
    match &r.body {
        Body::Records(v) => v.clone(),
        _ => panic!("expected a list of users"),
    }
}

fn id_text(id: u128) -> String {
    Uuid::from_u128(id).to_string()
}

#[test]
fn create_list_find_and_refuse_scenario() {
    let mut db = UserStore::new();
    let created = handlers::create_user(&mut db, request("Ada", "ada@example.com"));
    assert_eq!(created.status, 200);
    let ada = record_of(&created);
    assert_eq!(ada.name, "Ada");
    assert_eq!(ada.email, "ada@example.com");

    let listed = handlers::get_users(&db);
    assert_eq!(listed.status, 200);
    let all = records_of(&listed);
    assert_eq!(all.len(), 1);
    assert_eq!(all[0].id, ada.id);
    assert_eq!(all[0].name, "Ada");
    assert_eq!(all[0].email, "ada@example.com");

    let found = handlers::find_user(&db, &id_text(ada.id));
    assert_eq!(found.status, 200);
    let again = record_of(&found);
    assert_eq!(again.id, ada.id);
    assert_eq!(again.name, "Ada");
    assert_eq!(again.email, "ada@example.com");

    let refused = handlers::create_user(&mut db, request("", "x@x.com"));
    assert_eq!(refused.status, 400);
    assert_eq!(text_of(&refused), "Name and email cannot be empty");
    assert_eq!(db.len(), 1);
}

#[test]
fn blank_fields_are_refused_without_storing() {
    let mut db = UserStore::new();
    for (name, email) in [("", "a@b.c"), ("Ada", ""), ("   ", "a@b.c"), ("Ada", "\t\n "), ("", "")] {
        let r = handlers::create_user(&mut db, request(name, email));
        assert_eq!(r.status, 400);
        assert_eq!(text_of(&r), "Name and email cannot be empty");
        assert_eq!(db.len(), 0);
    }
}

#[test]
fn surrounding_space_is_kept_when_the_name_is_not_blank() {
    let mut db = UserStore::new();
    let r = handlers::create_user(&mut db, request("  Ada ", " ada@example.com"));
    assert_eq!(r.status, 200);
    let u = record_of(&r);
    assert_eq!(u.name, "  Ada ");
    assert_eq!(u.email, " ada@example.com");
}

#[test]
fn validation_error_carries_its_message() {
    match services::validate_request(&request(" ", "e@x.org")) {
        Err(ServiceError::ValidationError(m)) => assert_eq!(m, "Name and email cannot be empty"),
        _ => panic!("expected a validation error"),
    }
    assert!(services::validate_request(&request("Bo", "e@x.org")).is_ok());
    assert!(services::check_trimmed_fields("", "e").is_err());
    assert!(services::check_trimmed_fields("n", "").is_err());
    assert!(services::check_trimmed_fields("n", "e").is_ok());
}

#[test]
fn created_ids_are_distinct_version_four_and_found() {
    let mut db = UserStore::new();
    let mut ids: Vec<u128> = Vec::new();
    for k in 0..20 {
        let r = handlers::create_user(&mut db, request(&format!("user{}", k), "u@example.com"));
        assert_eq!(r.status, 200);
        let u = record_of(&r);
        assert!(!ids.contains(&u.id));
        assert_eq!((u.id >> 76) & 0xf, 4);
        assert_eq!((u.id >> 62) & 0x3, 2);
        ids.push(u.id);
        let found = handlers::find_user(&db, &id_text(u.id));
        assert_eq!(found.status, 200);
        assert_eq!(record_of(&found).name, format!("user{}", k));
    }
}

#[test]
fn listing_after_creations_has_one_user_per_creation() {
    let mut db = UserStore::new();
    assert_eq!(records_of(&handlers::get_users(&db)).len(), 0);
    let inputs = [("Ada", "ada@example.com"), ("Bob", "bob@example.com"), ("Ada", "ada@example.com")];
    for (name, email) in inputs {
        assert_eq!(handlers::create_user(&mut db, request(name, email)).status, 200);
    }
    let all = records_of(&handlers::get_users(&db));
    assert_eq!(all.len(), 3);
    for (k, (name, email)) in inputs.iter().enumerate() {
        assert_eq!(all[k].name, *name);
        assert_eq!(all[k].email, *email);
    }
    assert_ne!(all[0].id, all[2].id);
}

#[test]
fn malformed_id_is_a_bad_request() {
    let mut db = UserStore::new();
    handlers::create_user(&mut db, request("Ada", "ada@example.com"));
    for bad in ["", "42", "not-a-uuid", "67e55044-10b1-426f-9247-bb680e5fe0c", "67e55044-10b1-426f-9247-bb680e5fe0cz"] {
        let r = handlers::find_user(&db, bad);
        assert_eq!(r.status, 400);
        assert_eq!(text_of(&r), "Invalid user ID");
    }
}

#[test]
fn unknown_id_is_a_server_error() {
    let mut db = UserStore::new();
    handlers::create_user(&mut db, request("Ada", "ada@example.com"));
    let r = handlers::find_user(&db, "67e55044-10b1-426f-9247-bb680e5fe0c8");
    assert_eq!(r.status, 500);
    assert_eq!(text_of(&r), "no rows returned by a query that expected to return at least one row");
}

#[test]
fn parsed_id_lookup() {
    let mut db = UserStore::new();
    let u = record_of(&handlers::create_user(&mut db, request("Ada", "ada@example.com")));
    assert_eq!(handlers::find_user_parsed(&db, None).status, 400);
    assert_eq!(handlers::find_user_parsed(&db, Some(u.id.wrapping_add(1))).status, 500);
    let r = handlers::find_user_parsed(&db, Some(u.id));
    assert_eq!(r.status, 200);
    assert_eq!(record_of(&r).id, u.id);
    // the simple form without hyphens names the same identifier
    let simple = Uuid::from_u128(u.id).simple().to_string();
    assert_eq!(record_of(&handlers::find_user(&db, &simple)).id, u.id);
}

#[test]
fn duplicate_identifier_is_a_database_error() {
    let mut db = UserStore::new();
    let row = User { id: 7, name: "Ada".to_string(), email: "a@x".to_string() };
    assert!(db.insert(row.clone()).is_ok());
    match db.insert(User { id: 7, name: "Bob".to_string(), email: "b@x".to_string() }) {
        Err(ServiceError::DatabaseError(m)) => {
            assert_eq!(m, "error returned from database: duplicate key value violates unique constraint \"users_pkey\"")
        }
        _ => panic!("expected a database error"),
    }
    assert_eq!(db.len(), 1);
    assert_eq!(services::find_user_by_id(&db, 7).ok().map(|u| u.name), Some("Ada".to_string()));
    assert!(db.contains_id(7));
    assert!(!db.contains_id(8));
}

#[test]
fn error_responses_map_to_statuses() {
    let v = handlers::respond_with_user(Err(ServiceError::ValidationError("bad".to_string())));
    assert_eq!(v.status, 400);
    assert_eq!(text_of(&v), "bad");
    let d = handlers::respond_with_user(Err(ServiceError::DatabaseError("down".to_string())));
    assert_eq!(d.status, 500);
    assert_eq!(text_of(&d), "down");
    let l = handlers::respond_with_users(Err(ServiceError::DatabaseError("down".to_string())));
    assert_eq!(l.status, 500);
    assert_eq!(text_of(&l), "Error: DatabaseError(\"down\")");
    let e = handlers::respond_with_error(ServiceError::ValidationError("v".to_string()));
    assert_eq!(e.status, 400);
    assert_eq!(ServiceError::DatabaseError("m".to_string()).text(), "m");
}

#[test]
fn hello_probe() {
    let r = handlers::hello_world();
    assert_eq!(r.status, 200);
    assert_eq!(text_of(&r), "Hello, World!");
}

#[test]
fn prepared_row_keeps_the_request_fields() {
    let u = services::prepare_new_user(request("Ada", "ada@example.com")).ok().unwrap();
    assert_eq!(u.name, "Ada");
    assert_eq!(u.email, "ada@example.com");
    assert!(services::prepare_new_user(request(" ", "ada@example.com")).is_err());
    let all = services::get_all_users(&UserStore::new()).ok().unwrap();
    assert!(all.is_empty());
}

#[test]
fn listing_error_text_is_the_debug_form() {
    let samples = [
        "down",
        "quote \" and backslash \\",
        "line\nbreak\ttab\rreturn\0nul",
        "bell\u{7}escape\u{1b}delete\u{7f}unit\u{1f}",
        "caf\u{e9} \u{65e5}\u{672c}",
        "single ' quote",
        "next\u{85}line, soft\u{ad}hyphen",
        "zero\u{200b}width, no\u{a0}break, e\u{301}",
        "",
    ];
    for m in samples {
        let db = ServiceError::DatabaseError(m.to_string());
        assert_eq!(db.debug_text(), format!("{:?}", db));
        let v = ServiceError::ValidationError(m.to_string());
        assert_eq!(v.debug_text(), format!("{:?}", v));
        let r = handlers::respond_with_users(Err(ServiceError::DatabaseError(m.to_string())));
        assert_eq!(r.status, 500);
        assert_eq!(text_of(&r), format!("Error: {:?}", ServiceError::DatabaseError(m.to_string())));
    }
}

#[test]
fn unicode_white_space_counts_as_blank() {
    let mut db = UserStore::new();
    for blank in ["\u{3000}", "\u{a0}\u{2028}", "\u{85} \u{200a}", "\u{b}\u{c}"] {
        let r = handlers::create_user(&mut db, request(blank, "a@b.c"));
        assert_eq!(r.status, 400);
    }
    assert_eq!(db.len(), 0);
    let r = handlers::create_user(&mut db, request("\u{200b}", "a@b.c"));
    assert_eq!(r.status, 200);
}

#[test]
fn first_creation_in_an_empty_store_succeeds() {
    for _ in 0..10 {
        let mut db = UserStore::new();
        assert_eq!(handlers::create_user(&mut db, request("Ada", "ada@example.com")).status, 200);
        assert_eq!(db.len(), 1);
    }
}

#[test]
fn every_uuid_text_form_is_read() {
    let id: u128 = 0x67e5_5044_10b1_426f_9247_bb68_0e5f_e0c8;
    let forms = [
        "67e55044-10b1-426f-9247-bb680e5fe0c8",
        "67E55044-10B1-426F-9247-BB680E5FE0C8",
        "67e5504410b1426f9247bb680e5fe0c8",
        "{67e55044-10b1-426f-9247-bb680e5fe0c8}",
        "urn:uuid:67e55044-10b1-426f-9247-bb680e5fe0c8",
        "URN:UUID:67e55044-10b1-426f-9247-bb680e5fe0c8",
    ];
    for f in forms {
        assert_eq!(handlers::read_user_id(f), Some(id));
        assert_eq!(handlers::find_target(f).ok(), Some(id));
    }
    for bad in [
        "67e55044_10b1-426f-9247-bb680e5fe0c8",
        "(67e55044-10b1-426f-9247-bb680e5fe0c8)",
        "urn:uuix:67e55044-10b1-426f-9247-bb680e5fe0c8",
        "67e55044-10b1-426f-9247-bb680e5fe0cg",
        "67e5504410b1426f9247bb680e5fe0c",
        "67e55044-10b1-426f-9247-bb680e5fe0\u{e9}",
    ] {
        assert_eq!(handlers::read_user_id(bad), None);
        let refusal = handlers::find_target(bad).err().unwrap();
        assert_eq!(refusal.status, 400);
        assert_eq!(text_of(&refusal), "Invalid user ID");
    }
    assert_eq!(handlers::read_user_id("00000000-0000-0000-0000-000000000001"), Some(1));
}

#[test]
fn debug_text_wraps_the_quoted_message() {
    let db = ServiceError::DatabaseError("ignored".to_string());
    assert_eq!(db.debug_text_with("\"q\""), "DatabaseError(\"q\")");
    let v = ServiceError::ValidationError("ignored".to_string());
    assert_eq!(v.debug_text_with("\"q\""), "ValidationError(\"q\")");
    let odd = ServiceError::DatabaseError("\u{85}\u{ad}".to_string());
    assert_eq!(odd.debug_text(), "DatabaseError(\"\\u{85}\\u{ad}\")");
    let r = handlers::respond_with_users(Err(odd));
    assert_eq!(text_of(&r), "Error: DatabaseError(\"\\u{85}\\u{ad}\")");
}
