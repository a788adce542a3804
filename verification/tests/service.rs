use users_service::handlers::{
    build_log_line, create_command, create, delete_command, delete, get_command,
    get, list_command, list, DbCommand, DbError, Fetch, Param, Reply,
};
use users_service::user::{User, UserRequest};

fn sample_user() -> User {
    User::from_parts(
        b"00000000-0000-4000-8000-000000000001".to_vec(),
        b"alice".to_vec(),
        b"a@x.com".to_vec(),
        5,
    )
}

#[test]
fn list_command_sql_and_shape() {
    let c: DbCommand = list_command();
    assert_eq!(c.sql, "SELECT id, username, email, created_at FROM users");
    assert_eq!(c.params.len(), 0);
    assert!(matches!(c.fetch, Fetch::All));
}

#[test]
fn list_ok_empty_is_empty_array() {
    let r: Reply = list(Ok(Vec::new()));
    assert_eq!(r.status, 200);
    assert_eq!(r.content_type, "application/json");
    assert_eq!(r.body, b"[]".to_vec());
}

#[test]
fn list_ok_renders_rows_in_order() {
    let u1 = sample_user();
    let u2 = User::from_parts(
        b"00000000-0000-4000-8000-000000000002".to_vec(),
        b"bob".to_vec(),
        b"b@x.com".to_vec(),
        7,
    );
    let r = list(Ok(vec![u1, u2]));
    assert_eq!(r.status, 200);
    let expected = r#"[{"id":"00000000-0000-4000-8000-000000000001","username":"alice","email":"a@x.com","created_at":5},{"id":"00000000-0000-4000-8000-000000000002","username":"bob","email":"b@x.com","created_at":7}]"#;
    assert_eq!(r.body, expected.as_bytes().to_vec());
}

#[test]
fn list_err_is_404_with_fixed_message() {
    let r = list(Err(DbError { message: b"connection refused".to_vec() }));
    assert_eq!(r.status, 404);
    assert_eq!(r.body, b"\"No users found\"".to_vec());
}

#[test]
fn list_after_create_contains_the_created_pair() {
    let created = User::new(b"alice".to_vec(), b"a@x.com".to_vec());
    let r = list(Ok(vec![created]));
    assert_eq!(r.status, 200);
    let body = String::from_utf8(r.body).unwrap();
    assert!(body.contains(r#""username":"alice","email":"a@x.com""#));
}

#[test]
fn create_command_binds_all_four_params() {
    let req = UserRequest { username: b"alice".to_vec(), email: b"a@x.com".to_vec() };
    let id = b"00000000-0000-4000-8000-000000000001".to_vec();
    let c = create_command(&req, &id, 42);
    assert_eq!(
        c.sql,
        "INSERT INTO users (id, username, email, created_at) VALUES ($1, $2, $3, $4) RETURNING id, username, email, created_at",
    );
    assert_eq!(c.params.len(), 4);
    assert!(matches!(&c.params[0], Param::Text(t) if *t == id));
    assert!(matches!(&c.params[1], Param::Text(t) if *t == b"alice".to_vec()));
    assert!(matches!(&c.params[2], Param::Text(t) if *t == b"a@x.com".to_vec()));
    assert!(matches!(&c.params[3], Param::Time(t) if *t == 42));
    assert!(matches!(c.fetch, Fetch::One));
}

#[test]
fn create_ok_renders_the_record() {
    let r = create(Ok(sample_user()));
    assert_eq!(r.status, 200);
    assert_eq!(r.content_type, "application/json");
    let expected =
        r#"{"id":"00000000-0000-4000-8000-000000000001","username":"alice","email":"a@x.com","created_at":5}"#;
    assert_eq!(r.body, expected.as_bytes().to_vec());
}

#[test]
fn create_err_embeds_the_error_text() {
    let r = create(Err(DbError { message: b"boom".to_vec() }));
    assert_eq!(r.status, 500);
    assert_eq!(r.body, b"\"Failed to create user: boom\"".to_vec());
}

#[test]
fn create_escapes_quotes_in_the_error_text() {
    let r = create(Err(DbError { message: b"bad \"column\"".to_vec() }));
    assert_eq!(r.status, 500);
    assert_eq!(
        r.body,
        b"\"Failed to create user: bad \\\"column\\\"\"".to_vec(),
    );
}

#[test]
fn user_json_escapes_specials_and_controls() {
    let u = User::from_parts(
        b"i".to_vec(),
        b"a\"b\\c\nd".to_vec(),
        b"e".to_vec(),
        0,
    );
    let r = create(Ok(u));
    let expected = r#"{"id":"i","username":"a\"b\\c\u000ad","email":"e","created_at":0}"#;
    assert_eq!(r.body, expected.as_bytes().to_vec());
}

#[test]
fn negative_created_at_renders_with_sign() {
    let u = User::from_parts(b"i".to_vec(), b"u".to_vec(), b"e".to_vec(), -12);
    let r = create(Ok(u));
    let expected = r#"{"id":"i","username":"u","email":"e","created_at":-12}"#;
    assert_eq!(r.body, expected.as_bytes().to_vec());
}

#[test]
fn extreme_created_at_renders_exactly() {
    let u = User::from_parts(b"i".to_vec(), b"u".to_vec(), b"e".to_vec(), i64::MIN);
    let r = create(Ok(u));
    let expected = r#"{"id":"i","username":"u","email":"e","created_at":-9223372036854775808}"#;
    assert_eq!(r.body, expected.as_bytes().to_vec());
}

#[test]
fn get_command_binds_the_raw_id() {
    let c = get_command(b"not-a-uuid".to_vec());
    assert_eq!(c.sql, "SELECT id, username, email, created_at FROM users WHERE id = $1");
    assert_eq!(c.params.len(), 1);
    assert!(matches!(&c.params[0], Param::Text(t) if *t == b"not-a-uuid".to_vec()));
    assert!(matches!(c.fetch, Fetch::All));
}

#[test]
fn get_ok_is_an_array_containing_the_id() {
    let r = get(Ok(vec![sample_user()]));
    assert_eq!(r.status, 200);
    let body = String::from_utf8(r.body).unwrap();
    assert!(body.starts_with('['));
    assert!(body.ends_with(']'));
    assert!(body.contains("00000000-0000-4000-8000-000000000001"));
}

#[test]
fn get_err_is_404_not_500() {
    let r = get(Err(DbError { message: b"invalid input syntax for type uuid".to_vec() }));
    assert_eq!(r.status, 404);
    assert_eq!(r.body, b"\"No user found\"".to_vec());
}

#[test]
fn delete_issues_no_storage_command() {
    assert!(delete_command(&b"00000000-0000-4000-8000-000000000001".to_vec()).is_none());
    assert!(delete_command(&b"not-a-uuid".to_vec()).is_none());
}

#[test]
fn delete_is_204_with_empty_body_for_any_id() {
    let r = delete(&b"no-such-id".to_vec());
    assert_eq!(r.status, 204);
    assert_eq!(r.content_type, "application/json");
    assert!(r.body.is_empty());
}

#[test]
fn delete_twice_is_observably_identical() {
    let id = b"00000000-0000-4000-8000-000000000001".to_vec();
    let r1 = delete(&id);
    let r2 = delete(&id);
    assert_eq!(r1.status, r2.status);
    assert_eq!(r1.body, r2.body);
    assert_eq!(r1.content_type, r2.content_type);
}

#[test]
fn new_records_get_fresh_distinct_uuids() {
    let u1 = User::new(b"alice".to_vec(), b"a@x.com".to_vec());
    let u2 = User::new(b"bob".to_vec(), b"b@x.com".to_vec());
    assert_ne!(u1.id, u2.id);
    for u in [&u1, &u2] {
        assert_eq!(u.id.len(), 36);
        for (i, b) in u.id.iter().enumerate() {
            if i == 8 || i == 13 || i == 18 || i == 23 {
                assert_eq!(*b, b'-');
            } else {
                assert!(b.is_ascii_hexdigit() && !b.is_ascii_uppercase());
            }
        }
        assert_eq!(u.id[14], b'4');
        assert!(matches!(u.id[19], b'8' | b'9' | b'a' | b'b'));
    }
}

#[test]
fn new_record_is_stamped_near_now() {
    let before = chrono::Utc::now().timestamp();
    let u = User::new(b"alice".to_vec(), b"a@x.com".to_vec());
    let after = chrono::Utc::now().timestamp();
    assert!(before <= u.created_at && u.created_at <= after);
}

#[test]
fn log_line_lists_the_bound_values() {
    let line = build_log_line(
        &b"00000000-0000-4000-8000-000000000001".to_vec(),
        &b"alice".to_vec(),
        &b"a@x.com".to_vec(),
        42,
    );
    assert_eq!(
        line,
        b"id: 00000000-0000-4000-8000-000000000001, username: alice, email: a@x.com, created_at: 42"
            .to_vec(),
    );
}
