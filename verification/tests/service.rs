use rust_psql_crud_api::ids::fresh_id;
use rust_psql_crud_api::json::{
    build_user, find_member, get_user_request_body, join_user_json, parse_user, user_from_json, user_to_json, IdField,
    Json,
};
use rust_psql_crud_api::model::{ApiError, User, MAX_ID, MIN_ID};
use rust_psql_crud_api::reply::{error_reply, no_route_reply, Response, Status};
use rust_psql_crud_api::request::parse_request;
use rust_psql_crud_api::service::{
    create_reply, create_step, found_reply, perform, plan, read_reply, read_step, receive, route, serve, Route, Step,
};
use rust_psql_crud_api::table::UserTable;

fn user(id: Option<i32>, name: &str, email: &str) -> User {
    User { id, name: name.to_string(), email: email.to_string() }
}

const CREATE_ALICE: &str = "POST /users HTTP/1.1\r\nContent-Type: application/json\r\n\r\n{\"name\":\"Alice\",\"email\":\"a@x.com\"}";

#[test]
fn status_codes_and_heads() {
    assert_eq!(Status::Success.code(), 200);
    assert_eq!(Status::NotFound.code(), 404);
    assert_eq!(Status::InternalError.code(), 500);
    assert_eq!(Status::Success.head(), "HTTP/1.1 200 OK\r\nContent-Type: application/json\r\n\r\n");
    assert_eq!(Status::NotFound.head(), "HTTP/1.1 404 NOT FOUND\r\n\r\n");
    assert_eq!(Status::InternalError.head(), "HTTP/1.1 500 INTERNAL ERROR\r\n\r\n");
}

#[test]
fn encode_puts_the_body_right_after_the_head() {
    let r = Response { status: Status::Success, body: "{\"id\":1}".to_string() };
    assert_eq!(r.encode(), "HTTP/1.1 200 OK\r\nContent-Type: application/json\r\n\r\n{\"id\":1}");
    let r = Response { status: Status::NotFound, body: "404 not found".to_string() };
    assert_eq!(r.encode(), "HTTP/1.1 404 NOT FOUND\r\n\r\n404 not found");
    let r = Response { status: Status::InternalError, body: String::new() };
    assert_eq!(r.encode(), "HTTP/1.1 500 INTERNAL ERROR\r\n\r\n");
}

#[test]
fn each_error_has_its_reply() {
    let r = error_reply(ApiError::MalformedPayload);
    assert_eq!((r.status, r.body.as_str()), (Status::InternalError, "Malformed user payload"));
    let r = error_reply(ApiError::StorageUnavailable);
    assert_eq!((r.status, r.body.as_str()), (Status::InternalError, "Error in connecting with psql DB"));
    let r = error_reply(ApiError::StorageError);
    assert_eq!((r.status, r.body.as_str()), (Status::InternalError, "Storage error"));
    let r = error_reply(ApiError::NotFound);
    assert_eq!((r.status, r.body.as_str()), (Status::NotFound, "User not found"));
    let r = no_route_reply();
    assert_eq!((r.status, r.body.as_str()), (Status::NotFound, "404 not found"));
}

#[test]
fn routes_match_method_and_path_prefix() {
    assert_eq!(route(&parse_request("POST /users HTTP/1.1\r\n\r\n{}")), Route::Create);
    assert_eq!(route(&parse_request("POST /users/9 HTTP/1.1")), Route::Create);
    assert_eq!(route(&parse_request("POST /usersandmore")), Route::Create);
    assert_eq!(route(&parse_request("GET /users/9 HTTP/1.1")), Route::Read);
    assert_eq!(route(&parse_request("GET /users/")), Route::Read);
    assert_eq!(route(&parse_request("GET /users")), Route::Unknown);
    assert_eq!(route(&parse_request("PUT /users/9")), Route::Unknown);
    assert_eq!(route(&parse_request("POST /user")), Route::Unknown);
    assert_eq!(route(&parse_request("post /users")), Route::Unknown);
    assert_eq!(route(&parse_request("")), Route::Unknown);
}

#[test]
fn unknown_path_is_a_404_with_the_fixed_body() {
    let step = plan("GET /unknownpath HTTP/1.1\r\n\r\n");
    assert_eq!(step, Step::Reply(Response { status: Status::NotFound, body: "404 not found".to_string() }));
    let mut table = UserTable::new();
    let r = serve(&mut table, "GET /unknownpath HTTP/1.1\r\n\r\n");
    assert_eq!(r.status.code(), 404);
    assert_eq!(r.body, "404 not found");
    assert_eq!(r.encode(), "HTTP/1.1 404 NOT FOUND\r\n\r\n404 not found");
}

#[test]
fn non_numeric_id_is_a_404() {
    let step = plan("GET /users/abc HTTP/1.1\r\n\r\n");
    assert_eq!(step, Step::Reply(Response { status: Status::NotFound, body: "User not found".to_string() }));
    let mut table = UserTable::new();
    let r = serve(&mut table, "GET /users/abc HTTP/1.1\r\n\r\n");
    assert_eq!(r.status.code(), 404);
    assert_eq!(r.body, "User not found");
}

#[test]
fn numeric_id_becomes_a_lookup() {
    assert_eq!(plan("GET /users/42 HTTP/1.1\r\n\r\n"), Step::Select(42));
    assert_eq!(read_step("GET /users/-3 HTTP/1.1"), Step::Select(-3));
    assert_eq!(read_step("GET /users/2147483647"), Step::Select(i32::MAX));
    assert_eq!(
        read_step("GET /users/2147483648"),
        Step::Reply(Response { status: Status::NotFound, body: "User not found".to_string() })
    );
}

#[test]
fn malformed_json_on_create_is_a_500() {
    for body in ["", "{", "not json", "{\"name\":\"A\"}", "{\"name\":1,\"email\":\"e\"}", "[]", "null"] {
        let text = format!("POST /users HTTP/1.1\r\n\r\n{}", body);
        let step = plan(text.as_str());
        assert_eq!(
            step,
            Step::Reply(Response { status: Status::InternalError, body: "Malformed user payload".to_string() }),
            "body {:?}",
            body
        );
        let mut table = UserTable::new();
        assert_eq!(serve(&mut table, text.as_str()).status.code(), 500);
    }
}

#[test]
fn create_without_a_blank_line_has_no_body() {
    let step = plan("POST /users HTTP/1.1\r\n{\"name\":\"A\",\"email\":\"e\"}");
    assert_eq!(
        step,
        Step::Reply(Response { status: Status::InternalError, body: "Malformed user payload".to_string() })
    );
}

#[test]
fn create_plans_an_insert_under_an_assignable_id() {
    for _ in 0..200 {
        match plan(CREATE_ALICE) {
            Step::Insert(u) => {
                let id = u.id.unwrap();
                assert!((1..=1000).contains(&id));
                assert_eq!(u.name, "Alice");
                assert_eq!(u.email, "a@x.com");
            }
            other => panic!("unexpected step {:?}", other),
        }
    }
}

#[test]
fn create_ignores_the_id_of_the_payload() {
    let step = create_step(Ok(user(Some(5000), "A", "e")), 17);
    assert_eq!(step, Step::Insert(user(Some(17), "A", "e")));
    let step = create_step(Err(ApiError::MalformedPayload), 17);
    assert_eq!(
        step,
        Step::Reply(Response { status: Status::InternalError, body: "Malformed user payload".to_string() })
    );
}

#[test]
fn fresh_ids_stay_in_range() {
    assert_eq!((MIN_ID, MAX_ID), (1, 1000));
    let mut seen_different = false;
    let first = fresh_id();
    for _ in 0..2000 {
        let id = fresh_id();
        assert!(id >= 1 && id <= 1000);
        if id != first {
            seen_different = true;
        }
    }
    assert!(seen_different);
}

#[test]
fn create_then_read_gives_the_user_back() {
    let mut table = UserTable::new();
    let step = plan(CREATE_ALICE);
    let id = match &step {
        Step::Insert(u) => u.id.unwrap(),
        other => panic!("unexpected step {:?}", other),
    };
    let r = perform(&mut table, step);
    assert_eq!(r.status.code(), 200);
    assert_eq!(r.body, "User created");

    let r = serve(&mut table, format!("GET /users/{} HTTP/1.1\r\n\r\n", id).as_str());
    assert_eq!(r.status.code(), 200);
    assert_eq!(r.body, format!("{{\"id\":{},\"name\":\"Alice\",\"email\":\"a@x.com\"}}", id));
    assert_eq!(
        r.encode(),
        format!(
            "HTTP/1.1 200 OK\r\nContent-Type: application/json\r\n\r\n{{\"id\":{},\"name\":\"Alice\",\"email\":\"a@x.com\"}}",
            id
        )
    );
}

#[test]
fn serve_create_adds_one_row() {
    let mut table = UserTable::new();
    let r = serve(&mut table, CREATE_ALICE);
    assert_eq!(r.status, Status::Success);
    let mut found = 0;
    for id in 1..=1000 {
        if let Ok(u) = table.get_user_by_id(id) {
            assert_eq!(u, user(Some(id), "Alice", "a@x.com"));
            found += 1;
        }
    }
    assert_eq!(found, 1);
}

#[test]
fn colliding_create_is_a_500_and_keeps_the_first() {
    let mut table = UserTable::new();
    let r = perform(&mut table, Step::Insert(user(Some(77), "First", "f@x.com")));
    assert_eq!(r.status.code(), 200);
    let r = perform(&mut table, Step::Insert(user(Some(77), "Second", "s@x.com")));
    assert_eq!(r.status.code(), 500);
    assert_eq!(r.body, "Storage error");
    let r = serve(&mut table, "GET /users/77 HTTP/1.1\r\n\r\n");
    assert_eq!(r.status.code(), 200);
    assert_eq!(r.body, "{\"id\":77,\"name\":\"First\",\"email\":\"f@x.com\"}");
    assert_eq!(table.get_user_by_id(77), Ok(user(Some(77), "First", "f@x.com")));
}

#[test]
fn table_creates_under_an_assignable_id_and_finds_the_user() {
    let mut table = UserTable::new();
    for i in 0..50 {
        let name = format!("n{}", i);
        let email = format!("e{}@x", i);
        match table.create_user(name.clone(), email.clone()) {
            Ok(id) => {
                assert!((1..=1000).contains(&id));
                assert_eq!(table.get_user_by_id(id), Ok(User { id: Some(id), name, email }));
            }
            Err(e) => assert_eq!(e, ApiError::StorageError),
        }
    }
}

#[test]
fn unassigned_ids_are_not_found() {
    let mut table = UserTable::new();
    assert_eq!(table.get_user_by_id(1), Err(ApiError::NotFound));
    assert_eq!(table.insert(user(Some(3), "a", "b")), Ok(3));
    assert_eq!(table.insert(user(Some(9), "c", "d")), Ok(9));
    for id in [-1, 0, 1, 2, 4, 8, 10, 1000, 1001, i32::MAX, i32::MIN] {
        assert_eq!(table.get_user_by_id(id), Err(ApiError::NotFound));
        assert!(!table.contains(id));
    }
    assert!(table.contains(3));
    assert!(table.contains(9));
    let r = serve(&mut table, "GET /users/4 HTTP/1.1\r\n\r\n");
    assert_eq!((r.status, r.body.as_str()), (Status::NotFound, "User not found"));
}

#[test]
fn table_refuses_a_user_without_id_and_a_taken_id() {
    let mut table = UserTable::new();
    assert_eq!(table.insert(user(None, "a", "b")), Err(ApiError::StorageError));
    assert_eq!(table.insert(user(Some(3), "a", "b")), Ok(3));
    assert_eq!(table.insert(user(Some(3), "x", "y")), Err(ApiError::StorageError));
    assert_eq!(table.get_user_by_id(3), Ok(user(Some(3), "a", "b")));
}

#[test]
fn replies_follow_the_store() {
    let r = create_reply(Ok(12));
    assert_eq!((r.status, r.body.as_str()), (Status::Success, "User created"));
    let r = create_reply(Err(ApiError::StorageUnavailable));
    assert_eq!((r.status, r.body.as_str()), (Status::InternalError, "Error in connecting with psql DB"));
    let r = create_reply(Err(ApiError::StorageError));
    assert_eq!((r.status, r.body.as_str()), (Status::InternalError, "Storage error"));
    let r = create_reply(Err(ApiError::NotFound));
    assert_eq!((r.status, r.body.as_str()), (Status::InternalError, "User not found"));

    let r = read_reply(Ok(user(Some(4), "Bob", "b@y.org")));
    assert_eq!((r.status, r.body.as_str()), (Status::Success, "{\"id\":4,\"name\":\"Bob\",\"email\":\"b@y.org\"}"));
    let r = read_reply(Err(ApiError::NotFound));
    assert_eq!((r.status, r.body.as_str()), (Status::NotFound, "User not found"));
    let r = read_reply(Err(ApiError::StorageUnavailable));
    assert_eq!((r.status, r.body.as_str()), (Status::InternalError, "Error in connecting with psql DB"));
    let r = read_reply(Err(ApiError::StorageError));
    assert_eq!((r.status, r.body.as_str()), (Status::InternalError, "Storage error"));

    let r = found_reply(Some("{}".to_string()));
    assert_eq!((r.status, r.body.as_str()), (Status::Success, "{}"));
    let r = found_reply(None);
    assert_eq!((r.status, r.body.as_str()), (Status::InternalError, "Storage error"));
}

#[test]
fn user_json_has_id_name_email_in_order() {
    assert_eq!(
        user_to_json(&user(Some(42), "Alice", "a@x.com")).unwrap(),
        "{\"id\":42,\"name\":\"Alice\",\"email\":\"a@x.com\"}"
    );
    assert_eq!(user_to_json(&user(None, "", "")).unwrap(), "{\"id\":null,\"name\":\"\",\"email\":\"\"}");
    assert_eq!(
        user_to_json(&user(Some(-5), "a\"b\\c\n", "\u{e9}\u{1}")).unwrap(),
        "{\"id\":-5,\"name\":\"a\\\"b\\\\c\\n\",\"email\":\"\u{e9}\\u0001\"}"
    );
}

#[test]
fn payload_reads_name_and_email() {
    assert_eq!(parse_user("{\"name\":\"Alice\",\"email\":\"a@x.com\"}"), Ok(user(None, "Alice", "a@x.com")));
    assert_eq!(parse_user("{\"id\":null,\"name\":\"A\",\"email\":\"e\"}"), Ok(user(None, "A", "e")));
    assert_eq!(parse_user("{\"id\":7,\"name\":\"A\",\"email\":\"e\"}"), Ok(user(Some(7), "A", "e")));
    assert_eq!(
        parse_user(" { \"email\" : \"e\\u0041\" , \"extra\": [1,2], \"name\" : \"\\\"q\\\"\" } "),
        Ok(user(None, "\"q\"", "eA"))
    );
}

#[test]
fn payload_is_malformed_without_string_name_and_email() {
    for body in [
        "",
        "{",
        "{}",
        "[]",
        "42",
        "\"name\"",
        "{\"name\":\"A\"}",
        "{\"email\":\"e\"}",
        "{\"name\":null,\"email\":\"e\"}",
        "{\"name\":\"A\",\"email\":5}",
        "{\"name\":\"A\",\"email\":\"e\"} trailing",
        "{\"id\":\"7\",\"name\":\"A\",\"email\":\"e\"}",
        "{\"id\":1.5,\"name\":\"A\",\"email\":\"e\"}",
        "{\"id\":2147483648,\"name\":\"A\",\"email\":\"e\"}",
    ] {
        assert_eq!(parse_user(body), Err(ApiError::MalformedPayload), "body {:?}", body);
    }
}

#[test]
fn build_user_needs_both_texts_and_a_fitting_id() {
    let some = |s: &str| Some(s.to_string());
    assert_eq!(build_user(IdField::Absent, some("a"), some("b")), Ok(user(None, "a", "b")));
    assert_eq!(build_user(IdField::Whole(9), some("a"), some("b")), Ok(user(Some(9), "a", "b")));
    assert_eq!(
        build_user(IdField::Whole(-2147483648), some("a"), some("b")),
        Ok(user(Some(i32::MIN), "a", "b"))
    );
    assert_eq!(build_user(IdField::Whole(2147483648), some("a"), some("b")), Err(ApiError::MalformedPayload));
    assert_eq!(build_user(IdField::Whole(-2147483649), some("a"), some("b")), Err(ApiError::MalformedPayload));
    assert_eq!(build_user(IdField::Other, some("a"), some("b")), Err(ApiError::MalformedPayload));
    assert_eq!(build_user(IdField::Absent, None, some("b")), Err(ApiError::MalformedPayload));
    assert_eq!(build_user(IdField::Absent, some("a"), None), Err(ApiError::MalformedPayload));
    assert_eq!(build_user(IdField::Absent, None, None), Err(ApiError::MalformedPayload));
}

#[test]
fn user_survives_json_round_trips() {
    let users = [
        user(Some(1), "Alice", "a@x.com"),
        user(None, "Bob", "b@y.org"),
        user(Some(i32::MAX), "", ""),
        user(Some(i32::MIN), "q\"uo\\te\r\n\t", "\u{0}\u{1f}\u{7f}"),
        user(Some(0), "\u{e9}\u{4e2d}\u{10348}", "{\"name\":\"x\"}"),
    ];
    for u in users {
        let once = parse_user(user_to_json(&u).unwrap().as_str()).unwrap();
        assert_eq!(once, u);
        let twice = parse_user(user_to_json(&once).unwrap().as_str()).unwrap();
        assert_eq!(twice, u);
    }
}

#[test]
fn received_bytes_are_decoded_leniently() {
    assert_eq!(receive(b"GET /users/12 HTTP/1.1\r\n\r\n"), Step::Select(12));
    assert_eq!(
        receive(b"GET /users/1\xff HTTP/1.1\r\n\r\n"),
        Step::Reply(Response { status: Status::NotFound, body: "User not found".to_string() })
    );
    assert_eq!(
        receive(b"\xff\xfe"),
        Step::Reply(Response { status: Status::NotFound, body: "404 not found".to_string() })
    );
    match receive(b"POST /users HTTP/1.1\r\n\r\n{\"name\":\"A\xff\",\"email\":\"e\"}") {
        Step::Insert(u) => assert_eq!(u.name, "A\u{fffd}"),
        other => panic!("unexpected step {:?}", other),
    }
}

fn text(s: &str) -> Json {
    Json::Text(s.to_string())
}

fn object(members: Vec<(&str, Json)>) -> Json {
    Json::Object(members.into_iter().map(|(k, v)| (k.to_string(), v)).collect())
}

#[test]
fn user_is_read_from_an_object() {
    let doc = object(vec![("email", text("e")), ("name", text("A"))]);
    assert_eq!(user_from_json(&doc), Ok(user(None, "A", "e")));
    let doc = object(vec![("email", text("e")), ("id", Json::Number(Some(12))), ("name", text("A"))]);
    assert_eq!(user_from_json(&doc), Ok(user(Some(12), "A", "e")));
    let doc = object(vec![("email", text("e")), ("id", Json::Null), ("name", text("A")), ("x", Json::Bool(true))]);
    assert_eq!(user_from_json(&doc), Ok(user(None, "A", "e")));
}

#[test]
fn user_is_not_read_from_anything_else() {
    let bad = [
        Json::Null,
        Json::Bool(true),
        Json::Number(Some(1)),
        text("name"),
        Json::Array(vec![Json::Null, text("A"), text("e")]),
        object(vec![]),
        object(vec![("name", text("A"))]),
        object(vec![("email", text("e"))]),
        object(vec![("email", text("e")), ("name", Json::Null)]),
        object(vec![("email", Json::Array(vec![])), ("name", text("A"))]),
        object(vec![("email", text("e")), ("id", Json::Number(None)), ("name", text("A"))]),
        object(vec![("email", text("e")), ("id", Json::Number(Some(1 << 31))), ("name", text("A"))]),
        object(vec![("email", text("e")), ("id", text("1")), ("name", text("A"))]),
        object(vec![("Email", text("e")), ("Name", text("A"))]),
    ];
    for doc in bad {
        assert_eq!(user_from_json(&doc), Err(ApiError::MalformedPayload), "doc {:?}", doc);
    }
}

#[test]
fn members_are_found_by_key() {
    let entries = vec![
        ("a".to_string(), Json::Number(Some(1))),
        ("b".to_string(), Json::Null),
        ("a".to_string(), Json::Bool(false)),
    ];
    assert_eq!(find_member(&entries, "a"), Some(&Json::Number(Some(1))));
    assert_eq!(find_member(&entries, "b"), Some(&Json::Null));
    assert_eq!(find_member(&entries, "c"), None);
    assert_eq!(find_member(&entries, ""), None);
    assert_eq!(find_member(&Vec::new(), "a"), None);
}

#[test]
fn user_is_read_from_the_body_of_a_request() {
    assert_eq!(get_user_request_body(CREATE_ALICE), Ok(user(None, "Alice", "a@x.com")));
    assert_eq!(
        get_user_request_body("POST /users\r\n\r\n{\"id\":3,\"name\":\"B\",\"email\":\"b\"}"),
        Ok(user(Some(3), "B", "b"))
    );
    assert_eq!(
        get_user_request_body("{\"name\":\"B\",\"email\":\"b\"}"),
        Err(ApiError::MalformedPayload)
    );
    assert_eq!(get_user_request_body("POST /users\r\n\r\n"), Err(ApiError::MalformedPayload));
}

#[test]
fn numbers_that_are_no_small_integers_spoil_the_id() {
    for body in [
        "{\"id\":1e2,\"name\":\"A\",\"email\":\"e\"}",
        "{\"id\":18446744073709551615,\"name\":\"A\",\"email\":\"e\"}",
        "{\"id\":-2147483649,\"name\":\"A\",\"email\":\"e\"}",
        "{\"id\":true,\"name\":\"A\",\"email\":\"e\"}",
    ] {
        assert_eq!(parse_user(body), Err(ApiError::MalformedPayload), "body {:?}", body);
    }
    assert_eq!(
        parse_user("{\"id\":-2147483648,\"name\":\"A\",\"email\":\"e\"}"),
        Ok(user(Some(i32::MIN), "A", "e"))
    );
}

#[test]
fn user_json_is_joined_from_its_parts() {
    let some = |s: &str| Some(s.to_string());
    assert_eq!(
        join_user_json(Some(42), some("\"Alice\""), some("\"a@x.com\"")),
        some("{\"id\":42,\"name\":\"Alice\",\"email\":\"a@x.com\"}")
    );
    assert_eq!(
        join_user_json(None, some("\"\""), some("\"e\"")),
        some("{\"id\":null,\"name\":\"\",\"email\":\"e\"}")
    );
    assert_eq!(
        join_user_json(Some(i32::MIN), some("N"), some("E")),
        some("{\"id\":-2147483648,\"name\":N,\"email\":E}")
    );
    assert_eq!(join_user_json(Some(1), None, some("\"e\"")), None);
    assert_eq!(join_user_json(Some(1), some("\"n\""), None), None);
    assert_eq!(join_user_json(None, None, None), None);
}

#[test]
fn user_json_is_written_for_every_user() {
    for u in [
        user(Some(1), "Alice", "a@x.com"),
        user(None, "", ""),
        user(Some(-9), "\u{0}\u{7f}\u{ffff}", "\u{10ffff}\\\""),
    ] {
        assert!(user_to_json(&u).is_some());
    }
}

#[test]
fn json_literals_escape_quotes_backslashes_and_controls() {
    let u = user(Some(1), "\u{8}\t\n\u{c}\r", "\u{0}\u{b}\u{1f} /\u{7f}\u{80}");
    assert_eq!(
        user_to_json(&u),
        Some("{\"id\":1,\"name\":\"\\b\\t\\n\\f\\r\",\"email\":\"\\u0000\\u000b\\u001f /\u{7f}\u{80}\"}".to_string())
    );
    let u = user(None, "\"", "\\");
    assert_eq!(user_to_json(&u), Some("{\"id\":null,\"name\":\"\\\"\",\"email\":\"\\\\\"}".to_string()));
}

#[test]
fn a_repeated_key_keeps_its_last_value() {
    assert_eq!(
        parse_user("{\"name\":\"A\",\"name\":\"B\",\"email\":\"e\"}"),
        Ok(user(None, "B", "e"))
    );
}

#[test]
fn found_users_carry_the_id_they_were_asked_by() {
    let mut table = UserTable::new();
    for id in [5, 1, 1000, -3] {
        assert_eq!(table.insert(user(Some(id), "n", "e")), Ok(id));
    }
    for id in [5, 1, 1000, -3] {
        assert_eq!(table.get_user_by_id(id).unwrap().id, Some(id));
    }
    let count = (-10..=1000).filter(|id| table.contains(*id)).count();
    assert_eq!(count, 4);
    assert_eq!(table.insert(user(Some(5), "x", "y")), Err(ApiError::StorageError));
    let count = (-10..=1000).filter(|id| table.contains(*id)).count();
    assert_eq!(count, 4);
}

#[test]
fn a_read_of_a_stored_user_is_always_a_200() {
    let mut table = UserTable::new();
    assert_eq!(table.insert(user(Some(8), "q\"\n", "\u{1}@x")), Ok(8));
    let r = perform(&mut table, Step::Select(8));
    assert_eq!(r.status, Status::Success);
    assert_eq!(r.body, "{\"id\":8,\"name\":\"q\\\"\\n\",\"email\":\"\\u0001@x\"}");
    let r = read_reply(Ok(user(None, "", "")));
    assert_eq!((r.status, r.body.as_str()), (Status::Success, "{\"id\":null,\"name\":\"\",\"email\":\"\"}"));
}

#[test]
fn valid_utf8_is_received_as_it_stands() {
    match receive("POST /users HTTP/1.1\r\n\r\n{\"name\":\"\u{e9}\u{4e2d}\",\"email\":\"\u{10348}\"}".as_bytes()) {
        Step::Insert(u) => {
            assert_eq!(u.name, "\u{e9}\u{4e2d}");
            assert_eq!(u.email, "\u{10348}");
        }
        other => panic!("unexpected step {:?}", other),
    }
    assert_eq!(receive("GET /users/77 \u{e9}".as_bytes()), Step::Select(77));
}
