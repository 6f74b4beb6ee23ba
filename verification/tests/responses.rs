use smolkv::response::{interpret_response, is_success};
use smolkv::Error;

#[test]
fn ok_status_decodes_body() {
    let v = interpret_response(200, "/api/c", "{\"a\":1}").unwrap();
    let expected: serde_json::Value = serde_json::from_str("{\"a\":1}").unwrap();
    assert_eq!(v, expected);
}

#[test]
fn created_status_decodes_body() {
    let v = interpret_response(201, "/api/c", "[1,2]").unwrap();
    let expected: serde_json::Value = serde_json::from_str("[1,2]").unwrap();
    assert_eq!(v, expected);
}

#[test]
fn undecodable_success_body_is_a_decode_error() {
    let r = interpret_response(200, "/api/c", "not json");
    assert_eq!(r.unwrap_err(), Error::Decode("not json".to_string()));
}

#[test]
fn missing_resource_maps_to_not_found() {
    let r = interpret_response(404, "/api/c/k", "");
    assert_eq!(r.unwrap_err(), Error::NotFound("/api/c/k".to_string()));
}

#[test]
fn conflict_maps_to_already_exists() {
    // The second creation of one collection is answered 409 by the server.
    let r = interpret_response(409, "/api/users", "");
    assert_eq!(r.unwrap_err(), Error::AlreadyExists("/api/users".to_string()));
}

#[test]
fn bad_request_carries_server_diagnostic() {
    let r = interpret_response(400, "/api/c", "bad filter expression");
    assert_eq!(
        r.unwrap_err(),
        Error::BadRequest("bad filter expression".to_string())
    );
}

#[test]
fn other_status_carries_the_code() {
    let r = interpret_response(500, "/api/c", "boom");
    assert_eq!(r.unwrap_err(), Error::Server(500));
    let r = interpret_response(204, "/api/c", "");
    assert_eq!(r.unwrap_err(), Error::Server(204));
}

#[test]
fn success_statuses() {
    assert!(is_success(200));
    assert!(is_success(201));
    assert!(is_success(204));
    assert!(!is_success(199));
    assert!(!is_success(300));
    assert!(!is_success(500));
}

#[test]
fn error_equality_distinguishes_kinds() {
    assert_eq!(
        Error::Transport("x".to_string()),
        Error::Transport("x".to_string())
    );
    assert_ne!(Error::Transport("x".to_string()), Error::Io("x".to_string()));
    assert_ne!(
        Error::NotFound("a".to_string()),
        Error::NotFound("b".to_string())
    );
    assert_eq!(Error::Server(500), Error::Server(500));
    assert_ne!(Error::Server(500), Error::Server(503));
}

#[test]
fn delete_of_absent_key_is_false_not_an_error() {
    // A delete maps the response status straight to a boolean: a key that was
    // never created gives 404, hence `false`, and no typed error can arise.
    assert!(!is_success(404));
}
