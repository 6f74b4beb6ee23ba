use smolkv::endpoint::Method;
use smolkv::query::QueryBuilder;
use smolkv::response::{interpret_response, is_success};
use smolkv::Endpoint;
use smolkv::Error;

fn endpoint() -> Endpoint {
    Endpoint::new("http://h", None)
}

#[test]
fn auth_header_present_only_with_secret() {
    let open = Endpoint::new("http://h", None);
    assert!(open.auth_header().is_none());
    let closed = Endpoint::new("http://h", Some("opensesame"));
    let (name, value) = closed.auth_header().unwrap();
    assert_eq!(name, "X-SECRET-KEY");
    assert_eq!(value, "opensesame");
}

#[test]
fn collection_requests() {
    let e = endpoint();
    let r = e.collection_exists_request("users");
    assert_eq!(r.method, Method::Head);
    assert_eq!(r.url, "http://h/api/users");

    let r = e.create_collection_request("users");
    assert_eq!(r.method, Method::Put);
    assert_eq!(r.url, "http://h/api/users");

    let r = e.drop_collection_request("users");
    assert_eq!(r.method, Method::Delete);
    assert_eq!(r.url, "http://h/api/users");
}

#[test]
fn listing_and_query_requests() {
    let e = endpoint();
    let q = QueryBuilder::new().limit(Some(10));
    let r = e.list_collection_request("users", &q);
    assert_eq!(r.method, Method::Get);
    assert_eq!(r.url, "http://h/api/users");
    assert_eq!(
        r.params,
        vec![
            ("limit".to_string(), "10".to_string()),
            ("keys".to_string(), "false".to_string()),
        ]
    );
    assert!(r.body.is_none());

    let q = QueryBuilder::new().query("price > 10");
    let r = e.query_collection_request("users", &q);
    assert_eq!(r.method, Method::Post);
    assert_eq!(r.url, "http://h/api/users");
    assert!(r.params.is_empty());
    assert_eq!(r.body.unwrap(), "{\"keys\":false,\"query\":\"price > 10\"}");
}

#[test]
fn key_requests_share_one_resource() {
    let e = endpoint();
    let put = e.put_request("users", "1");
    let get = e.get_request("users", "1");
    let del = e.delete_request("users", "1");
    let head = e.exists_request("users", "1");
    assert_eq!(put.method, Method::Put);
    assert_eq!(get.method, Method::Get);
    assert_eq!(del.method, Method::Delete);
    assert_eq!(head.method, Method::Head);
    for r in [&put, &get, &del, &head] {
        assert_eq!(r.url, "http://h/api/users/1");
    }
}

#[test]
fn key_with_separators_stays_whole() {
    let e = endpoint();
    let r = e.get_request("coll", "a/b/c");
    assert_eq!(r.url, "http://h/api/coll/a/b/c");
}

#[test]
fn batch_and_import_requests() {
    let e = endpoint();
    let r = e.batch_put_request("users");
    assert_eq!(r.method, Method::Put);
    assert_eq!(r.url, "http://h/api/users/_batch");

    let r = e.import_request("users", Some("doc.id"));
    assert_eq!(r.method, Method::Post);
    assert_eq!(r.url, "http://h/api/users/_import");
    assert_eq!(r.params, vec![("key".to_string(), "doc.id".to_string())]);
    assert_eq!(r.file_name.unwrap(), "backup.sst");

    let r = e.import_request("users", None);
    assert!(r.params.is_empty());
}

#[test]
fn subscribe_request_and_outcome() {
    let e = endpoint();
    let r = e.subscribe_request("users");
    assert_eq!(r.method, Method::Get);
    assert_eq!(r.url, "http://h/api/users/_subscribe");

    assert!(smolkv::endpoint::subscribe_outcome(200, "users").is_ok());
    assert_eq!(
        smolkv::endpoint::subscribe_outcome(500, "users").unwrap_err(),
        Error::NotFound("users".to_string())
    );
}

#[test]
fn backup_and_restore_requests() {
    let e = endpoint();
    let r = e.start_backup_request("users");
    assert_eq!(r.method, Method::Post);
    assert_eq!(r.url, "http://h/api/users/_backup");

    let r = e.backup_status_request("users", "j1");
    assert_eq!(r.method, Method::Get);
    assert_eq!(r.url, "http://h/api/users/_backup/status?id=j1");

    let r = e.upload_backup_request("users");
    assert_eq!(r.method, Method::Post);
    assert_eq!(r.url, "http://h/api/users/_backup/upload");
    assert_eq!(r.file_name.unwrap(), "users-backup.sst");

    let r = e.start_restore_request("users", "j1");
    assert_eq!(r.method, Method::Post);
    assert_eq!(r.url, "http://h/api/users/_restore?backup_id=j1");

    let r = e.restore_status_request("users", "j1");
    assert_eq!(r.method, Method::Get);
    assert_eq!(r.url, "http://h/api/users/_restore/status?id=j1");
}

#[test]
fn download_is_served_outside_the_api_prefix() {
    let e = endpoint();
    let url = e.download_backup_url("users", "abc");
    assert_eq!(url, "http://h/backups/users-abc.sst");

    assert!(smolkv::endpoint::download_outcome(200, "abc").is_ok());
    assert_eq!(
        smolkv::endpoint::download_outcome(404, "abc").unwrap_err(),
        Error::NotFound("abc".to_string())
    );
    assert_eq!(
        smolkv::endpoint::download_outcome(503, "abc").unwrap_err(),
        Error::Server(503)
    );
}

/// The client side of a whole collection lifecycle, against the responses the
/// server would send: create `users`, store one record, list it back, drop
/// the collection, then see the record gone.
#[test]
fn scenario_users_lifecycle() {
    let e = endpoint();

    let create = e.create_collection_request("users");
    assert_eq!((create.method, create.url.as_str()), (Method::Put, "http://h/api/users"));
    assert!(interpret_response(200, "/api/users", "{}").is_ok());

    let put = e.put_request("users", "1");
    assert_eq!((put.method, put.url.as_str()), (Method::Put, "http://h/api/users/1"));
    assert!(interpret_response(201, "/api/users/1", "{}").is_ok());

    let q = QueryBuilder::new().from(None).to(None).limit(Some(10));
    let list = e.list_collection_request("users", &q);
    assert_eq!((list.method, list.url.as_str()), (Method::Get, "http://h/api/users"));
    assert_eq!(
        list.params,
        vec![
            ("limit".to_string(), "10".to_string()),
            ("keys".to_string(), "false".to_string()),
        ]
    );
    let listed = interpret_response(200, "/api/users", "[{\"name\":\"a\"}]").unwrap();
    let expected: serde_json::Value = serde_json::from_str("[{\"name\":\"a\"}]").unwrap();
    assert_eq!(listed, expected);

    let drop = e.drop_collection_request("users");
    assert_eq!((drop.method, drop.url.as_str()), (Method::Delete, "http://h/api/users"));
    assert!(interpret_response(200, "/api/users", "{}").is_ok());

    let get = e.get_request("users", "1");
    assert_eq!((get.method, get.url.as_str()), (Method::Get, "http://h/api/users/1"));
    assert_eq!(
        interpret_response(404, "/api/users/1", "").unwrap_err(),
        Error::NotFound("/api/users/1".to_string())
    );

    // A second creation of the same name conflicts.
    assert_eq!(
        interpret_response(409, "/api/users", "").unwrap_err(),
        Error::AlreadyExists("/api/users".to_string())
    );

    // A delete of a key that never existed is a plain negative, not an error.
    assert!(!is_success(404));
}
