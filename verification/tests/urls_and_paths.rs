use smolkv::api_url;
use smolkv::parse_path;

#[test]
fn url_with_leading_separator() {
    assert_eq!(api_url("http://h", "/foo"), "http://h/api/foo");
}

#[test]
fn url_without_leading_separator() {
    assert_eq!(api_url("http://h", "foo"), "http://h/api/foo");
}

#[test]
fn url_strips_every_leading_separator() {
    assert_eq!(api_url("http://h", "///foo"), "http://h/api/foo");
}

#[test]
fn url_keeps_inner_separators() {
    assert_eq!(api_url("http://h", "coll/a/b"), "http://h/api/coll/a/b");
}

#[test]
fn url_of_empty_path() {
    assert_eq!(api_url("http://h", ""), "http://h/api/");
}

#[test]
fn path_first_segment_is_collection() {
    let (collection, key) = parse_path("coll/a/b/c").unwrap();
    assert_eq!(collection, "coll");
    assert_eq!(key, "a/b/c");
}

#[test]
fn path_single_separator() {
    let (collection, key) = parse_path("users/1").unwrap();
    assert_eq!(collection, "users");
    assert_eq!(key, "1");
}

#[test]
fn path_without_separator_is_malformed() {
    assert!(parse_path("coll").is_none());
}

#[test]
fn path_empty_is_malformed() {
    assert!(parse_path("").is_none());
}
