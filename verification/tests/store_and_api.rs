use raft_demo3::network::api::{
    accept_write_body, answer_read, answer_write, consistent_read, read, rest, ApiEndpoint,
};
use raft_demo3::network::err::AppError;
use raft_demo3::network::HttpMethod;
use raft_demo3::store::KeyValueStore;

fn is_deserialize_failure(e: &AppError) -> bool {
    matches!(e, AppError::Anyhow { message, cause: Some(_) } if message == "deserialize json failed")
}

#[test]
fn store_reads_back_writes() {
    let mut kvs = KeyValueStore::new();
    assert_eq!(kvs.get(&"a".to_string()), None);
    assert_eq!(kvs.insert("a".to_string(), "1".to_string()), None);
    assert_eq!(kvs.insert("b".to_string(), "2".to_string()), None);
    assert_eq!(kvs.get(&"a".to_string()), Some(&"1".to_string()));
    assert_eq!(kvs.insert("a".to_string(), "3".to_string()), Some("1".to_string()));
    assert_eq!(kvs.get(&"a".to_string()), Some(&"3".to_string()));
    assert_eq!(kvs.get(&"b".to_string()), Some(&"2".to_string()));
    assert_eq!(kvs.get(&"c".to_string()), None);
}

#[test]
fn read_gives_stored_value() {
    let mut kvs = KeyValueStore::new();
    kvs.insert("foo".to_string(), "bar".to_string());
    assert_eq!(read(b"\"foo\"", &kvs).unwrap(), "bar");
}

#[test]
fn read_of_missing_key_gives_empty_string() {
    let kvs = KeyValueStore::new();
    assert_eq!(read(b"\"foo\"", &kvs).unwrap(), "");
}

#[test]
fn read_unescapes_the_json_key() {
    let mut kvs = KeyValueStore::new();
    kvs.insert("a\"b".to_string(), "quoted".to_string());
    assert_eq!(read(b"\"a\\\"b\"", &kvs).unwrap(), "quoted");
}

#[test]
fn read_keeps_the_reader_error_as_cause() {
    let kvs = KeyValueStore::new();
    let expected = serde_json::from_slice::<String>(b"foo").unwrap_err().to_string();
    match read(b"foo", &kvs) {
        Err(AppError::Anyhow { cause: Some(c), .. }) => assert_eq!(c, expected),
        other => panic!("unexpected {:?}", other),
    }
}

#[test]
fn read_refuses_a_body_that_is_not_a_json_string() {
    let kvs = KeyValueStore::new();
    assert!(is_deserialize_failure(&read(b"foo", &kvs).unwrap_err()));
    assert!(is_deserialize_failure(&read(b"42", &kvs).unwrap_err()));
    assert!(is_deserialize_failure(&read(b"", &kvs).unwrap_err()));
}

#[test]
fn answer_read_cases() {
    let mut kvs = KeyValueStore::new();
    kvs.insert("k".to_string(), "v".to_string());
    assert_eq!(answer_read(Ok("k".to_string()), &kvs).unwrap(), "v");
    assert_eq!(answer_read(Ok("x".to_string()), &kvs).unwrap(), "");
    match answer_read(Err("expected value".to_string()), &kvs) {
        Err(AppError::Anyhow { message, cause }) => {
            assert_eq!(message, "deserialize json failed");
            assert_eq!(cause.as_deref(), Some("expected value"));
        }
        other => panic!("unexpected {:?}", other),
    }
}

#[test]
fn api_routes() {
    let routes = rest();
    assert_eq!(routes.len(), 3);
    let expected = [
        ("/write", ApiEndpoint::Write),
        ("/read", ApiEndpoint::Read),
        ("/consistent_read", ApiEndpoint::ConsistentRead),
    ];
    for (r, (path, endpoint)) in routes.iter().zip(expected.iter()) {
        assert_eq!(r.method, HttpMethod::Post);
        assert_eq!(r.path, *path);
        assert_eq!(r.endpoint, *endpoint);
    }
}

#[test]
fn error_texts() {
    assert_eq!(
        AppError::deserialize_failed("EOF".to_string()).to_string(),
        "error: `deserialize json failed`"
    );
    let boom = AppError::Anyhow { message: "boom".to_string(), cause: None };
    assert_eq!(boom.to_string(), "error: `boom`");
    assert_eq!(AppError::NotFound.to_string(), "not found");
    assert_eq!(AppError::BadRequest.to_string(), "bad request");
}

fn is_write_failure(e: &AppError, why: &str) -> bool {
    matches!(e, AppError::Anyhow { message, cause: Some(c) } if message == "client write failed" && c == why)
}

#[test]
fn consistent_read_needs_confirmed_leadership() {
    let mut kvs = KeyValueStore::new();
    kvs.insert("foo".to_string(), "bar".to_string());
    assert!(consistent_read(false, b"\"foo\"", &kvs).is_none());
    assert_eq!(consistent_read(true, b"\"foo\"", &kvs).unwrap().unwrap(), "bar");
    assert_eq!(consistent_read(true, b"\"baz\"", &kvs).unwrap().unwrap(), "");
    assert!(is_deserialize_failure(&consistent_read(true, b"foo", &kvs).unwrap().unwrap_err()));
}

#[test]
fn write_is_proposed_only_for_a_readable_body() {
    assert!(accept_write_body(Ok(())).is_ok());
    let e = accept_write_body(Err("missing field `key`".to_string())).unwrap_err();
    assert!(is_deserialize_failure(&e));
    assert!(matches!(e, AppError::Anyhow { cause: Some(c), .. } if c == "missing field `key`"));
}

#[test]
fn write_answer_follows_the_commit() {
    assert_eq!(answer_write::<u64>(Ok(7)).unwrap(), 7);
    let e = answer_write::<u64>(Err("has to forward request to leader".to_string())).unwrap_err();
    assert!(is_write_failure(&e, "has to forward request to leader"));
    assert_eq!(e.to_string(), "error: `client write failed`");
}
