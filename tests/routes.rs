use fred::error::{Error, ErrorKind};
use kv_gateway::backend::{classify_error, KvError};
use kv_gateway::handlers::{get_key_value, health_check, key_response, ping};
use kv_gateway::response::Status;

fn store_lookup(store: &[(String, Vec<u8>)], key: &str) -> Option<Vec<u8>> {
    store.iter().find(|(k, _)| k == key).map(|(_, v)| v.clone())
}

#[test]
fn seeded_key_is_served_and_missing_key_is_not_found() {
    let store = vec![("foo".to_string(), b"bar".to_vec())];
    let found = get_key_value(Ok(store_lookup(&store, "foo")));
    assert_eq!(found, Ok(b"bar".to_vec()));
    let missing = get_key_value(Ok(store_lookup(&store, "missing")));
    assert_eq!(missing, Err(Status::NotFound));
    assert_eq!(missing.unwrap_err().code(), 404);
}

#[test]
fn health_is_ok_with_backend_down() {
    let down = get_key_value(Err(Error::new(ErrorKind::IO, "connection refused")));
    assert_eq!(down, Err(Status::InternalServerError));
    let r = health_check();
    assert_eq!(r.status, Status::Success);
    assert_eq!(r.status.code(), 200);
    assert_eq!(r.body, "OK");
}

#[test]
fn ping_relays_backend_reply() {
    let r = ping("PONG".to_string());
    assert_eq!(r.status.code(), 200);
    assert_eq!(r.body, "PONG");
}

#[test]
fn status_codes() {
    assert_eq!(Status::Success.code(), 200);
    assert_eq!(Status::NotFound.code(), 404);
    assert_eq!(Status::InternalServerError.code(), 500);
}

#[test]
fn key_response_maps_each_case() {
    assert_eq!(key_response(Ok(Some(b"v".to_vec()))), Ok(b"v".to_vec()));
    assert_eq!(key_response(Ok(Some(Vec::new()))), Ok(Vec::new()));
    assert_eq!(key_response(Ok(None)), Err(Status::NotFound));
    assert_eq!(key_response(Err(KvError::NotFound)), Err(Status::NotFound));
    assert_eq!(key_response(Err(KvError::Upstream)), Err(Status::InternalServerError));
}

#[test]
fn backend_not_found_error_gives_404() {
    let e = Error::new(ErrorKind::NotFound, "nil");
    assert_eq!(classify_error(&e), KvError::NotFound);
    assert_eq!(get_key_value(Err(e)), Err(Status::NotFound));
}

#[test]
fn other_backend_errors_give_500_without_detail() {
    for kind in [ErrorKind::Timeout, ErrorKind::IO, ErrorKind::Protocol, ErrorKind::Parse, ErrorKind::Unknown] {
        let e = Error::new(kind, "secret backend detail");
        assert_eq!(classify_error(&e), KvError::Upstream);
        assert_eq!(get_key_value(Err(e)), Err(Status::InternalServerError));
    }
}

#[test]
fn many_distinct_keys_each_get_their_own_value() {
    let store: Vec<(String, Vec<u8>)> =
        (0..100).map(|i| (format!("key{i}"), format!("value{i}").into_bytes())).collect();
    let answers: Vec<Result<Vec<u8>, Status>> = (0..100)
        .map(|i| get_key_value(Ok(store_lookup(&store, &format!("key{i}")))))
        .collect();
    for (i, a) in answers.into_iter().enumerate() {
        assert_eq!(a, Ok(format!("value{i}").into_bytes()));
    }
}

#[test]
fn key_with_odd_characters_is_passed_through() {
    let store = vec![("a/b c".to_string(), b"x\ny".to_vec())];
    assert_eq!(get_key_value(Ok(store_lookup(&store, "a/b c"))), Ok(b"x\ny".to_vec()));
}

#[test]
fn non_utf8_value_is_relayed_as_raw_bytes() {
    let raw = vec![0xff, 0x00, 0xfe, 0x80];
    let store = vec![("bin".to_string(), raw.clone())];
    assert_eq!(get_key_value(Ok(store_lookup(&store, "bin"))), Ok(raw));
}
