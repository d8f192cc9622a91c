use consul_oxide::kv::{KVPair, KV};
use consul_oxide::{Client, Config, Error, Method, Operation, QueryOptions, Request};

fn kv_client() -> Client {
    Client::new(Config::new("http://127.0.0.1:8500".to_string(), "secret".to_string())).unwrap()
}

fn sorted_query(request: &Request) -> Vec<(String, String)> {
    let mut pairs = request.query.pairs().clone();
    pairs.sort();
    pairs
}

fn kv_pair(name: &str, value: &str) -> (String, String) {
    (name.to_string(), value.to_string())
}

fn entry(key: &str, value: &str, flags: Option<u64>, session: Option<&str>) -> KVPair {
    KVPair {
        key: key.to_string(),
        value: value.to_string(),
        flags,
        session: session.map(|s| s.to_string()),
        ..KVPair::default()
    }
}

#[test]
fn acquire_without_a_session_is_a_caller_error() {
    let client = kv_client();
    for pair in [
        entry("lock/a", "", None, None),
        entry("lock/a", "payload", Some(7), None),
        entry("", "", None, None),
    ] {
        let error = client.acquire_entry(&pair, None).unwrap_err();
        assert_eq!(
            error,
            Error::MissingSession { operation: Operation::KvAcquire, subject: pair.key.clone() }
        );
        assert!(!error.is_retryable());
        let error = client.acquire_entry(&pair, Some(QueryOptions::watching(9, None))).unwrap_err();
        assert_eq!(error.operation(), Some(Operation::KvAcquire));
        assert_eq!(error.subject(), Some(pair.key.clone()));
    }
}

#[test]
fn release_without_a_session_is_a_caller_error() {
    let client = kv_client();
    let pair = entry("lock/a", "x", Some(1), None);
    let error = client.release_entry(&pair, None).unwrap_err();
    assert_eq!(
        error,
        Error::MissingSession { operation: Operation::KvRelease, subject: "lock/a".to_string() }
    );
    assert_eq!(error.message(), "kv release lock/a: no session id was given");
}

#[test]
fn acquire_names_the_session_and_forwards_the_tag() {
    let client = kv_client();
    let pair = entry("lock/a", "me", Some(42), Some("adf4238a-882b-9ddc-4a9d-5b6758e4159e"));
    let request = client.acquire_entry(&pair, None).unwrap();
    assert_eq!(request.method, Method::Put);
    assert_eq!(request.path, "/v1/kv/lock/a");
    assert_eq!(
        sorted_query(&request),
        vec![kv_pair("acquire", "adf4238a-882b-9ddc-4a9d-5b6758e4159e"), kv_pair("flags", "42")]
    );
    assert_eq!(request.body, Some(b"me".to_vec()));
    assert_eq!(request.headers.get(&"X-Consul-Token".to_string()), Some("secret".to_string()));
}

#[test]
fn release_names_the_session() {
    let client = kv_client();
    let pair = entry("lock/a", "", Some(0), Some("s1"));
    let mut options = QueryOptions::new();
    options.datacenter = Some("dc9".to_string());
    let request = client.release_entry(&pair, Some(options)).unwrap();
    assert_eq!(request.method, Method::Put);
    assert_eq!(request.path, "/v1/kv/lock/a");
    assert_eq!(sorted_query(&request), vec![kv_pair("dc", "dc9"), kv_pair("release", "s1")]);
    assert_eq!(request.body, Some(Vec::new()));
}

#[test]
fn put_forwards_the_tag_and_sends_the_value() {
    let client = kv_client();
    let request = client.put_entry(&entry("config/db", "h\u{f6}st", Some(9), Some("s1")), None);
    assert_eq!(request.method, Method::Put);
    assert_eq!(request.path, "/v1/kv/config/db");
    assert_eq!(sorted_query(&request), vec![kv_pair("flags", "9")]);
    assert_eq!(request.body, Some("h\u{f6}st".as_bytes().to_vec()));
    let request = client.put_entry(&entry("config/db", "", Some(0), None), None);
    assert!(sorted_query(&request).is_empty());
    let request = client.put_entry(&entry("config/db", "", None, None), None);
    assert!(sorted_query(&request).is_empty());
    assert_eq!(request.body, Some(Vec::new()));
}

#[test]
fn delete_of_a_key_and_of_a_subtree() {
    let client = kv_client();
    let request = client.delete_entry("config/db", false, None);
    assert_eq!(request.method, Method::Delete);
    assert_eq!(request.path, "/v1/kv/config/db");
    assert!(sorted_query(&request).is_empty());
    assert_eq!(request.body, None);
    let request = client.delete_entry("config/", true, None);
    assert_eq!(request.path, "/v1/kv/config/");
    assert_eq!(sorted_query(&request), vec![kv_pair("recurse", "")]);
}

#[test]
fn get_and_list() {
    let client = kv_client();
    let request = client.get_entry("config/db", Some(QueryOptions::watching(17, Some(1000))));
    assert_eq!(request.method, Method::Get);
    assert_eq!(request.path, "/v1/kv/config/db");
    assert_eq!(sorted_query(&request), vec![kv_pair("index", "17"), kv_pair("wait", "1000ms")]);
    assert_eq!(request.body, None);
    let request = client.list_entries("config/", None);
    assert_eq!(request.method, Method::Get);
    assert_eq!(request.path, "/v1/kv/config/");
    assert_eq!(sorted_query(&request), vec![kv_pair("recurse", "")]);
}

#[test]
fn entries_copy_and_default() {
    let pair = entry("a", "b", Some(1), Some("s"));
    let copy = pair.clone();
    assert_eq!(copy, pair);
    let empty = KVPair::default();
    assert_eq!(empty.key, "");
    assert_eq!(empty.value, "");
    assert_eq!(empty.createindex, None);
    assert_eq!(empty.modifyindex, None);
    assert_eq!(empty.lockindex, None);
    assert_eq!(empty.flags, None);
    assert_eq!(empty.session, None);
    assert!(empty.is_well_formed());
}
