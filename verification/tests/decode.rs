use consul_oxide::kv::{decode_flag, decode_get, decode_list, decode_read, Indexed, KVPair};
use consul_oxide::{Error, Fault, Operation, Response};

fn answer(status: u16, index: Option<&str>, body: &str) -> Response {
    let mut headers = vec![("Content-Type".to_string(), "application/json".to_string())];
    if let Some(index) = index {
        headers.push(("x-consul-index".to_string(), index.to_string()));
    }
    Response { status, headers, body: body.as_bytes().to_vec() }
}

fn stored(key: &str, created: u64, modified: u64) -> KVPair {
    KVPair {
        key: key.to_string(),
        createindex: Some(created),
        modifyindex: Some(modified),
        lockindex: Some(0),
        flags: Some(0),
        value: "dmFsdWU=".to_string(),
        session: None,
    }
}

fn decode_fault(operation: Operation, subject: &str, fault: Fault) -> Error {
    Error::Decode { operation, subject: subject.to_string(), fault }
}

#[test]
fn a_key_never_written_is_absent_and_no_error() {
    for key in ["never/written", "", "a", "config/db/host"] {
        let got = decode_get(key, &answer(404, Some("12"), ""), None);
        assert_eq!(got, Ok(Indexed { value: None, index: 12 }));
        // whatever the body of such an answer may look like
        let got = decode_get(key, &answer(404, Some("12"), "not json"), None);
        assert_eq!(got, Ok(Indexed { value: None, index: 12 }));
    }
}

#[test]
fn list_of_an_empty_namespace_is_the_empty_list() {
    let listed = decode_list("config/", &answer(200, Some("1"), ""), None);
    assert_eq!(listed, Ok(Indexed { value: Vec::new(), index: 1 }));
    let listed = decode_list("config/", &answer(404, Some("1"), ""), None);
    assert_eq!(listed, Ok(Indexed { value: Vec::new(), index: 1 }));
}

#[test]
fn get_takes_the_first_entry() {
    let parsed = Some(vec![stored("config/db", 3, 9)]);
    let got = decode_get("config/db", &answer(200, Some("9"), "[{}]"), parsed);
    assert_eq!(got, Ok(Indexed { value: Some(stored("config/db", 3, 9)), index: 9 }));
    let got = decode_get("config/db", &answer(200, Some("9"), "[]"), Some(Vec::new()));
    assert_eq!(got, Ok(Indexed { value: None, index: 9 }));
}

#[test]
fn list_keeps_the_order_of_the_answer() {
    let entries = vec![stored("config/b", 5, 5), stored("config/a", 2, 7)];
    let listed = decode_list("config/", &answer(200, Some("7"), "[{},{}]"), Some(entries));
    assert_eq!(
        listed,
        Ok(Indexed { value: vec![stored("config/b", 5, 5), stored("config/a", 2, 7)], index: 7 })
    );
}

#[test]
fn a_body_that_does_not_parse_is_a_decode_failure() {
    let got = decode_get("a", &answer(200, Some("9"), "<html>"), None);
    assert_eq!(got, Err(decode_fault(Operation::KvGet, "a", Fault::MalformedBody)));
    let listed = decode_list("p/", &answer(200, Some("9"), "{"), None);
    assert_eq!(listed, Err(decode_fault(Operation::KvList, "p/", Fault::MalformedBody)));
}

#[test]
fn an_entry_written_before_its_creation_is_a_decode_failure() {
    let got = decode_get("a", &answer(200, Some("9"), "[{}]"), Some(vec![stored("a", 9, 3)]));
    assert_eq!(got, Err(decode_fault(Operation::KvGet, "a", Fault::MalformedBody)));
    let entries = vec![stored("p/a", 1, 1), stored("p/b", 9, 3)];
    let listed = decode_list("p/", &answer(200, Some("9"), "[{},{}]"), Some(entries));
    assert_eq!(listed, Err(decode_fault(Operation::KvList, "p/", Fault::MalformedBody)));
    assert!(stored("a", 3, 3).is_well_formed());
    assert!(!stored("a", 4, 3).is_well_formed());
}

#[test]
fn a_read_without_the_index_is_a_decode_failure() {
    let parsed = Some(vec![stored("a", 1, 1)]);
    let got = decode_get("a", &answer(200, None, "[{}]"), parsed);
    assert_eq!(got, Err(decode_fault(Operation::KvGet, "a", Fault::MissingIndex)));
    let got = decode_get("a", &answer(404, None, ""), None);
    assert_eq!(got, Err(decode_fault(Operation::KvGet, "a", Fault::MissingIndex)));
    let listed = decode_list("p/", &answer(200, None, ""), None);
    assert_eq!(listed, Err(decode_fault(Operation::KvList, "p/", Fault::MissingIndex)));
    for bad in ["", "abc", "-1", "1.5", "18446744073709551616", " 7"] {
        let got = decode_get("a", &answer(200, Some(bad), ""), None);
        assert_eq!(got, Err(decode_fault(Operation::KvGet, "a", Fault::MissingIndex)));
    }
}

#[test]
fn an_unexpected_status_is_a_decode_failure() {
    for status in [100u16, 199, 300, 301, 400, 403, 500, 503] {
        let got = decode_get("a", &answer(status, Some("1"), "[]"), Some(Vec::new()));
        assert_eq!(got, Err(decode_fault(Operation::KvGet, "a", Fault::UnexpectedStatus(status))));
        let flag = decode_flag(Operation::KvPut, "a", &answer(status, None, "true"));
        assert_eq!(flag, Err(decode_fault(Operation::KvPut, "a", Fault::UnexpectedStatus(status))));
    }
    // a write knows no "not found"
    let flag = decode_flag(Operation::KvDelete, "a", &answer(404, None, "true"));
    assert_eq!(flag, Err(decode_fault(Operation::KvDelete, "a", Fault::UnexpectedStatus(404))));
    let error = decode_fault(Operation::KvGet, "a", Fault::UnexpectedStatus(503));
    assert_eq!(error.message(), "kv get a: unexpected status 503");
    assert!(!error.is_retryable());
}

#[test]
fn the_index_header_is_found_in_any_case() {
    let mut response = answer(200, None, "");
    response.headers.push(("X-CONSUL-INDEX".to_string(), "77".to_string()));
    response.headers.push(("X-Consul-Index".to_string(), "78".to_string()));
    assert_eq!(response.index(), Some(77));
    assert_eq!(response.header("x-consul-index"), Some("77".to_string()));
    assert_eq!(response.header("content-type"), Some("application/json".to_string()));
    assert_eq!(response.header("x-consul-knownleader"), None);
    assert!(response.is_success());
    assert!(!response.is_not_found());
}

#[test]
fn a_write_answers_with_a_truth_value() {
    assert_eq!(decode_flag(Operation::KvPut, "a", &answer(200, None, "true")), Ok(true));
    assert_eq!(decode_flag(Operation::KvAcquire, "a", &answer(200, None, "false")), Ok(false));
    assert_eq!(decode_flag(Operation::KvPut, "a", &answer(200, None, "true\n")), Ok(true));
    assert_eq!(decode_flag(Operation::KvPut, "a", &answer(201, None, " \t\r\nfalse \n")), Ok(false));
    for bad in ["", " ", "True", "TRUE", "1", "\"true\"", "truex", "true false", "tru", "null", "[true]"] {
        assert_eq!(
            decode_flag(Operation::KvRelease, "lock/a", &answer(200, None, bad)),
            Err(decode_fault(Operation::KvRelease, "lock/a", Fault::MalformedBody))
        );
    }
    assert_eq!(answer(200, None, "true").flag(), Some(true));
    assert_eq!(answer(500, None, "false").flag(), Some(false));
    assert_eq!(answer(200, None, "\u{feff}true").flag(), None);
}

#[test]
fn a_read_of_any_items() {
    let read = decode_read(Operation::SessionList, "", &answer(200, Some("4"), "[1,2]"), Some(vec![1u8, 2]));
    assert_eq!(read, Ok(Indexed { value: vec![1u8, 2], index: 4 }));
    let read = decode_read::<u8>(Operation::SessionList, "", &answer(200, Some("4"), ""), None);
    assert_eq!(read, Ok(Indexed { value: Vec::new(), index: 4 }));
    // the parsed items are looked at only where there is a body to read
    let read = decode_read(Operation::SessionList, "", &answer(404, Some("4"), "x"), Some(vec![1u8]));
    assert_eq!(read, Ok(Indexed { value: Vec::new(), index: 4 }));
}

#[test]
fn errors_name_the_call() {
    let error = Error::HttpError {
        operation: Operation::KvList,
        subject: "config/".to_string(),
        detail: "connection refused".to_string(),
    };
    assert!(error.is_retryable());
    assert_eq!(error.operation(), Some(Operation::KvList));
    assert_eq!(error.subject(), Some("config/".to_string()));
    assert_eq!(
        error.message(),
        "kv list config/: An error occured in the HTTP client: connection refused"
    );
    assert_eq!(
        decode_fault(Operation::SessionInfo, "s1", Fault::MissingIndex).message(),
        "session info s1: the answer carries no index"
    );
    assert_eq!(Fault::MalformedBody.describe(), "the body is malformed");
    assert_eq!(Operation::SessionListForNode.name(), "session list for node");
}
