use consul_oxide::kv::{decode_flag, Indexed};
use consul_oxide::session::{
    decode_created, decode_info, decode_renewed, decode_sessions, parse_behavior, Behavior,
    Session, SessionEntry, SessionID,
};
use consul_oxide::{Client, Config, Error, Fault, Method, Operation, QueryOptions, Response};

fn session_client() -> Client {
    Client::new(Config::new("http://127.0.0.1:8500".to_string(), "secret".to_string())).unwrap()
}

fn reply(status: u16, index: Option<&str>, body: &str) -> Response {
    let mut headers = Vec::new();
    if let Some(index) = index {
        headers.push(("X-Consul-Index".to_string(), index.to_string()));
    }
    Response { status, headers, body: body.as_bytes().to_vec() }
}

fn wanted(name: &str, behavior: Option<&str>) -> SessionEntry {
    SessionEntry {
        name: Some(name.to_string()),
        behavior: behavior.map(|b| b.to_string()),
        ttl: Some("30s".to_string()),
        checks: Some(vec!["serfHealth".to_string()]),
        ..SessionEntry::default()
    }
}

fn session_fault(operation: Operation, subject: &str, fault: Fault) -> Error {
    Error::Decode { operation, subject: subject.to_string(), fault }
}

#[test]
fn behaviors_are_release_and_delete() {
    assert_eq!(parse_behavior("release"), Some(Behavior::Release));
    assert_eq!(parse_behavior("delete"), Some(Behavior::Delete));
    assert_eq!(parse_behavior("Release"), None);
    assert_eq!(parse_behavior(""), None);
    assert_eq!(parse_behavior("deletes"), None);
    assert_eq!(Behavior::Release.name(), "release");
    assert_eq!(Behavior::Delete.name(), "delete");
    assert_eq!(wanted("a", None).effective_behavior(), Behavior::Release);
    assert_eq!(wanted("a", Some("delete")).effective_behavior(), Behavior::Delete);
    assert!(wanted("a", Some("release")).is_well_formed());
    assert!(!wanted("a", Some("keep")).is_well_formed());
}

#[test]
fn creation_with_an_unknown_behavior_is_refused() {
    let client = session_client();
    let error = client.create_session(&wanted("web", Some("keep")), None).unwrap_err();
    assert_eq!(
        error,
        Error::InvalidBehavior { operation: Operation::SessionCreate, subject: "web".to_string() }
    );
    assert_eq!(
        error.message(),
        "session create web: the behavior is neither release nor delete"
    );
    let mut nameless = SessionEntry::default();
    nameless.behavior = Some("".to_string());
    let error = client.create_session(&nameless, None).unwrap_err();
    assert_eq!(error.subject(), Some(String::new()));
}

#[test]
fn session_requests() {
    let client = session_client();
    let request = client.create_session(&wanted("web", Some("release")), None).unwrap();
    assert_eq!((request.method, request.path.as_str()), (Method::Put, "/v1/session/create"));
    assert_eq!(request.body, None);
    let request = client.create_session(&SessionEntry::default(), None).unwrap();
    assert_eq!(request.path, "/v1/session/create");
    let request = client.destroy_session("s1", None);
    assert_eq!((request.method, request.path.as_str()), (Method::Put, "/v1/session/destroy/s1"));
    let request = client.renew_session("s1", None);
    assert_eq!((request.method, request.path.as_str()), (Method::Put, "/v1/session/renew/s1"));
    let request = client.get_session_info("s1", Some(QueryOptions::watching(3, None)));
    assert_eq!((request.method, request.path.as_str()), (Method::Get, "/v1/session/info/s1"));
    assert_eq!(request.query.get(&"index".to_string()), Some("3".to_string()));
    let request = client.list_sessions(None);
    assert_eq!((request.method, request.path.as_str()), (Method::Get, "/v1/session/list"));
    let request = client.list_session_for_node("node-1", None);
    assert_eq!((request.method, request.path.as_str()), (Method::Get, "/v1/session/node/node-1"));
    assert_eq!(request.headers.get(&"X-Consul-Token".to_string()), Some("secret".to_string()));
}

#[test]
fn a_created_session_gets_the_identifier_of_the_store() {
    let given = SessionID { id: "adf4238a".to_string() };
    let made = decode_created(wanted("web", Some("delete")), &reply(200, None, "{}"), Some(given));
    let mut expected = wanted("web", Some("delete"));
    expected.id = Some("adf4238a".to_string());
    assert_eq!(made, Ok(expected));
    let made = decode_created(wanted("web", None), &reply(200, None, "{}"), Some(SessionID::default()));
    assert_eq!(made, Err(session_fault(Operation::SessionCreate, "web", Fault::MalformedBody)));
    let made = decode_created(wanted("web", None), &reply(200, None, "x"), None);
    assert_eq!(made, Err(session_fault(Operation::SessionCreate, "web", Fault::MalformedBody)));
    let made = decode_created(wanted("web", None), &reply(500, None, "x"), Some(SessionID { id: "a".to_string() }));
    assert_eq!(
        made,
        Err(session_fault(Operation::SessionCreate, "web", Fault::UnexpectedStatus(500)))
    );
}

#[test]
fn destroying_what_is_gone_is_a_success() {
    // the store answers `true` for an identifier that it does not know
    let done = decode_flag(Operation::SessionDestroy, "no-such-session", &reply(200, None, "true"));
    assert_eq!(done, Ok(true));
}

#[test]
fn renewal_of_an_expired_session_is_invalid_not_an_error() {
    assert_eq!(decode_renewed("s1", &reply(404, None, "Session id 's1' not found"), None), Ok(None));
    assert_eq!(decode_renewed("s1", &reply(200, None, "[]"), Some(Vec::new())), Ok(None));
    let mut live = wanted("web", Some("release"));
    live.id = Some("s1".to_string());
    let renewed = decode_renewed("s1", &reply(200, None, "[{}]"), Some(vec![live.clone()]));
    assert_eq!(renewed, Ok(Some(live)));
    assert_eq!(
        decode_renewed("s1", &reply(200, None, "oops"), None),
        Err(session_fault(Operation::SessionRenew, "s1", Fault::MalformedBody))
    );
    assert_eq!(
        decode_renewed("s1", &reply(500, None, ""), None),
        Err(session_fault(Operation::SessionRenew, "s1", Fault::UnexpectedStatus(500)))
    );
    let odd = wanted("web", Some("keep"));
    assert_eq!(
        decode_renewed("s1", &reply(200, None, "[{}]"), Some(vec![odd])),
        Err(session_fault(Operation::SessionRenew, "s1", Fault::MalformedBody))
    );
}

#[test]
fn info_of_a_session() {
    let mut live = wanted("web", None);
    live.id = Some("s1".to_string());
    let read = decode_info("s1", &reply(200, Some("8"), "[{}]"), Some(vec![live.clone()]));
    assert_eq!(read, Ok(Indexed { value: Some(live), index: 8 }));
    let read = decode_info("s1", &reply(200, Some("8"), "[]"), Some(Vec::new()));
    assert_eq!(read, Ok(Indexed { value: None, index: 8 }));
    let read = decode_info("s1", &reply(404, Some("8"), ""), None);
    assert_eq!(read, Ok(Indexed { value: None, index: 8 }));
    let read = decode_info("s1", &reply(200, None, "[]"), Some(Vec::new()));
    assert_eq!(read, Err(session_fault(Operation::SessionInfo, "s1", Fault::MissingIndex)));
}

#[test]
fn lists_of_sessions() {
    let a = wanted("a", Some("release"));
    let b = wanted("b", Some("delete"));
    let read = decode_sessions(None, &reply(200, Some("5"), "[{},{}]"), Some(vec![a.clone(), b.clone()]));
    assert_eq!(read, Ok(Indexed { value: vec![a.clone(), b.clone()], index: 5 }));
    let read = decode_sessions(Some("node-1"), &reply(200, Some("5"), ""), None);
    assert_eq!(read, Ok(Indexed { value: Vec::new(), index: 5 }));
    let read = decode_sessions(Some("node-1"), &reply(200, Some("5"), "x"), None);
    assert_eq!(
        read,
        Err(session_fault(Operation::SessionListForNode, "node-1", Fault::MalformedBody))
    );
    let read = decode_sessions(None, &reply(200, Some("5"), "[{},{}]"), Some(vec![a, wanted("c", Some("?"))]));
    assert_eq!(read, Err(session_fault(Operation::SessionList, "", Fault::MalformedBody)));
}

#[test]
fn sessions_copy_and_default() {
    let session = wanted("web", Some("release"));
    assert_eq!(session.clone(), session);
    let id = SessionID { id: "s1".to_string() };
    assert_eq!(id.clone(), id);
    assert_eq!(SessionID::default().id, "");
    let empty = SessionEntry::default();
    assert_eq!(empty.id, None);
    assert_eq!(empty.behavior, None);
    assert_eq!(empty.checks, None);
    assert_eq!(empty.ttl, None);
    assert_eq!(empty.lockdelay, None);
}
