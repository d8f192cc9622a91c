use consul_oxide::kv::{Indexed, KVPair};
use consul_oxide::session::SessionEntry;
use consul_oxide::store::Store;
use consul_oxide::watch::{Outcome, Watch, WatchState};
use consul_oxide::{Error, Operation};

fn write(key: &str, value: &str) -> KVPair {
    KVPair { key: key.to_string(), value: value.to_string(), ..KVPair::default() }
}

fn lock(key: &str, value: &str, session: &str) -> KVPair {
    KVPair { session: Some(session.to_string()), ..write(key, value) }
}

fn session_with(behavior: Option<&str>, node: Option<&str>) -> SessionEntry {
    SessionEntry {
        behavior: behavior.map(|b| b.to_string()),
        node: node.map(|n| n.to_string()),
        ..SessionEntry::default()
    }
}

fn new_session(store: &mut Store, behavior: Option<&str>) -> String {
    store.create_session(&session_with(behavior, None)).unwrap().id.unwrap()
}

#[test]
fn a_new_store_is_empty() {
    let store = Store::new();
    assert_eq!(store.index(), 0);
    assert!(!store.is_full());
    assert_eq!(store.get("a"), Indexed { value: None, index: 0 });
    assert_eq!(store.list(""), Indexed { value: Vec::new(), index: 0 });
    assert_eq!(store.list_sessions(), Indexed { value: Vec::new(), index: 0 });
}

#[test]
fn keys_never_written_are_absent() {
    let mut store = Store::new();
    store.put(&write("config/a", "1")).unwrap();
    let s = new_session(&mut store, None);
    store.acquire(&lock("lock/a", "", &s)).unwrap();
    store.delete("config/", true).unwrap();
    for key in ["config", "config/b", "lock", "lock/a/b", "", "LOCK/A"] {
        assert_eq!(store.get(key).value, None);
    }
}

#[test]
fn put_then_get_raises_the_modify_index() {
    let mut store = Store::new();
    store.put(&write("a", "1")).unwrap();
    store.put(&write("b", "1")).unwrap();
    store.put(&write("a", "2")).unwrap();
    let seen: Vec<u64> = store.list("").value.iter().map(|e| e.modifyindex.unwrap()).collect();
    assert_eq!(seen, vec![3, 2]);
    assert_eq!(store.put(&write("b", "3")), Ok(true));
    let got = store.get("b");
    let entry = got.value.unwrap();
    assert_eq!(entry.modifyindex, Some(4));
    assert_eq!(entry.createindex, Some(2));
    assert_eq!(entry.value, "3");
    assert_eq!(got.index, 4);
    for earlier in seen {
        assert!(entry.modifyindex.unwrap() > earlier);
    }
}

#[test]
fn put_creates_and_keeps_the_lock_holder() {
    let mut store = Store::new();
    let mut first = write("a", "1");
    first.flags = Some(42);
    assert_eq!(store.put(&first), Ok(true));
    assert_eq!(
        store.get("a").value,
        Some(KVPair {
            key: "a".to_string(),
            createindex: Some(1),
            modifyindex: Some(1),
            lockindex: Some(0),
            flags: Some(42),
            value: "1".to_string(),
            session: None,
        })
    );
    let s = new_session(&mut store, None);
    assert_eq!(store.acquire(&lock("a", "1", &s)), Ok(true));
    // a plain write by anyone leaves the lock where it is
    assert_eq!(store.put(&write("a", "2")), Ok(true));
    let entry = store.get("a").value.unwrap();
    assert_eq!(entry.session, Some(s));
    assert_eq!(entry.value, "2");
    assert_eq!(entry.flags, Some(0));
    assert_eq!(entry.lockindex, Some(1));
    assert_eq!(entry.createindex, Some(1));
    assert_eq!(entry.modifyindex, Some(4));
}

#[test]
fn acquire_without_a_session_fails_whatever_the_key_holds() {
    let mut store = Store::new();
    let missing =
        Error::MissingSession { operation: Operation::KvAcquire, subject: "lock/a".to_string() };
    assert_eq!(store.acquire(&write("lock/a", "")), Err(missing.clone()));
    store.put(&write("lock/a", "x")).unwrap();
    assert_eq!(store.acquire(&write("lock/a", "")), Err(missing.clone()));
    let s = new_session(&mut store, None);
    store.acquire(&lock("lock/a", "", &s)).unwrap();
    let before = store.get("lock/a");
    assert_eq!(store.acquire(&write("lock/a", "")), Err(missing));
    assert_eq!(store.get("lock/a"), before);
    assert_eq!(
        store.release(&write("lock/a", "")),
        Err(Error::MissingSession {
            operation: Operation::KvRelease,
            subject: "lock/a".to_string()
        })
    );
    assert_eq!(store.get("lock/a"), before);
}

#[test]
fn of_two_sessions_one_wins() {
    for first_wins in [true, false] {
        let mut store = Store::new();
        let a = new_session(&mut store, None);
        let b = new_session(&mut store, None);
        assert_ne!(a, b);
        let (winner, loser) = if first_wins { (&a, &b) } else { (&b, &a) };
        assert_eq!(store.acquire(&lock("lock/a", "w", winner)), Ok(true));
        let index = store.index();
        assert_eq!(store.acquire(&lock("lock/a", "l", loser)), Ok(false));
        assert_eq!(store.index(), index);
        let entry = store.get("lock/a").value.unwrap();
        assert_eq!(entry.session.as_ref(), Some(winner));
        assert_eq!(entry.value, "w");
        assert_eq!(entry.lockindex, Some(1));
    }
}

#[test]
fn acquire_on_an_entry_that_is_there() {
    let mut store = Store::new();
    store.put(&write("lock/a", "plain")).unwrap();
    let a = new_session(&mut store, None);
    assert_eq!(store.acquire(&lock("lock/a", "mine", &a)), Ok(true));
    let entry = store.get("lock/a").value.unwrap();
    assert_eq!(entry.createindex, Some(1));
    assert_eq!(entry.modifyindex, Some(3));
    assert_eq!(entry.lockindex, Some(1));
    // the holder may take the lock again; the count of holders stays
    assert_eq!(store.acquire(&lock("lock/a", "again", &a)), Ok(true));
    let entry = store.get("lock/a").value.unwrap();
    assert_eq!(entry.lockindex, Some(1));
    assert_eq!(entry.value, "again");
    assert_eq!(store.release(&lock("lock/a", "free", &a)), Ok(true));
    let b = new_session(&mut store, None);
    assert_eq!(store.acquire(&lock("lock/a", "b", &b)), Ok(true));
    assert_eq!(store.get("lock/a").value.unwrap().lockindex, Some(2));
}

#[test]
fn a_session_that_is_not_valid_takes_no_lock() {
    let mut store = Store::new();
    assert_eq!(store.acquire(&lock("lock/a", "", "no-such-session")), Ok(false));
    assert_eq!(store.get("lock/a").value, None);
    assert_eq!(store.index(), 0);
    let a = new_session(&mut store, None);
    store.destroy_session(&a).unwrap();
    assert_eq!(store.acquire(&lock("lock/a", "", &a)), Ok(false));
}

#[test]
fn release_by_another_session_changes_nothing() {
    let mut store = Store::new();
    let a = new_session(&mut store, None);
    let b = new_session(&mut store, None);
    store.acquire(&lock("lock/a", "a", &a)).unwrap();
    let before = store.get("lock/a");
    let index = store.index();
    assert_eq!(store.release(&lock("lock/a", "b", &b)), Ok(false));
    assert_eq!(store.release(&lock("lock/a", "b", "unknown")), Ok(false));
    assert_eq!(store.release(&lock("lock/none", "b", &b)), Ok(false));
    assert_eq!(store.get("lock/a"), before);
    assert_eq!(before.value.unwrap().session, Some(a.clone()));
    assert_eq!(store.index(), index);
    // an unlocked entry has no holder to give the lock back
    store.put(&write("free", "")).unwrap();
    assert_eq!(store.release(&lock("free", "", &a)), Ok(false));
    assert_eq!(store.release(&lock("lock/a", "done", &a)), Ok(true));
    let entry = store.get("lock/a").value.unwrap();
    assert_eq!(entry.session, None);
    assert_eq!(entry.value, "done");
    assert_eq!(store.release(&lock("lock/a", "", &a)), Ok(false));
}

#[test]
fn a_wait_times_out_without_a_write_and_changes_with_one() {
    let mut store = Store::new();
    store.put(&write("other", "")).unwrap();
    store.put(&write("watched", "1")).unwrap();
    store.put(&write("other", "2")).unwrap();
    let current = store.get("watched").value.unwrap().modifyindex.unwrap();
    assert_eq!(current, 2);
    let mut watch = Watch::new(current);
    let options = watch.start(Some(100)).unwrap();
    assert_eq!(options.wait_index, Some(current));
    // nothing is written to the key before the time is up
    store.put(&write("other", "3")).unwrap();
    assert_eq!(watch.complete(store_read(&store, "watched")), Some(Outcome::TimedOut));
    assert_eq!(watch.current_state(), WatchState::TimedOut);
    watch.start(Some(100)).unwrap();
    store.put(&write("watched", "2")).unwrap();
    let outcome = watch.complete(store_read(&store, "watched")).unwrap();
    match outcome {
        Outcome::Changed { value, index } => {
            assert_eq!(index, 5);
            assert_eq!(value.unwrap().value, "2");
        }
        _ => panic!("the wait did not end as changed"),
    }
    assert_eq!(watch.last_index(), 5);
    assert_eq!(watch.current_state(), WatchState::Changed);
}

fn store_read(store: &Store, key: &str) -> Result<Indexed<Option<KVPair>>, Error> {
    Ok(store.get(key))
}

#[test]
fn destroying_an_unknown_session_is_a_success() {
    let mut store = Store::new();
    assert_eq!(store.destroy_session("never-created"), Ok(true));
    assert_eq!(store.index(), 0);
    let a = new_session(&mut store, None);
    assert_eq!(store.destroy_session(&a), Ok(true));
    let index = store.index();
    assert_eq!(store.destroy_session(&a), Ok(true));
    assert_eq!(store.destroy_session(&a), Ok(true));
    assert_eq!(store.index(), index);
    assert_eq!(store.session_info(&a).value, None);
    assert_eq!(store.renew_session(&a), None);
}

#[test]
fn a_released_lock_outlives_its_session() {
    let mut store = Store::new();
    let made = store.create_session(&session_with(Some("release"), None)).unwrap();
    let s = made.id.clone().unwrap();
    assert_eq!(made.behavior, Some("release".to_string()));
    assert_eq!(store.acquire(&lock("lock/a", "held", &s)), Ok(true));
    assert_eq!(store.get("lock/a").value.unwrap().session, Some(s.clone()));
    assert_eq!(store.destroy_session(&s), Ok(true));
    let entry = store.get("lock/a").value.unwrap();
    assert_eq!(entry.session, None);
    assert_eq!(entry.key, "lock/a");
    assert_eq!(entry.value, "held");
}

#[test]
fn a_deleting_session_takes_its_entries_with_it() {
    let mut store = Store::new();
    store.put(&write("plain", "")).unwrap();
    let s = new_session(&mut store, Some("delete"));
    let t = new_session(&mut store, None);
    store.acquire(&lock("lock/a", "", &s)).unwrap();
    store.acquire(&lock("lock/b", "", &s)).unwrap();
    store.acquire(&lock("lock/c", "", &t)).unwrap();
    assert_eq!(store.destroy_session(&s), Ok(true));
    let keys: Vec<String> = store.list("").value.into_iter().map(|e| e.key).collect();
    assert_eq!(keys, vec!["plain".to_string(), "lock/c".to_string()]);
    assert_eq!(store.get("lock/c").value.unwrap().session, Some(t));
}

#[test]
fn sessions_without_a_behavior_release() {
    let mut store = Store::new();
    let s = new_session(&mut store, None);
    store.acquire(&lock("lock/a", "", &s)).unwrap();
    store.acquire(&lock("lock/b", "", &s)).unwrap();
    store.put(&write("plain", "")).unwrap();
    let before = store.get("plain");
    store.destroy_session(&s).unwrap();
    assert_eq!(store.get("lock/a").value.unwrap().session, None);
    assert_eq!(store.get("lock/b").value.unwrap().session, None);
    assert_eq!(store.get("lock/a").value.unwrap().modifyindex, Some(store.index()));
    assert_eq!(store.get("plain"), before);
}

#[test]
fn session_identifiers_are_not_used_again() {
    let mut store = Store::new();
    let mut seen = Vec::new();
    for round in 0..5 {
        let id = new_session(&mut store, None);
        assert!(!seen.contains(&id));
        if round % 2 == 0 {
            store.destroy_session(&id).unwrap();
        }
        seen.push(id);
    }
    assert_eq!(seen[0], "1");
    assert_eq!(store.list_sessions().value.len(), 2);
}

#[test]
fn creation_of_a_session() {
    let mut store = Store::new();
    let error = store.create_session(&session_with(Some("keep"), None)).unwrap_err();
    assert_eq!(
        error,
        Error::InvalidBehavior { operation: Operation::SessionCreate, subject: String::new() }
    );
    assert_eq!(store.index(), 0);
    let mut wanted = session_with(Some("delete"), Some("node-1"));
    wanted.name = Some("web".to_string());
    wanted.ttl = Some("15s".to_string());
    wanted.lockdelay = Some(15);
    wanted.checks = Some(vec!["serfHealth".to_string()]);
    let made = store.create_session(&wanted).unwrap();
    let mut expected = wanted.clone();
    expected.id = Some("1".to_string());
    expected.createindex = Some(1);
    assert_eq!(made, expected);
    assert_eq!(store.session_info("1"), Indexed { value: Some(expected.clone()), index: 1 });
    assert_eq!(store.renew_session("1"), Some(expected.clone()));
    store.create_session(&session_with(None, Some("node-2"))).unwrap();
    store.create_session(&session_with(None, None)).unwrap();
    assert_eq!(store.list_sessions().value.len(), 3);
    assert_eq!(store.list_sessions_for_node("node-1"), Indexed { value: vec![expected], index: 3 });
    assert_eq!(store.list_sessions_for_node("node-3").value, Vec::new());
}

#[test]
fn list_is_by_prefix_in_the_order_of_creation() {
    let mut store = Store::new();
    for key in ["config/b", "other", "config/a", "config", "config/a/deep"] {
        store.put(&write(key, key)).unwrap();
    }
    let keys: Vec<String> = store.list("config/").value.into_iter().map(|e| e.key).collect();
    assert_eq!(keys, vec!["config/b", "config/a", "config/a/deep"]);
    assert_eq!(store.list("config/").index, 5);
    assert_eq!(store.list("none/").value, Vec::new());
    assert_eq!(store.list("").value.len(), 5);
}

#[test]
fn the_store_deletes_a_key_or_a_subtree() {
    let mut store = Store::new();
    for key in ["config/b", "other", "config/a", "config", "config/a/deep"] {
        store.put(&write(key, key)).unwrap();
    }
    assert_eq!(store.delete("config/a", false), Ok(true));
    assert_eq!(store.get("config/a"), Indexed { value: None, index: 6 });
    assert!(store.get("config/a/deep").value.is_some());
    // to delete what is not there is a success as well
    assert_eq!(store.delete("config/a", false), Ok(true));
    assert_eq!(store.delete("nothing/", true), Ok(true));
    assert_eq!(store.delete("config/", true), Ok(true));
    let keys: Vec<String> = store.list("").value.into_iter().map(|e| e.key).collect();
    assert_eq!(keys, vec!["other", "config"]);
    assert_eq!(store.index(), 9);
}

#[test]
fn a_store_out_of_indices_refuses_writes() {
    let mut store = Store::emptied_at(u64::MAX - 2);
    let s = new_session(&mut store, None);
    assert_eq!(s, "18446744073709551614");
    assert_eq!(store.put(&write("a", "1")), Ok(true));
    assert!(store.is_full());
    assert_eq!(store.get("a").value.unwrap().modifyindex, Some(u64::MAX));
    let refused = |operation: Operation, subject: &str| Error::HttpError {
        operation,
        subject: subject.to_string(),
        detail: "the store has run out of indices".to_string(),
    };
    assert_eq!(store.put(&write("a", "2")), Err(refused(Operation::KvPut, "a")));
    assert_eq!(store.delete("a", false), Err(refused(Operation::KvDelete, "a")));
    assert_eq!(store.acquire(&lock("a", "", &s)), Err(refused(Operation::KvAcquire, "a")));
    assert_eq!(store.release(&lock("a", "", &s)), Err(refused(Operation::KvRelease, "a")));
    assert_eq!(
        store.create_session(&session_with(None, None)),
        Err(refused(Operation::SessionCreate, ""))
    );
    assert_eq!(store.destroy_session(&s), Err(refused(Operation::SessionDestroy, &s)));
    // what needs no write still works, and a caller error stays one
    assert_eq!(store.destroy_session("unknown"), Ok(true));
    assert_eq!(store.get("a").value.unwrap().value, "1");
    assert_eq!(
        store.acquire(&write("a", "")),
        Err(Error::MissingSession { operation: Operation::KvAcquire, subject: "a".to_string() })
    );
}
