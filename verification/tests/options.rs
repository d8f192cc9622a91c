use consul_oxide::{Consistency, Params, QueryOptions};

fn query_pairs(options: &QueryOptions) -> Vec<(String, String)> {
    let mut query = Params::new();
    options.encode(&mut query);
    let mut pairs = query.pairs().clone();
    pairs.sort();
    pairs
}

fn pair(name: &str, value: &str) -> (String, String) {
    (name.to_string(), value.to_string())
}

#[test]
fn default_options_encode_to_nothing() {
    let options = QueryOptions::new();
    assert_eq!(options.consistency, Consistency::Default);
    assert!(query_pairs(&options).is_empty());
}

#[test]
fn consistency_is_a_bare_parameter() {
    let mut options = QueryOptions::new();
    options.consistency = Consistency::Consistent;
    assert_eq!(query_pairs(&options), vec![pair("consistent", "")]);
    options.consistency = Consistency::Stale;
    assert_eq!(query_pairs(&options), vec![pair("stale", "")]);
}

#[test]
fn a_wait_index_makes_the_read_block() {
    let options = QueryOptions::watching(42, Some(30000));
    assert_eq!(query_pairs(&options), vec![pair("index", "42"), pair("wait", "30000ms")]);
    let options = QueryOptions::watching(42, None);
    assert_eq!(query_pairs(&options), vec![pair("index", "42")]);
}

#[test]
fn index_zero_disables_blocking() {
    let options = QueryOptions::watching(0, Some(30000));
    assert!(query_pairs(&options).is_empty());
    let mut options = QueryOptions::new();
    options.wait_time = Some(5);
    assert!(query_pairs(&options).is_empty());
}

#[test]
fn scoping_is_encoded() {
    let mut options = QueryOptions::new();
    options.datacenter = Some("dc1".to_string());
    options.namespace = Some("team-a".to_string());
    options.consistency = Consistency::Stale;
    options.wait_index = Some(u64::MAX);
    assert_eq!(
        query_pairs(&options),
        vec![
            pair("dc", "dc1"),
            pair("index", "18446744073709551615"),
            pair("ns", "team-a"),
            pair("stale", ""),
        ]
    );
}

#[test]
fn encoding_keeps_what_the_query_held() {
    let mut query = Params::new();
    query.insert("recurse".to_string(), "".to_string());
    query.insert("dc".to_string(), "old".to_string());
    let mut options = QueryOptions::new();
    options.datacenter = Some("dc2".to_string());
    options.encode(&mut query);
    assert_eq!(query.get(&"recurse".to_string()), Some("".to_string()));
    assert_eq!(query.get(&"dc".to_string()), Some("dc2".to_string()));
    assert_eq!(query.pairs().len(), 2);
}

#[test]
fn params_hold_each_name_once() {
    let mut params = Params::new();
    assert_eq!(params.get(&"a".to_string()), None);
    params.insert("a".to_string(), "1".to_string());
    params.insert("b".to_string(), "2".to_string());
    params.insert("a".to_string(), "3".to_string());
    assert_eq!(params.get(&"a".to_string()), Some("3".to_string()));
    assert_eq!(params.get(&"b".to_string()), Some("2".to_string()));
    assert_eq!(params.get(&"c".to_string()), None);
    assert_eq!(params.pairs(), &vec![pair("a", "3"), pair("b", "2")]);
}
