use consul_oxide::acl::{Acl, AclPolicies, AclTokens, CreatePolicy, ReplicationKind};
use consul_oxide::agent::checks::{AgentChecks, RegisterCheckPayload};
use consul_oxide::agent::service::AgentServices;
use consul_oxide::connect::ca::ConnectCA;
use consul_oxide::health::State;
use consul_oxide::{Client, Config, Method, QueryOptions, Request};

fn endpoint_client() -> Client {
    Client::new(Config::new("http://127.0.0.1:8500".to_string(), "secret".to_string())).unwrap()
}

fn line(request: &Request) -> (Method, &str) {
    assert!(request.body.is_none());
    assert_eq!(request.headers.get(&"X-Consul-Token".to_string()), Some("secret".to_string()));
    (request.method, request.path.as_str())
}

#[test]
fn states_have_their_names() {
    assert_eq!(State::Any.to_string(), "any");
    assert_eq!(State::Passing.to_string(), "passing");
    assert_eq!(State::Warning.to_string(), "warning");
    assert_eq!(State::Critical.to_string(), "critical");
}

#[test]
fn replication_kinds_are_read_from_their_names() {
    assert_eq!(ReplicationKind::deserialize("policies"), Ok(ReplicationKind::Policies));
    assert_eq!(ReplicationKind::deserialize("tokens"), Ok(ReplicationKind::Tokens));
    for other in ["", "Policies", "token", "tokens ", "legacy"] {
        assert_eq!(
            ReplicationKind::deserialize(other),
            Err("unknown replication type".to_string())
        );
    }
}

#[test]
fn health_requests() {
    let client = endpoint_client();
    let health = &client.health;
    assert_eq!(line(&health.list_checks_for_node("n1")), (Method::Get, "/v1//health/node/n1"));
    assert_eq!(line(&health.list_checks_for_service("web")), (Method::Get, "/v1//health/checks/web"));
    assert_eq!(line(&health.list_service_instances("web")), (Method::Get, "/v1//health/service/web"));
    assert_eq!(
        line(&health.list_checks_in_state(State::Critical)),
        (Method::Get, "/v1//health/state/critical")
    );
    assert_eq!(
        line(&health.list_checks_in_state(State::Any)),
        (Method::Get, "/v1//health/state/any")
    );
    assert!(health.list_checks_for_node("n1").query.pairs().is_empty());
}

#[test]
fn catalog_requests() {
    let client = endpoint_client();
    let catalog = &client.catalog;
    assert_eq!(line(&catalog.list_datacenters()), (Method::Get, "/v1//catalog/datacenters"));
    assert_eq!(line(&catalog.list_nodes()), (Method::Get, "/v1//catalog/nodes"));
    assert_eq!(line(&catalog.list_services()), (Method::Get, "/v1//catalog/services"));
    assert_eq!(line(&catalog.list_nodes_for_service("web")), (Method::Get, "/v1//catalog/service/web"));
    assert_eq!(
        line(&catalog.list_nodes_for_connect_capable_service("web")),
        (Method::Get, "/v1//catalog/connect/web")
    );
    assert_eq!(line(&catalog.get_node_service_map("n1")), (Method::Get, "/v1//catalog/node/n1"));
    assert_eq!(line(&catalog.list_node("n1")), (Method::Get, "/v1//catalog/node-services/:node_name/n1"));
}

#[test]
fn check_requests() {
    let client = endpoint_client();
    let check = RegisterCheckPayload {
        name: "test_check".to_string(),
        interval: Some("10m".to_string()),
        timeout: "10s".to_string(),
        http: Some("http://example.com".to_string()),
        ..Default::default()
    };
    assert_eq!(check.name, "test_check");
    assert_eq!(line(&client.register_check()), (Method::Put, "/v1/agent/check/register"));
    assert_eq!(line(&client.list_checks()), (Method::Get, "/v1/agent/checks"));
    assert_eq!(
        line(&client.deregister_check("test_check")),
        (Method::Put, "/v1/agent/check/deregister/test_check")
    );
}

#[test]
fn policy_requests() {
    let client = endpoint_client();
    let policy = CreatePolicy {
        name: "test".to_string(),
        description: "test".to_string(),
        rules: "test".to_string(),
        datacenters: vec!["dc1".to_string()],
    };
    assert_eq!(policy.datacenters, vec!["dc1".to_string()]);
    assert_eq!(line(&client.list_policies()), (Method::Get, "/v1/acl/policies"));
    assert_eq!(line(&client.create_policy()), (Method::Put, "/v1/acl/policy"));
    assert_eq!(line(&client.read_policy("7f3a")), (Method::Get, "/v1/acl/policy/7f3a"));
    assert_eq!(line(&client.read_policy_by_name("test")), (Method::Get, "/v1/acl/policy/name/test"));
    assert_eq!(line(&client.update_policy()), (Method::Put, "/v1/acl/policy"));
    assert_eq!(line(&client.delete_policy("7f3a")), (Method::Delete, "/v1/acl/policy/7f3a"));
}

#[test]
fn acl_requests() {
    let client = endpoint_client();
    assert_eq!(line(&client.bootstrap_acls()), (Method::Put, "/v1/acl/bootstrap"));
    assert_eq!(line(&client.check_acl_replication()), (Method::Get, "/v1/acl/replication"));
    assert_eq!(line(&client.login_to_auth_method()), (Method::Post, "/v1/acl/login"));
    assert_eq!(line(&client.logout_from_auth_method()), (Method::Post, "/v1/acl/logout"));
    assert_eq!(line(&client.create_token()), (Method::Put, "/v1/acl/token"));
    assert_eq!(line(&client.read_token("t1")), (Method::Get, "/v1/acl/token/t1"));
    assert_eq!(line(&client.read_self_token()), (Method::Get, "/v1/acl/token/self"));
    assert_eq!(line(&client.update_token("t1")), (Method::Put, "/v1/acl/token/t1"));
    assert_eq!(line(&client.clone_token("t1")), (Method::Put, "/v1/acl/token/t1"));
    assert_eq!(line(&client.delete_token("t1")), (Method::Delete, "/v1/acl/token/t1"));
    assert_eq!(line(&client.list_tokens()), (Method::Get, "/v1/acl/tokens"));
}

#[test]
fn agent_service_requests() {
    let client = endpoint_client();
    assert_eq!(line(&client.list_local_services()), (Method::Get, "/v1/agent/services"));
    assert_eq!(
        line(&client.get_local_service_config("web-1")),
        (Method::Get, "/v1/agent/services/web-1")
    );
    assert_eq!(
        line(&client.get_local_service_health("web")),
        (Method::Get, "/v1/agent/health/service/web")
    );
    assert_eq!(
        line(&client.get_local_service_health_by_id("web-1")),
        (Method::Get, "/v1/agent/health/service/id/web-1")
    );
    assert_eq!(line(&client.register_service()), (Method::Put, "/v1/agent/service/register"));
}

#[test]
fn certificate_authority_requests() {
    let client = endpoint_client();
    assert_eq!(line(&client.list_ca_root_certs(None)), (Method::Get, "/v1/connect/ca/roots"));
    assert_eq!(line(&client.get_ca_config(None)), (Method::Get, "/v1/connect/ca/configuration"));
    assert_eq!(line(&client.update_ca_config(None)), (Method::Put, "/v1/connect/ca/configuration"));
    let mut options = QueryOptions::new();
    options.datacenter = Some("dc2".to_string());
    let request = client.list_ca_root_certs(Some(options));
    assert_eq!(request.query.get(&"dc".to_string()), Some("dc2".to_string()));
}
