//! The health endpoints: checks and the instances of a service with their
//! checks.

use crate::common::{Node, TaggedAddress};
use crate::http::{Method, Request};
use crate::text::join;
use crate::{plain_request, Config};
use std::collections::HashMap;
use vstd::prelude::*;
use vstd::string::*;

verus! {

/// Builds the requests of the health endpoints. A path is `/v1/` followed by
/// the path of the endpoint, which itself begins with a slash.
#[derive(Debug)]
pub struct Health {
    config: Config,
}

/// The state that a health check is in, as a filter.
#[derive(Clone, Copy, Debug, PartialEq, Eq, Structural)]
pub enum State {
    /// Any state.
    Any,
    /// The check passes.
    Passing,
    /// The check warns.
    Warning,
    /// The check fails.
    Critical,
}

impl State {
    /// The name of the state in a path.
    pub open spec fn spec_to_string(self) -> Seq<char> {
        match self {
            State::Any => "any"@,
            State::Passing => "passing"@,
            State::Warning => "warning"@,
            State::Critical => "critical"@,
        }
    }

    /// The name of the state in a path.
    pub fn to_string(&self) -> (name: String)
        ensures
            name@ == self.spec_to_string(),
    {
        match self {
            State::Any => String::from_str("any"),
            State::Passing => String::from_str("passing"),
            State::Warning => String::from_str("warning"),
            State::Critical => String::from_str("critical"),
        }
    }
}

impl Health {
    /// The configuration that the requests are built from.
    pub closed spec fn config(&self) -> Config {
        self.config
    }

    /// A builder of requests to the agent that `config` names.
    pub fn new(config: Config) -> (health: Self)
        ensures
            health.config() == config,
    {
        Health { config }
    }

    fn get(&self, head: &str, tail: &str) -> (request: Request)
        ensures
            request.consists_of(Method::Get, head@ + tail@, Map::empty(), self.config().token@, None),
    {
        plain_request(&self.config.token, Method::Get, join(head, tail), &None)
    }

    /// The request that reads the checks of the node `node_name`.
    pub fn list_checks_for_node(&self, node_name: &str) -> (request: Request)
        ensures
            request.consists_of(
                Method::Get,
                "/v1//health/node/"@ + node_name@,
                Map::empty(),
                self.config().token@,
                None,
            ),
    {
        self.get("/v1//health/node/", node_name)
    }

    /// The request that reads the checks of the service `service_name`.
    pub fn list_checks_for_service(&self, service_name: &str) -> (request: Request)
        ensures
            request.consists_of(
                Method::Get,
                "/v1//health/checks/"@ + service_name@,
                Map::empty(),
                self.config().token@,
                None,
            ),
    {
        self.get("/v1//health/checks/", service_name)
    }

    /// The request that reads the instances of the service `service_name`,
    /// each with its node and its checks.
    pub fn list_service_instances(&self, service_name: &str) -> (request: Request)
        ensures
            request.consists_of(
                Method::Get,
                "/v1//health/service/"@ + service_name@,
                Map::empty(),
                self.config().token@,
                None,
            ),
    {
        self.get("/v1//health/service/", service_name)
    }

    /// The request that reads the checks that are in `state`.
    pub fn list_checks_in_state(&self, state: State) -> (request: Request)
        ensures
            request.consists_of(
                Method::Get,
                "/v1//health/state/"@ + state.spec_to_string(),
                Map::empty(),
                self.config().token@,
                None,
            ),
    {
        let name = state.to_string();
        self.get("/v1//health/state/", name.as_str())
    }
}

/// A health check.
#[derive(Default, Debug, Clone, PartialEq)]
pub struct Check {
    pub id: String,
    pub node: String,
    pub check_id: String,
    pub name: String,
    pub status: String,
    pub notes: String,
    pub output: String,
    pub service_id: String,
    pub service_name: String,
    pub service_tags: Vec<String>,
}

/// One instance of a service.
#[derive(Default, Debug, Clone, PartialEq)]
pub struct ServiceInstance {
    /// The node that the instance runs on.
    pub node: Node,
    /// The service as it is registered.
    pub service: Service,
    /// The checks of the instance.
    pub checks: Vec<Check>,
}

/// A service as the health endpoints report it.
#[derive(Default, Debug, Clone, PartialEq)]
pub struct Service {
    pub id: String,
    pub service: String,
    pub tags: Vec<String>,
    pub address: String,
    pub tagged_addresses: HashMap<String, TaggedAddress>,
    pub meta: HashMap<String, String>,
    pub port: u16,
    pub weights: Weights,
}

/// How often an instance is chosen, by the state of its checks.
#[derive(Default, Debug, Clone, PartialEq)]
pub struct Weights {
    pub passing: i64,
    pub warning: i64,
}

} // verus!
