//! The services of the local agent. They are what the agent itself
//! registered, not what the catalog knows of the whole datacenter.

use crate::common::TaggedAddress;
use crate::health::Weights;
use std::collections::HashMap;
use crate::http::{Method, Request};
use crate::text::join;
use crate::{Client, Config};
use vstd::prelude::*;
use vstd::string::*;

verus! {

/// A service that is registered with the local agent.
#[derive(Debug)]
pub struct Service {
    /// The kind of the service: empty for an ordinary one, else the kind of
    /// proxy or gateway.
    pub kind: String,
    /// The identifier of the service.
    pub id: String,
    /// Labels of the service.
    pub tags: Option<Vec<String>>,
    /// Metadata of the service.
    pub meta: Option<HashMap<String, String>>,
    /// The address of the service.
    pub address: String,
    /// More addresses of the service, each with its port.
    pub tagged_addresses: HashMap<String, TaggedAddress>,
    /// The port of the service.
    pub port: u16,
    /// Whether the catalog may override the tags.
    pub enable_tag_override: Option<bool>,
    /// The weights of the service in answers to DNS queries.
    pub weights: Weights,
}

/// The full definition of one service of the local agent: a [`Service`] with
/// the hash of its content.
#[derive(Debug)]
pub struct ServiceConfig {
    /// The kind of the service.
    pub kind: String,
    /// The identifier of the service.
    pub id: String,
    /// The name of the service.
    pub service: String,
    /// Labels of the service.
    pub tags: Option<Vec<String>>,
    /// Metadata of the service.
    pub meta: Option<HashMap<String, String>>,
    /// The address of the service.
    pub address: String,
    /// More addresses of the service, each with its port.
    pub tagged_addresses: HashMap<String, TaggedAddress>,
    /// The port of the service.
    pub port: u16,
    /// Whether the catalog may override the tags.
    pub enable_tag_override: Option<bool>,
    /// The weights of the service in answers to DNS queries.
    pub weights: Weights,
    /// The hash of the definition, for blocking on its change.
    pub content_hash: String,
}

/// What a service to be registered is made of.
#[derive(Default, Debug)]
pub struct ServiceRegistrationPayload {
    /// The name of the service.
    pub name: String,
    /// The identifier, unique on the agent; the name where absent.
    pub id: Option<String>,
    /// Labels of the service.
    pub tags: Option<Vec<String>>,
    /// The port of the service.
    pub port: u16,
    /// The address of the service.
    pub address: Option<String>,
    /// Whether the catalog may override the tags.
    pub enable_tag_override: bool,
}

/// The requests for the services of the local agent.
pub trait AgentServices {
    /// The configuration that the requests are built from.
    spec fn config(&self) -> Config;

    /// The request that reads the services of the agent.
    fn list_local_services(&self) -> (request: Request)
        ensures
            request.consists_of(
                Method::Get,
                "/v1/agent/services"@,
                Map::empty(),
                self.config().token@,
                None,
            ),
    ;

    /// The request that reads the full definition of the service `id`.
    fn get_local_service_config(&self, id: &str) -> (request: Request)
        ensures
            request.consists_of(
                Method::Get,
                "/v1/agent/services/"@ + id@,
                Map::empty(),
                self.config().token@,
                None,
            ),
    ;

    /// The request that reads the health of the services named `name`.
    fn get_local_service_health(&self, name: &str) -> (request: Request)
        ensures
            request.consists_of(
                Method::Get,
                "/v1/agent/health/service/"@ + name@,
                Map::empty(),
                self.config().token@,
                None,
            ),
    ;

    /// The request that reads the health of the service `id`.
    fn get_local_service_health_by_id(&self, id: &str) -> (request: Request)
        ensures
            request.consists_of(
                Method::Get,
                "/v1/agent/health/service/id/"@ + id@,
                Map::empty(),
                self.config().token@,
                None,
            ),
    ;

    /// The request that registers a service. The description of the service
    /// is the body, which the caller encodes.
    fn register_service(&self) -> (request: Request)
        ensures
            request.consists_of(
                Method::Put,
                "/v1/agent/service/register"@,
                Map::empty(),
                self.config().token@,
                None,
            ),
    ;
}

impl AgentServices for Client {
    open spec fn config(&self) -> Config {
        Client::config(self)
    }

    fn list_local_services(&self) -> (request: Request) {
        self.request(Method::Get, String::from_str("/v1/agent/services"), &None)
    }

    fn get_local_service_config(&self, id: &str) -> (request: Request) {
        self.request(Method::Get, join("/v1/agent/services/", id), &None)
    }

    fn get_local_service_health(&self, name: &str) -> (request: Request) {
        self.request(Method::Get, join("/v1/agent/health/service/", name), &None)
    }

    fn get_local_service_health_by_id(&self, id: &str) -> (request: Request) {
        self.request(Method::Get, join("/v1/agent/health/service/id/", id), &None)
    }

    fn register_service(&self) -> (request: Request) {
        self.request(Method::Put, String::from_str("/v1/agent/service/register"), &None)
    }
}

} // verus!
