//! The catalog endpoints: datacenters, nodes and the services registered on
//! them.

use crate::common::{Node, TaggedAddress};
use crate::http::{Method, Request};
use crate::text::join;
use crate::{plain_request, Config};
use std::collections::HashMap;
use vstd::prelude::*;
use vstd::string::*;

verus! {

/// A JSON document of no fixed shape. The library carries such values and
/// never looks inside.
#[verifier::external_type_specification]
#[verifier::external_body]
pub struct ExValue(serde_json::Value);

/// Builds the requests of the catalog endpoints. A path is `/v1/` followed by
/// the path of the endpoint, which itself begins with a slash.
#[derive(Debug)]
pub struct Catalog {
    config: Config,
}

impl Catalog {
    /// The configuration that the requests are built from.
    pub closed spec fn config(&self) -> Config {
        self.config
    }

    /// A builder of requests to the agent that `config` names.
    pub fn new(config: Config) -> (catalog: Self)
        ensures
            catalog.config() == config,
    {
        Catalog { config }
    }

    fn get(&self, head: &str, tail: &str) -> (request: Request)
        ensures
            request.consists_of(Method::Get, head@ + tail@, Map::empty(), self.config().token@, None),
    {
        plain_request(&self.config.token, Method::Get, join(head, tail), &None)
    }

    /// The request that reads the names of all known datacenters.
    pub fn list_datacenters(&self) -> (request: Request)
        ensures
            request.consists_of(
                Method::Get,
                "/v1//catalog/datacenters"@,
                Map::empty(),
                self.config().token@,
                None,
            ),
    {
        plain_request(
            &self.config.token,
            Method::Get,
            String::from_str("/v1//catalog/datacenters"),
            &None,
        )
    }

    /// The request that reads the nodes of the datacenter.
    pub fn list_nodes(&self) -> (request: Request)
        ensures
            request.consists_of(
                Method::Get,
                "/v1//catalog/nodes"@,
                Map::empty(),
                self.config().token@,
                None,
            ),
    {
        plain_request(&self.config.token, Method::Get, String::from_str("/v1//catalog/nodes"), &None)
    }

    /// The request that reads the services of the datacenter with their
    /// tags.
    pub fn list_services(&self) -> (request: Request)
        ensures
            request.consists_of(
                Method::Get,
                "/v1//catalog/services"@,
                Map::empty(),
                self.config().token@,
                None,
            ),
    {
        plain_request(
            &self.config.token,
            Method::Get,
            String::from_str("/v1//catalog/services"),
            &None,
        )
    }

    /// The request that reads the nodes that provide `service_name`.
    pub fn list_nodes_for_service(&self, service_name: &str) -> (request: Request)
        ensures
            request.consists_of(
                Method::Get,
                "/v1//catalog/service/"@ + service_name@,
                Map::empty(),
                self.config().token@,
                None,
            ),
    {
        self.get("/v1//catalog/service/", service_name)
    }

    /// The request that reads the nodes that provide `service_name` through
    /// the mesh, as a proxy or natively.
    pub fn list_nodes_for_connect_capable_service(&self, service_name: &str) -> (request: Request)
        ensures
            request.consists_of(
                Method::Get,
                "/v1//catalog/connect/"@ + service_name@,
                Map::empty(),
                self.config().token@,
                None,
            ),
    {
        self.get("/v1//catalog/connect/", service_name)
    }

    /// The request that reads the node `node_name` with its services by
    /// their identifiers.
    pub fn get_node_service_map(&self, node_name: &str) -> (request: Request)
        ensures
            request.consists_of(
                Method::Get,
                "/v1//catalog/node/"@ + node_name@,
                Map::empty(),
                self.config().token@,
                None,
            ),
    {
        self.get("/v1//catalog/node/", node_name)
    }

    /// The request that reads the services of the node `node_name` as a
    /// list.
    pub fn list_node(&self, node_name: &str) -> (request: Request)
        ensures
            request.consists_of(
                Method::Get,
                "/v1//catalog/node-services/:node_name/"@ + node_name@,
                Map::empty(),
                self.config().token@,
                None,
            ),
    {
        self.get("/v1//catalog/node-services/:node_name/", node_name)
    }
}

/// A node together with one service that it provides.
#[derive(Default, Debug)]
pub struct ServiceNode {
    pub id: String,
    pub node: String,
    /// The address of the node.
    pub address: String,
    /// The datacenter of the node.
    pub datacenter: String,
    /// The addresses of the node by the network they are for.
    pub tagged_addresses: HashMap<String, String>,
    /// Metadata of the node.
    pub node_meta: HashMap<String, String>,
    /// The store's index when the service was registered.
    pub create_index: i64,
    /// The store's index when the service was last changed.
    pub modify_index: i64,
    /// The address of the service; empty where it is that of the node.
    pub service_address: String,
    /// Whether the tags of the service may be overridden.
    pub service_enable_tag_override: bool,
    /// The identifier of the service instance.
    pub service_id: String,
    /// The name of the service.
    pub service_name: String,
    /// The port of the service.
    pub service_port: i64,
    /// Metadata of the service.
    pub service_meta: HashMap<String, String>,
    /// The addresses of the service, each with its port.
    pub service_tagged_addresses: HashMap<String, TaggedAddress>,
    /// The tags of the service.
    pub service_tags: Vec<String>,
    /// The proxy settings of the service.
    pub service_proxy: ServiceProxy,
    /// The mesh settings of the service.
    pub service_connect: ServiceConnect,
}

/// The proxy settings of a service.
#[derive(Default, Debug)]
pub struct ServiceProxy {
    pub destination_service_name: String,
    pub destination_service_id: String,
    pub local_service_address: String,
    pub local_service_port: i64,
    pub config: serde_json::Value,
    pub upstreams: serde_json::Value,
}

/// The mesh settings of a service.
#[derive(Default, Debug)]
pub struct ServiceConnect {
    pub native: bool,
    pub proxy: serde_json::Value,
}

/// A node with its services by their identifiers.
#[derive(Default, Debug, Clone, PartialEq)]
pub struct NodeServices {
    pub node: Node,
    pub services: HashMap<String, NodeService>,
}

/// A service as it is registered on a node.
#[derive(Default, Debug, Clone, PartialEq)]
pub struct NodeService {
    pub id: String,
    pub service: String,
    pub tagged_addresses: HashMap<String, TaggedAddress>,
    pub tags: Vec<String>,
    pub meta: HashMap<String, String>,
    pub port: u16,
}

} // verus!
