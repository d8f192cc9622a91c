//! The certificate authority of the service mesh.

use crate::http::{Method, Request};
use crate::options::QueryOptions;
use crate::{query_of, token_of, Client, Config};
use vstd::prelude::*;
use vstd::string::*;

verus! {

/// The configuration of the certificate authority.
#[derive(Default, Debug)]
pub struct CAConfig {
    /// The provider of the certificate authority.
    pub provider: String,
    /// The settings of the provider, in the provider's own shape.
    pub config: serde_json::Value,
    /// The store's index when the configuration was created.
    pub create_index: u64,
    /// The store's index when the configuration was last changed.
    pub modify_index: u64,
}

/// The root certificates that the cluster trusts.
#[derive(Default, Debug)]
pub struct CARootList {
    /// The identifier of the root that signs now.
    pub active_root_id: String,
    /// The trust domain of the cluster.
    pub trust_domain: String,
    /// The roots.
    pub roots: Vec<CARoot>,
}

/// One root certificate.
#[derive(Eq, Default, PartialEq, Debug)]
pub struct CARoot {
    pub id: String,
    pub name: String,
    /// The certificate, PEM encoded.
    pub root_cert: String,
    /// Whether this root signs now.
    pub active: bool,
    pub create_index: u64,
    pub modify_index: u64,
}

/// The requests for the certificate authority of the service mesh.
pub trait ConnectCA {
    /// The configuration that the requests are built from.
    spec fn config(&self) -> Config;

    /// The request that reads the root certificates that the cluster
    /// trusts.
    fn list_ca_root_certs(&self, options: Option<QueryOptions>) -> (request: Request)
        ensures
            request.consists_of(
                Method::Get,
                "/v1/connect/ca/roots"@,
                query_of(options),
                token_of(self.config().token@, options),
                None,
            ),
    ;

    /// The request that reads the configuration of the certificate
    /// authority.
    fn get_ca_config(&self, options: Option<QueryOptions>) -> (request: Request)
        ensures
            request.consists_of(
                Method::Get,
                "/v1/connect/ca/configuration"@,
                query_of(options),
                token_of(self.config().token@, options),
                None,
            ),
    ;

    /// The request that changes the configuration of the certificate
    /// authority. The configuration is the body, which the caller encodes.
    fn update_ca_config(&self, options: Option<QueryOptions>) -> (request: Request)
        ensures
            request.consists_of(
                Method::Put,
                "/v1/connect/ca/configuration"@,
                query_of(options),
                token_of(self.config().token@, options),
                None,
            ),
    ;
}

impl ConnectCA for Client {
    open spec fn config(&self) -> Config {
        Client::config(self)
    }

    fn list_ca_root_certs(&self, options: Option<QueryOptions>) -> (request: Request) {
        self.request(Method::Get, String::from_str("/v1/connect/ca/roots"), &options)
    }

    fn get_ca_config(&self, options: Option<QueryOptions>) -> (request: Request) {
        self.request(Method::Get, String::from_str("/v1/connect/ca/configuration"), &options)
    }

    fn update_ca_config(&self, options: Option<QueryOptions>) -> (request: Request) {
        self.request(Method::Put, String::from_str("/v1/connect/ca/configuration"), &options)
    }
}

} // verus!
