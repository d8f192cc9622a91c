//! Client-side coordination layer for a replicated key/value store that is
//! reached over HTTP: consistency-controlled reads, blocking queries that
//! wait on the store's index, and locks that are backed by sessions.
//!
//! The library performs no I/O. Every operation is split in two: a function
//! that builds the [`Request`] to send, and a function that turns the
//! [`Response`] that came back into a typed result. The caller owns the
//! transport.
//!
//! - [`options`] encodes the options of a call as query parameters.
//! - [`kv`] and [`session`] hold the requests and the decoding of the
//!   key/value namespace and of the session manager; [`payload`] decodes the
//!   payload of an entry that was read.
//! - [`watch`] decides how a blocking wait ends.
//! - [`model`] says, as mathematics, how the store behaves; [`history`]
//!   proves what follows from that for every sequence of writes; [`store`] is
//!   a store in memory that behaves so.
//! - The other modules build the requests of the remaining groups of
//!   endpoints and hold the shapes of their answers.

pub mod acl;
pub mod agent;
pub mod catalog;
pub mod common;
pub mod connect;
pub mod error;
pub mod health;
pub mod history;
pub mod http;
pub mod kv;
pub mod model;
pub mod options;
pub mod params;
pub mod payload;
pub mod session;
pub mod store;
pub mod text;
pub mod watch;

pub use error::{Error, Fault, Operation};
pub use http::{Method, Request, Response};
pub use options::{Consistency, QueryOptions};
pub use params::Params;

use http::header_text;
use vstd::prelude::*;
use vstd::string::*;

verus! {

/// Where the store's agent listens, and the credential to present to it.
#[derive(Debug)]
pub struct Config {
    /// Base address of the agent, scheme included.
    pub address: String,
    /// Access token sent with every request; empty for none.
    pub token: String,
}

/// The name of the variable that holds the agent's address.
pub open spec fn address_variable() -> Seq<char> {
    "CONSUL_HTTP_ADDR"@
}

/// The name of the variable that holds the access token.
pub open spec fn token_variable() -> Seq<char> {
    "CONSUL_HTTP_TOKEN"@
}

impl Config {
    /// A configuration made of the given address and token.
    pub fn new(address: String, token: String) -> (config: Self)
        ensures
            config.address == address,
            config.token == token,
    {
        Self { address, token }
    }

    /// The configuration that the environment gives: `address` is what the
    /// variable `CONSUL_HTTP_ADDR` holds and `token` what `CONSUL_HTTP_TOKEN`
    /// holds, each `None` where the variable is not set. The first variable
    /// that is not set is reported, the address before the token.
    pub fn from_env(address: Option<String>, token: Option<String>) -> (config: Result<
        Self,
        Error,
    >)
        ensures
            match config {
                Ok(made) => address == Some(made.address) && token == Some(made.token),
                Err(Error::MissingEnvVar(name)) => if address is None {
                    name@ == address_variable()
                } else {
                    token is None && name@ == token_variable()
                },
                Err(_) => false,
            },
    {
        match address {
            None => Err(Error::MissingEnvVar(String::from_str("CONSUL_HTTP_ADDR"))),
            Some(address) => match token {
                None => Err(Error::MissingEnvVar(String::from_str("CONSUL_HTTP_TOKEN"))),
                Some(token) => Ok(Config { address, token }),
            },
        }
    }

    /// Whether the token can be sent as the value of a header. A client can
    /// be made of the configuration only if it can.
    pub fn token_is_sendable(&self) -> (ok: bool)
        ensures
            ok == header_text(self.token@),
    {
        http::is_header_text(self.token.as_str())
    }
}

/// The query parameters that stand for the options of a call.
pub open spec fn query_of(options: Option<QueryOptions>) -> Map<Seq<char>, Seq<char>> {
    match options {
        Some(options) => options.query(),
        None => Map::empty(),
    }
}

/// The credential that a call presents: that of its options, or else the
/// client's own.
pub open spec fn token_of(own: Seq<char>, options: Option<QueryOptions>) -> Seq<char> {
    match options {
        Some(options) => match options.token {
            Some(token) => token@,
            None => own,
        },
        None => own,
    }
}

impl Clone for Config {
    fn clone(&self) -> (copy: Self)
        ensures
            copy == *self,
    {
        Config { address: self.address.clone(), token: self.token.clone() }
    }
}

/// A request without a body: the given method and path, the query that
/// stands for `options`, and as the one header the credential of the options
/// or else `token`.
pub fn plain_request(
    token: &String,
    method: Method,
    path: String,
    options: &Option<QueryOptions>,
) -> (request: Request)
    ensures
        request.consists_of(method, path@, query_of(*options), token_of(token@, *options), None),
        request.path == path,
{
    let mut query = Params::new();
    let mut headers = Params::new();
    let mut chosen: Option<String> = None;
    match options {
        Some(options) => {
            options.encode(&mut query);
            match &options.token {
                Some(own) => {
                    chosen = Some(own.clone());
                },
                None => {},
            }
            assert(query@ =~= options.query());
        },
        None => {},
    }
    let chosen = match chosen {
        Some(chosen) => chosen,
        None => token.clone(),
    };
    headers.insert(String::from_str("X-Consul-Token"), chosen);
    Request { method, path, query, headers, body: None }
}

/// The entry point: builds the requests of every group of endpoints for one
/// agent.
#[derive(Debug)]
pub struct Client {
    /// What the requests are built from.
    pub config: Config,
    /// The catalog endpoints.
    pub catalog: catalog::Catalog,
    /// The health endpoints.
    pub health: health::Health,
    /// The agent endpoints.
    pub agent: agent::Agent,
}

impl Client {
    /// The configuration that the client was made of.
    pub open spec fn config(&self) -> Config {
        self.config
    }

    /// A client for the agent that `config` names. The token of `config`
    /// must be one that can be sent as the value of a header, which
    /// [`Config::token_is_sendable`] tells.
    pub fn new(config: Config) -> (client: Result<Self, Error>)
        requires
            header_text(config.token@),
        ensures
            client matches Ok(made) && made.config() == config && made.catalog.config()
                == config && made.health.config() == config && made.agent.config() == config,
    {
        let catalog = catalog::Catalog::new(config.clone());
        let health = health::Health::new(config.clone());
        let agent = agent::Agent::new(config.clone());
        Ok(Client { config, catalog, health, agent })
    }

    /// The address of the agent.
    pub fn address(&self) -> (address: &String)
        ensures
            address == self.config().address,
    {
        &self.config.address
    }

    /// The full address of a request: the agent's address, then the path.
    pub fn url(&self, request: &Request) -> (url: String)
        ensures
            url@ == self.config().address@ + request.path@,
    {
        text::join(self.config.address.as_str(), request.path.as_str())
    }

    /// A request without a body: the given method and path, the query that
    /// stands for `options`, and the credential as the one header.
    pub fn request(
        &self,
        method: Method,
        path: String,
        options: &Option<QueryOptions>,
    ) -> (request: Request)
        ensures
            request.consists_of(
                method,
                path@,
                query_of(*options),
                token_of(self.config().token@, *options),
                None,
            ),
            request.path == path,
    {
        plain_request(&self.config.token, method, path, options)
    }
}

} // verus!
