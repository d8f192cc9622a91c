//! The checks of the local agent.

use std::collections::HashMap;
use crate::http::{Method, Request};
use crate::text::join;
use crate::{Client, Config};
use vstd::prelude::*;
use vstd::string::*;

verus! {

/// A check that the local agent runs.
#[derive(Clone, Default, Eq, PartialEq, Debug)]
pub struct AgentCheck {
    /// The node that the check runs on.
    pub node: String,
    /// The identifier of the check.
    pub check_id: String,
    /// The name of the check.
    pub name: String,
    /// The state that the check is in.
    pub status: String,
    /// Notes for people to read.
    pub notes: String,
    /// What the check printed when it last ran.
    pub output: String,
    /// The identifier of the service that the check belongs to.
    pub service_id: String,
    /// The name of that service.
    pub service_name: String,
}

/// What a check to be registered is made of. Of the fields that say how to
/// check (`args`, `http`, `tcp`, `grpc`, `h2_ping`, `ttl`, the alias fields)
/// one kind is filled in.
#[derive(Default)]
pub struct RegisterCheckPayload {
    /// The identifier of the check; its name where absent.
    pub id: Option<String>,
    /// The name of the check.
    pub name: String,
    /// Notes for people to read.
    pub notes: Option<String>,
    /// After how long in the critical state the service of the check is
    /// removed, as a duration such as `10m`.
    pub deregister_critical_service_after: Option<String>,
    /// The node whose health an alias check mirrors.
    pub alias_node: Option<String>,
    /// The service whose health an alias check mirrors.
    pub alias_service: Option<String>,
    /// The service of this agent that the check belongs to.
    pub service_id: Option<String>,
    /// The state that the check starts in.
    pub status: Option<String>,
    /// How many successes in a row make the check pass.
    pub success_before_passing: Option<u8>,
    /// How many failures in a row make the check warn.
    pub failures_before_warning: Option<u8>,
    /// How many failures in a row make the check critical.
    pub failures_before_critical: Option<u8>,
    /// The command of a script check, with its arguments.
    pub args: Vec<String>,
    /// The container that a script check runs in.
    pub docker_container_id: Option<String>,
    /// The shell that runs the script in the container.
    pub shell: Option<String>,
    /// The address that an HTTP check asks.
    pub http: Option<String>,
    /// The method of an HTTP check; `GET` where absent.
    pub method: Option<String>,
    /// The headers of an HTTP check, each with its values.
    pub header: Option<HashMap<String, Vec<String>>>,
    /// The body of an HTTP check.
    pub body: Option<String>,
    /// Whether an HTTP check refuses to follow redirects.
    pub disable_redirects: bool,
    /// How often the check runs, as a duration such as `10s`.
    pub interval: Option<String>,
    /// After how long a run of the check is given up.
    pub timeout: String,
    /// Whether an HTTPS check accepts any certificate.
    pub tlsskip_verify: bool,
    /// The endpoint of a gRPC check.
    pub grpc: Option<String>,
    /// Whether a gRPC check uses TLS.
    pub gprc_use_tls: Option<bool>,
    /// The address of an HTTP/2 ping check.
    pub h2_ping: Option<String>,
    /// Whether an HTTP/2 ping check uses TLS.
    pub h2_ping_use_tls: Option<bool>,
    /// The address and port of a TCP check.
    pub tcp: Option<String>,
    /// Within how much time a TTL check has to be told that all is well.
    pub ttl: Option<String>,
}

/// The one header that a registered HTTP check sets.
#[derive(Default, Debug, Clone, PartialEq)]
pub struct RegisterCheckPayloadHeader {
    /// The values of `Content-Type`.
    pub content_type: Vec<String>,
}

/// The requests for the checks of the local agent.
pub trait AgentChecks {
    /// The configuration that the requests are built from.
    spec fn config(&self) -> Config;

    /// The request that reads the checks of the agent by their identifiers.
    fn list_checks(&self) -> (request: Request)
        ensures
            request.consists_of(Method::Get, "/v1/agent/checks"@, Map::empty(), self.config().token@, None),
    ;

    /// The request that registers a check. The description of the check is
    /// the body, which the caller encodes.
    fn register_check(&self) -> (request: Request)
        ensures
            request.consists_of(
                Method::Put,
                "/v1/agent/check/register"@,
                Map::empty(),
                self.config().token@,
                None,
            ),
    ;

    /// The request that removes the check `check_id`.
    fn deregister_check(&self, check_id: &str) -> (request: Request)
        ensures
            request.consists_of(
                Method::Put,
                "/v1/agent/check/deregister/"@ + check_id@,
                Map::empty(),
                self.config().token@,
                None,
            ),
    ;
}

impl AgentChecks for Client {
    open spec fn config(&self) -> Config {
        Client::config(self)
    }

    fn list_checks(&self) -> (request: Request) {
        self.request(Method::Get, String::from_str("/v1/agent/checks"), &None)
    }

    fn register_check(&self) -> (request: Request) {
        self.request(Method::Put, String::from_str("/v1/agent/check/register"), &None)
    }

    fn deregister_check(&self, check_id: &str) -> (request: Request) {
        self.request(Method::Put, join("/v1/agent/check/deregister/", check_id), &None)
    }
}

} // verus!
