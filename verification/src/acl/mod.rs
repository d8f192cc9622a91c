//! The access control lists: their state, logging in and out, and, in the
//! modules below, policies and tokens.

pub mod policy;
pub mod token;

pub use policy::{AclPolicies, AclPolicy, CreatePolicy, UpdatePolicy};
pub use token::{AclTokens, CreateToken, NodeIdentity, RoleLink, UpdateToken};

use std::collections::HashMap;
use crate::http::{Method, Request};
use crate::{Client, Config};
use vstd::prelude::*;
use vstd::string::*;

verus! {

/// A token of the access control lists.
#[derive(Default, Debug, Clone, PartialEq, Eq)]
pub struct ConsulAcl {
    pub accessor_id: String,
    pub secret_id: String,
    pub description: String,
    /// The policies of the token.
    pub policies: Vec<Policy>,
    pub local: bool,
    pub create_time: String,
    pub hash: String,
    pub create_index: i64,
    pub modify_index: i64,
}

/// A policy as a token names it.
#[derive(Default, Debug, Clone, PartialEq, Eq)]
pub struct Policy {
    pub id: String,
    pub name: String,
}

/// How far a datacenter has copied the access control lists.
#[derive(Debug, Clone, PartialEq, Eq)]
pub struct AclReplication {
    /// Whether the datacenter copies at all.
    pub enabled: bool,
    /// Whether the copying runs now.
    pub running: bool,
    /// The datacenter that is copied from.
    pub source_datacenter: String,
    /// What is copied.
    pub replication_type: ReplicationKind,
    /// The last index that was copied.
    pub replicated_index: i64,
    /// The last index of a token that was copied.
    pub replicated_token_index: i64,
    /// When copying last succeeded.
    pub last_success: String,
    /// When copying last failed.
    pub last_error: String,
    /// What the last failure said; empty where none happened.
    pub last_error_message: String,
}

/// What a datacenter copies of the access control lists.
#[derive(Debug, Clone, Copy, PartialEq, Eq, Structural)]
pub enum ReplicationKind {
    /// Policies only.
    Policies,
    /// Policies and tokens.
    Tokens,
}

/// The kind of replication that a text names, if it names one.
pub open spec fn replication_named(text: Seq<char>) -> Option<ReplicationKind> {
    if text == "policies"@ {
        Some(ReplicationKind::Policies)
    } else if text == "tokens"@ {
        Some(ReplicationKind::Tokens)
    } else {
        None
    }
}

impl ReplicationKind {
    /// What is told of a text that names no kind of replication.
    pub open spec fn unknown() -> Seq<char> {
        "unknown replication type"@
    }

    /// Reads the kind of replication from its name on the wire: `policies`
    /// or `tokens`. Any other text is refused with a message that says so.
    pub fn deserialize(text: &str) -> (kind: Result<Self, String>)
        ensures
            match replication_named(text@) {
                Some(named) => kind == Ok::<Self, String>(named),
                None => kind matches Err(message) && message@ == Self::unknown(),
            },
    {
        if crate::text::same_str(text, "policies") {
            Ok(ReplicationKind::Policies)
        } else if crate::text::same_str(text, "tokens") {
            Ok(ReplicationKind::Tokens)
        } else {
            Err(String::from_str("unknown replication type"))
        }
    }
}

/// The services that a policy is made up for by itself.
#[derive(Debug, Clone, PartialEq, Eq)]
pub struct AclServiceIdentity {
    /// The name of the service.
    pub service_name: String,
    /// The datacenters that the identity is valid in.
    pub datacenters: Option<Vec<String>>,
}

/// What logging in presents.
#[derive(Debug, Clone, PartialEq, Eq)]
pub struct LoginPayload {
    /// The name of the method of authentication.
    pub auth_method: String,
    /// The bearer token to present to that method.
    pub bearer_token: String,
    /// Metadata that is attached to the token that logging in creates.
    pub meta: Option<HashMap<String, String>>,
}

/// The requests for the state of the access control lists and for logging
/// in and out.
pub trait Acl {
    /// The configuration that the requests are built from.
    spec fn config(&self) -> Config;

    /// The request that sets up the access control lists and makes the
    /// first management token. It can succeed once.
    fn bootstrap_acls(&self) -> (request: Request)
        ensures
            request.consists_of(Method::Put, "/v1/acl/bootstrap"@, Map::empty(), self.config().token@, None),
    ;

    /// The request that reads how far the datacenter has copied the access
    /// control lists.
    fn check_acl_replication(&self) -> (request: Request)
        ensures
            request.consists_of(
                Method::Get,
                "/v1/acl/replication"@,
                Map::empty(),
                self.config().token@,
                None,
            ),
    ;

    /// The request that trades a bearer token for a token of the access
    /// control lists. What is presented is the body, which the caller
    /// encodes.
    fn login_to_auth_method(&self) -> (request: Request)
        ensures
            request.consists_of(Method::Post, "/v1/acl/login"@, Map::empty(), self.config().token@, None),
    ;

    /// The request that destroys the token that the request itself
    /// presents, if logging in created it.
    fn logout_from_auth_method(&self) -> (request: Request)
        ensures
            request.consists_of(Method::Post, "/v1/acl/logout"@, Map::empty(), self.config().token@, None),
    ;
}

impl Acl for Client {
    open spec fn config(&self) -> Config {
        Client::config(self)
    }

    fn bootstrap_acls(&self) -> (request: Request) {
        self.request(Method::Put, String::from_str("/v1/acl/bootstrap"), &None)
    }

    fn check_acl_replication(&self) -> (request: Request) {
        self.request(Method::Get, String::from_str("/v1/acl/replication"), &None)
    }

    fn login_to_auth_method(&self) -> (request: Request) {
        self.request(Method::Post, String::from_str("/v1/acl/login"), &None)
    }

    fn logout_from_auth_method(&self) -> (request: Request) {
        self.request(Method::Post, String::from_str("/v1/acl/logout"), &None)
    }
}

} // verus!
