//! Tokens of the access control lists.

use super::{AclServiceIdentity, Policy};
use crate::http::{Method, Request};
use crate::text::join;
use crate::{Client, Config};
use vstd::prelude::*;
use vstd::string::*;

verus! {

/// What a token to be created is made of.
#[derive(Default, Debug, Clone, PartialEq)]
pub struct CreateToken {
    /// The public identifier of the token; made up by the store where absent.
    pub accessor_id: Option<String>,
    /// The secret of the token; made up by the store where absent.
    pub secret_id: Option<String>,
    /// A description for people to read.
    pub description: Option<String>,
    /// The policies of the token.
    pub policies: Option<Vec<Policy>>,
    /// The roles of the token.
    pub roles: Option<Vec<RoleLink>>,
    /// The service identities of the token.
    pub service_identities: Option<Vec<AclServiceIdentity>>,
    /// Whether the token stays in its datacenter.
    pub local: bool,
    /// When the token expires.
    pub expiration_time: Option<String>,
    /// After how long the token expires, counted from its creation.
    pub expiration_ttl: Option<String>,
}

/// The identity of a node, as roles and tokens name it.
#[derive(Default, Debug, Clone, PartialEq)]
pub struct NodeIdentity {
    /// The name of the node.
    pub node_name: String,
    /// The datacenter of the node.
    pub datacenter: String,
}

/// A role that a token is linked to.
#[derive(Default, Debug, Clone, PartialEq)]
pub struct RoleLink {
    pub id: String,
    pub name: String,
}

/// What a token is changed to.
#[derive(Default, Debug, Clone, PartialEq)]
pub struct UpdateToken {
    /// A description for people to read.
    pub description: Option<String>,
    /// The policies of the token.
    pub policies: Option<Vec<Policy>>,
    /// The roles of the token.
    pub roles: Option<Vec<RoleLink>>,
    /// The service identities of the token.
    pub service_identities: Option<Vec<AclServiceIdentity>>,
    /// Whether the token stays in its datacenter.
    pub local: Option<bool>,
    /// When the token expires.
    pub expiration_time: Option<String>,
    /// After how long the token expires, counted from its creation.
    pub expiration_ttl: Option<String>,
}

/// The requests for tokens.
pub trait AclTokens {
    /// The configuration that the requests are built from.
    spec fn config(&self) -> Config;

    /// The request that creates a token. The token is the body, which the
    /// caller encodes.
    fn create_token(&self) -> (request: Request)
        ensures
            request.consists_of(Method::Put, "/v1/acl/token"@, Map::empty(), self.config().token@, None),
    ;

    /// The request that reads the token `token_id`.
    fn read_token(&self, token_id: &str) -> (request: Request)
        ensures
            request.consists_of(
                Method::Get,
                "/v1/acl/token/"@ + token_id@,
                Map::empty(),
                self.config().token@,
                None,
            ),
    ;

    /// The request that reads the token that the request itself presents.
    fn read_self_token(&self) -> (request: Request)
        ensures
            request.consists_of(
                Method::Get,
                "/v1/acl/token/self"@,
                Map::empty(),
                self.config().token@,
                None,
            ),
    ;

    /// The request that changes the token `accessor_id`. The change is the
    /// body, which the caller encodes.
    fn update_token(&self, accessor_id: &str) -> (request: Request)
        ensures
            request.consists_of(
                Method::Put,
                "/v1/acl/token/"@ + accessor_id@,
                Map::empty(),
                self.config().token@,
                None,
            ),
    ;

    /// The request that makes a copy of the token `accessor_id`. A new
    /// description, where the copy is to have one, is the body, which the
    /// caller encodes.
    fn clone_token(&self, accessor_id: &str) -> (request: Request)
        ensures
            request.consists_of(
                Method::Put,
                "/v1/acl/token/"@ + accessor_id@,
                Map::empty(),
                self.config().token@,
                None,
            ),
    ;

    /// The request that removes the token `accessor_id`.
    fn delete_token(&self, accessor_id: &str) -> (request: Request)
        ensures
            request.consists_of(
                Method::Delete,
                "/v1/acl/token/"@ + accessor_id@,
                Map::empty(),
                self.config().token@,
                None,
            ),
    ;

    /// The request that reads all tokens.
    fn list_tokens(&self) -> (request: Request)
        ensures
            request.consists_of(Method::Get, "/v1/acl/tokens"@, Map::empty(), self.config().token@, None),
    ;
}

impl AclTokens for Client {
    open spec fn config(&self) -> Config {
        Client::config(self)
    }

    fn create_token(&self) -> (request: Request) {
        self.request(Method::Put, String::from_str("/v1/acl/token"), &None)
    }

    fn read_token(&self, token_id: &str) -> (request: Request) {
        self.request(Method::Get, join("/v1/acl/token/", token_id), &None)
    }

    fn read_self_token(&self) -> (request: Request) {
        self.request(Method::Get, String::from_str("/v1/acl/token/self"), &None)
    }

    fn update_token(&self, accessor_id: &str) -> (request: Request) {
        self.request(Method::Put, join("/v1/acl/token/", accessor_id), &None)
    }

    fn clone_token(&self, accessor_id: &str) -> (request: Request) {
        self.request(Method::Put, join("/v1/acl/token/", accessor_id), &None)
    }

    fn delete_token(&self, accessor_id: &str) -> (request: Request) {
        self.request(Method::Delete, join("/v1/acl/token/", accessor_id), &None)
    }

    fn list_tokens(&self) -> (request: Request) {
        self.request(Method::Get, String::from_str("/v1/acl/tokens"), &None)
    }
}

} // verus!
