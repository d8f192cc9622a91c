//! Policies of the access control lists.

use crate::http::{Method, Request};
use crate::text::join;
use crate::{Client, Config};
use vstd::prelude::*;
use vstd::string::*;

verus! {

/// A policy as the store holds it.
#[derive(Default, Debug, Clone, PartialEq, Eq)]
pub struct AclPolicy {
    pub id: String,
    pub name: String,
    pub description: String,
    pub rules: String,
    pub datacenters: Vec<String>,
    pub hash: String,
    pub create_index: i64,
    pub modify_index: i64,
}

/// What a policy to be created is made of.
#[derive(Default, Debug, Clone, PartialEq, Eq)]
pub struct CreatePolicy {
    /// The name: letters, digits, `-` and `_`; unique.
    pub name: String,
    /// A description for people to read.
    pub description: String,
    /// The rules of the policy.
    pub rules: String,
    /// The datacenters that the policy is valid in; all where empty.
    pub datacenters: Vec<String>,
}

/// What a policy is changed to.
#[derive(Default, Debug, Clone, PartialEq, Eq)]
pub struct UpdatePolicy {
    /// The name of the policy.
    pub name: String,
    /// A description for people to read.
    pub description: Option<String>,
    /// The rules of the policy.
    pub rules: Option<String>,
    /// The datacenters that the policy is valid in.
    pub datacenters: Option<Vec<String>>,
}

/// The requests for policies.
pub trait AclPolicies {
    /// The configuration that the requests are built from.
    spec fn config(&self) -> Config;

    /// The request that creates a policy. The policy is the body, which the
    /// caller encodes.
    fn create_policy(&self) -> (request: Request)
        ensures
            request.consists_of(Method::Put, "/v1/acl/policy"@, Map::empty(), self.config().token@, None),
    ;

    /// The request that reads the policy `id`.
    fn read_policy(&self, id: &str) -> (request: Request)
        ensures
            request.consists_of(
                Method::Get,
                "/v1/acl/policy/"@ + id@,
                Map::empty(),
                self.config().token@,
                None,
            ),
    ;

    /// The request that reads the policy named `name`.
    fn read_policy_by_name(&self, name: &str) -> (request: Request)
        ensures
            request.consists_of(
                Method::Get,
                "/v1/acl/policy/name/"@ + name@,
                Map::empty(),
                self.config().token@,
                None,
            ),
    ;

    /// The request that changes a policy. The change is the body, which the
    /// caller encodes.
    fn update_policy(&self) -> (request: Request)
        ensures
            request.consists_of(Method::Put, "/v1/acl/policy"@, Map::empty(), self.config().token@, None),
    ;

    /// The request that removes the policy `id`.
    fn delete_policy(&self, id: &str) -> (request: Request)
        ensures
            request.consists_of(
                Method::Delete,
                "/v1/acl/policy/"@ + id@,
                Map::empty(),
                self.config().token@,
                None,
            ),
    ;

    /// The request that reads all policies.
    fn list_policies(&self) -> (request: Request)
        ensures
            request.consists_of(Method::Get, "/v1/acl/policies"@, Map::empty(), self.config().token@, None),
    ;
}

impl AclPolicies for Client {
    open spec fn config(&self) -> Config {
        Client::config(self)
    }

    fn create_policy(&self) -> (request: Request) {
        self.request(Method::Put, String::from_str("/v1/acl/policy"), &None)
    }

    fn read_policy(&self, id: &str) -> (request: Request) {
        self.request(Method::Get, join("/v1/acl/policy/", id), &None)
    }

    fn read_policy_by_name(&self, name: &str) -> (request: Request) {
        self.request(Method::Get, join("/v1/acl/policy/name/", name), &None)
    }

    fn update_policy(&self) -> (request: Request) {
        self.request(Method::Put, String::from_str("/v1/acl/policy"), &None)
    }

    fn delete_policy(&self, id: &str) -> (request: Request) {
        self.request(Method::Delete, join("/v1/acl/policy/", id), &None)
    }

    fn list_policies(&self) -> (request: Request) {
        self.request(Method::Get, String::from_str("/v1/acl/policies"), &None)
    }
}

} // verus!
