//! Types that several groups of endpoints share.

use std::collections::HashMap;
use vstd::prelude::*;

verus! {

/// A node of the cluster, as the catalog and the health endpoints report it.
#[derive(Default, Debug, Clone, PartialEq)]
pub struct Node {
    /// The node's identifier.
    pub id: String,
    /// The node's name.
    pub node: String,
    /// The address the node is reached at.
    pub address: String,
    /// The datacenter the node belongs to.
    pub datacenter: String,
    /// The node's addresses by the network they are for.
    pub tagged_addresses: HashMap<String, String>,
    /// Metadata that the operator attached to the node.
    pub meta: HashMap<String, String>,
}

/// An address together with a port.
#[derive(Default, Debug, Clone, PartialEq)]
pub struct TaggedAddress {
    /// The address.
    pub address: String,
    /// The port.
    pub port: u16,
}

} // verus!
