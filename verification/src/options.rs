//! Per-call options of a read or a write, and their encoding as query
//! parameters and headers.

use crate::params::Params;
use crate::text::{decimal, format_decimal};
use vstd::prelude::*;
use vstd::string::*;

verus! {

/// How fresh a read must be, traded against load on the cluster leader.
#[derive(Clone, Copy, Debug, PartialEq, Eq, Structural)]
pub enum Consistency {
    /// The leader answers, without confirming that it still leads.
    Default,
    /// The leader confirms with a quorum that it leads before it answers.
    Consistent,
    /// Any server answers, however far behind it is.
    Stale,
}

/// Options that a caller may attach to one call.
#[derive(Debug)]
pub struct QueryOptions {
    /// Freshness of the read.
    pub consistency: Consistency,
    /// The index last observed. Present and not zero, it makes the read
    /// block until the store's index differs from it.
    pub wait_index: Option<u64>,
    /// Upper bound of a blocking read, in milliseconds.
    pub wait_time: Option<u64>,
    /// Credential for this call, in place of the client's own.
    pub token: Option<String>,
    /// Datacenter to ask, in place of the agent's own.
    pub datacenter: Option<String>,
    /// Namespace to ask.
    pub namespace: Option<String>,
}

impl QueryOptions {
    /// Whether a read with these options blocks.
    pub open spec fn blocking(self) -> bool {
        self.wait_index matches Some(index) && index != 0
    }

    /// The query parameters that stand for these options.
    pub open spec fn query(self) -> Map<Seq<char>, Seq<char>> {
        let none = Map::<Seq<char>, Seq<char>>::empty();
        let freshness = match self.consistency {
            Consistency::Default => none,
            Consistency::Consistent => none.insert("consistent"@, ""@),
            Consistency::Stale => none.insert("stale"@, ""@),
        };
        let index = if self.blocking() {
            freshness.insert("index"@, decimal(self.wait_index->0 as nat))
        } else {
            freshness
        };
        let wait = match self.wait_time {
            Some(millis) => if self.blocking() {
                index.insert("wait"@, decimal(millis as nat) + "ms"@)
            } else {
                index
            },
            None => index,
        };
        let datacenter = match self.datacenter {
            Some(name) => wait.insert("dc"@, name@),
            None => wait,
        };
        match self.namespace {
            Some(name) => datacenter.insert("ns"@, name@),
            None => datacenter,
        }
    }

    /// Options that ask for nothing: default consistency, no blocking, the
    /// client's own credential, datacenter and namespace.
    pub fn new() -> (options: Self)
        ensures
            options.consistency == Consistency::Default,
            options.wait_index is None,
            options.wait_time is None,
            options.token is None,
            options.datacenter is None,
            options.namespace is None,
            options.query() == Map::<Seq<char>, Seq<char>>::empty(),
    {
        QueryOptions {
            consistency: Consistency::Default,
            wait_index: None,
            wait_time: None,
            token: None,
            datacenter: None,
            namespace: None,
        }
    }

    /// Options for a read that blocks on `index` for at most `wait_time`
    /// milliseconds. With `index` zero the read does not block.
    pub fn watching(index: u64, wait_time: Option<u64>) -> (options: Self)
        ensures
            options.consistency == Consistency::Default,
            options.wait_index == Some(index),
            options.wait_time == wait_time,
            options.token is None,
            options.datacenter is None,
            options.namespace is None,
    {
        QueryOptions {
            consistency: Consistency::Default,
            wait_index: Some(index),
            wait_time,
            token: None,
            datacenter: None,
            namespace: None,
        }
    }

    /// Adds to `query` the parameters that stand for these options.
    pub fn encode(&self, query: &mut Params)
        ensures
            final(query)@ == old(query)@.union_prefer_right(self.query()),
    {
        match self.consistency {
            Consistency::Default => {},
            Consistency::Consistent => {
                query.insert(String::from_str("consistent"), String::from_str(""));
            },
            Consistency::Stale => {
                query.insert(String::from_str("stale"), String::from_str(""));
            },
        }
        let blocking = match self.wait_index {
            Some(index) => index != 0,
            None => false,
        };
        if blocking {
            match self.wait_index {
                Some(index) => {
                    query.insert(String::from_str("index"), format_decimal(index));
                },
                None => {},
            }
            match self.wait_time {
                Some(millis) => {
                    let mut value = format_decimal(millis);
                    value.append("ms");
                    query.insert(String::from_str("wait"), value);
                },
                None => {},
            }
        }
        match &self.datacenter {
            Some(name) => {
                query.insert(String::from_str("dc"), name.clone());
            },
            None => {},
        }
        match &self.namespace {
            Some(name) => {
                query.insert(String::from_str("ns"), name.clone());
            },
            None => {},
        }
    }
}

} // verus!
