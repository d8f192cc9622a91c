//! The builder behind the service endpoints of the agent.

use crate::Config;
use vstd::prelude::*;

verus! {

/// Holds what the requests of the agent's service endpoints are built from.
#[derive(Debug)]
pub struct AgentServices {
    config: Config,
}

impl AgentServices {
    /// The configuration that the requests are built from.
    pub closed spec fn config(&self) -> Config {
        self.config
    }

    /// A builder of requests to the agent that `config` names.
    pub fn new(config: Config) -> (services: Self)
        ensures
            services.config() == config,
    {
        AgentServices { config }
    }
}

} // verus!
