//! The endpoints of the local agent: its checks and its services.

pub mod checks;
pub mod service;
pub mod services;

use crate::Config;
use vstd::prelude::*;

verus! {

/// Builds the requests of the agent endpoints.
#[derive(Debug)]
pub struct Agent {
    /// What the requests are built from.
    pub config: Config,
    /// The service endpoints of the agent.
    pub services: services::AgentServices,
}

impl Agent {
    /// The configuration that the requests are built from.
    pub open spec fn config(&self) -> Config {
        self.config
    }

    /// A builder of requests to the agent that `config` names.
    pub fn new(config: Config) -> (agent: Self)
        ensures
            agent.config() == config,
            agent.services.config() == config,
    {
        let services = services::AgentServices::new(config.clone());
        Agent { config, services }
    }
}

} // verus!
