//! The configuration of a network, fixed at its genesis.
//!
//! It is read once and handed to every check that needs it. Nothing in this
//! crate changes it.

use vstd::prelude::*;
use crate::address::{AgentId, NetworkId};

verus! {

/// What the founder of a network wrote into it.
#[derive(Debug)]
pub struct Properties {
    /// The founding agent: the only one who joins without a proof, and the
    /// only one who hands out roles.
    pub progenitor: AgentId,
}

/// A network as every agent in it sees it.
#[derive(Debug)]
pub struct Network {
    pub id: NetworkId,
    pub properties: Properties,
}

impl Network {
    pub fn new(id: NetworkId, progenitor: AgentId) -> (network: Network)
        ensures
            network.id@ == id@,
            network.properties.progenitor@ == progenitor@,
    {
        Network { id, properties: Properties { progenitor } }
    }
}

/// The progenitor of `network`.
pub open spec fn spec_progenitor(network: &Network) -> AgentId {
    network.properties.progenitor
}

/// The progenitor of `network`.
#[verifier::when_used_as_spec(spec_progenitor)]
pub fn progenitor(network: &Network) -> (agent: AgentId)
    ensures
        agent@ == spec_progenitor(network)@,
{
    network.properties.progenitor.clone()
}

} // verus!
