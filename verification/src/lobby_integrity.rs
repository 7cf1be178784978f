//! The rules of the lobby: the network that anyone may join, and on which
//! the progenitor of a private network hands out membrane proofs.

use vstd::prelude::*;
use crate::membrane::PrivatePublicationMembraneProof;
use crate::verdict::{Fault, Verdict};

verus! {

/// The entries that the lobby declares.
#[derive(Debug)]
pub enum EntryTypes {
    PrivatePublicationMembraneProof(PrivatePublicationMembraneProof),
}

/// The links that the lobby declares.
#[derive(Clone, Copy, Debug, PartialEq, Eq, Structural)]
pub enum LinkTypes {
    /// From an agent to the membrane proof that was issued to it.
    AgentToMembraneProof,
}

/// The lobby holds nothing back: every operation is valid.
pub fn validate<O>(_op: O) -> (result: Result<Verdict, Fault>)
    ensures
        result == Ok::<Verdict, Fault>(Verdict::Valid),
{
    Ok(Verdict::Valid)
}

} // verus!
