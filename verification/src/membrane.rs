//! The membrane: who may join a network.
//!
//! The progenitor joins freely. Everyone else brings a membrane proof: a
//! record that the progenitor wrote and signed, whose entry names the network
//! and the agent that it admits.

use vstd::prelude::*;
use crate::address::{AgentId, NetworkId};
use crate::properties::Network;
use crate::verdict::{Fault, Reason, Verdict};

verus! {

/// The entry of a membrane proof: `recipient` may join the network `dna_hash`.
#[derive(Debug)]
pub struct PrivatePublicationMembraneProof {
    pub recipient: AgentId,
    pub dna_hash: NetworkId,
}

/// What the host found when it checked a record's signature over the
/// record's action against the public key of the record's author.
#[derive(Clone, Copy, Debug, PartialEq, Eq, Structural)]
pub enum SignatureCheck {
    Verified,
    Rejected,
    /// The host could not make the check.
    Unavailable,
}

/// A signed record, as far as admission reads it.
#[derive(Debug)]
pub struct SignedRecord {
    pub author: AgentId,
    pub signature: SignatureCheck,
    /// The record's entry, where it decodes to a membrane proof.
    pub entry: Option<PrivatePublicationMembraneProof>,
}

/// What an agent attached to its admission package.
#[derive(Debug)]
pub enum MembraneProof {
    /// Bytes that do not decode to a signed record.
    Undecodable,
    Record(SignedRecord),
}

/// Whether `proof` is all that admission asks of a membrane proof for
/// `for_agent` on `network`: written and signed by the progenitor, for this
/// network, to this agent.
pub open spec fn proof_admits(
    proof: &MembraneProof,
    for_agent: Seq<u8>,
    network: &Network,
) -> bool {
    &&& proof matches MembraneProof::Record(record)
    &&& record.author@ == network.properties.progenitor@
    &&& record.signature == SignatureCheck::Verified
    &&& record.entry matches Some(entry)
    &&& entry.dna_hash@ == network.id@
    &&& entry.recipient@ == for_agent
}

/// The outcome of admission for `for_agent` with `membrane_proof` on
/// `network`. The checks are made in this order, and the first that fails
/// decides what is reported.
pub open spec fn admission(
    for_agent: Seq<u8>,
    membrane_proof: Option<MembraneProof>,
    network: &Network,
) -> Result<Verdict, Fault> {
    if for_agent == network.properties.progenitor@ {
        Ok(Verdict::Valid)
    } else {
        match membrane_proof {
            None => Ok(Verdict::Invalid(Reason::NoMembraneProof)),
            Some(MembraneProof::Undecodable) => Err(Fault::UndecodableProof),
            Some(MembraneProof::Record(record)) => {
                if record.author@ != network.properties.progenitor@ {
                    Ok(Verdict::Invalid(Reason::AuthorSignatureMismatch))
                } else {
                    match record.signature {
                        SignatureCheck::Unavailable => Err(Fault::SignatureUnavailable),
                        SignatureCheck::Rejected => Ok(
                            Verdict::Invalid(Reason::AuthorSignatureMismatch),
                        ),
                        SignatureCheck::Verified => match record.entry {
                            None => Ok(Verdict::Invalid(Reason::MalformedMembraneProof)),
                            Some(entry) => {
                                if entry.dna_hash@ != network.id@ {
                                    Ok(Verdict::Invalid(Reason::ProofForOtherNetwork))
                                } else if entry.recipient@ != for_agent {
                                    Ok(Verdict::Invalid(Reason::ProofForOtherAgent))
                                } else {
                                    Ok(Verdict::Valid)
                                }
                            },
                        },
                    }
                }
            },
        }
    }
}

/// Decides whether `for_agent` may join `network` with `membrane_proof`.
pub fn is_membrane_proof_valid(
    for_agent: AgentId,
    membrane_proof: Option<MembraneProof>,
    network: &Network,
) -> (outcome: Result<Verdict, Fault>)
    ensures
        outcome == admission(for_agent@, membrane_proof, network),
        outcome == Ok::<Verdict, Fault>(Verdict::Valid) <==> (for_agent@
            == network.properties.progenitor@ || (membrane_proof matches Some(proof)
            && proof_admits(&proof, for_agent@, network))),
{
    check_admission(&for_agent, &membrane_proof, network)
}

/// Decides whether `for_agent` may join `network` with `membrane_proof`,
/// without taking either from the caller.
pub fn check_admission(
    for_agent: &AgentId,
    membrane_proof: &Option<MembraneProof>,
    network: &Network,
) -> (outcome: Result<Verdict, Fault>)
    ensures
        outcome == admission(for_agent@, *membrane_proof, network),
        outcome == Ok::<Verdict, Fault>(Verdict::Valid) <==> (for_agent@
            == network.properties.progenitor@ || (membrane_proof matches Some(proof)
            && proof_admits(proof, for_agent@, network))),
{
    if *for_agent == network.properties.progenitor {
        return Ok(Verdict::Valid);
    }
    match membrane_proof {
        None => Ok(Verdict::Invalid(Reason::NoMembraneProof)),
        Some(MembraneProof::Undecodable) => Err(Fault::UndecodableProof),
        Some(MembraneProof::Record(record)) => {
            if record.author != network.properties.progenitor {
                return Ok(Verdict::Invalid(Reason::AuthorSignatureMismatch));
            }
            match record.signature {
                SignatureCheck::Unavailable => {
                    return Err(Fault::SignatureUnavailable);
                },
                SignatureCheck::Rejected => {
                    return Ok(Verdict::Invalid(Reason::AuthorSignatureMismatch));
                },
                SignatureCheck::Verified => {},
            }
            match &record.entry {
                None => Ok(Verdict::Invalid(Reason::MalformedMembraneProof)),
                Some(entry) => {
                    if entry.dna_hash != network.id {
                        return Ok(Verdict::Invalid(Reason::ProofForOtherNetwork));
                    }
                    if entry.recipient != *for_agent {
                        return Ok(Verdict::Invalid(Reason::ProofForOtherAgent));
                    }
                    Ok(Verdict::Valid)
                },
            }
        },
    }
}

} // verus!
