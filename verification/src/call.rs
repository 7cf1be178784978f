//! Calls from one cell to another, and what comes back.
//!
//! A cell is one agent's instance of one network. The host carries the call
//! and checks the secret that comes with it against the grants of the one
//! who is called. Nothing here is retried: what comes back is reported once.

use vstd::prelude::*;
use crate::address::{AgentId, NetworkId};
use crate::capability::CapSecret;
use crate::verdict::Fault;

verus! {

/// One agent's instance of one network.
#[derive(Debug)]
pub struct CellId {
    pub dna_hash: NetworkId,
    pub agent_pubkey: AgentId,
}

/// A cell of the caller's own host.
#[derive(Debug)]
pub enum CallTargetCell {
    OtherCell(CellId),
    /// The cell that fills the named role of the caller's application.
    OtherRole(String),
    Local,
}

/// Whom a call goes to.
#[derive(Debug)]
pub enum CallTarget {
    /// The same network, as another agent runs it.
    NetworkAgent(AgentId),
    ConductorCell(CallTargetCell),
}

/// A call to be made. It carries no arguments: none of the calls that this
/// crate asks for takes any.
#[derive(Debug)]
pub struct Call {
    pub target: CallTarget,
    pub zome_name: String,
    pub fn_name: String,
    pub cap_secret: Option<CapSecret>,
}

/// What came back from a call, with the answer decoded to `T` where the call
/// succeeded.
#[derive(Debug)]
pub enum ZomeCallResponse<T> {
    Success(T),
    /// The call succeeded, but its answer does not decode to `T`.
    Undecodable,
    Unauthorized(String),
    NetworkError(String),
    CountersigningSession(String),
}

/// The result of a call for its caller: the answer where the call succeeded,
/// and otherwise a fault that says how it did not. No failure is passed off
/// as an empty answer.
pub open spec fn response_result<T>(response: ZomeCallResponse<T>) -> Result<T, Fault> {
    match response {
        ZomeCallResponse::Success(answer) => Ok(answer),
        ZomeCallResponse::Undecodable => Err(Fault::UndecodableResponse),
        ZomeCallResponse::Unauthorized(text) => Err(Fault::Unauthorized(text)),
        ZomeCallResponse::NetworkError(text) => Err(Fault::NetworkError(text)),
        ZomeCallResponse::CountersigningSession(text) => Err(Fault::CountersigningSession(text)),
    }
}

/// Turns what came back from a call into the caller's result.
pub fn answer_from_response<T>(response: ZomeCallResponse<T>) -> (result: Result<T, Fault>)
    ensures
        result == response_result(response),
{
    match response {
        ZomeCallResponse::Success(answer) => Ok(answer),
        ZomeCallResponse::Undecodable => Err(Fault::UndecodableResponse),
        ZomeCallResponse::Unauthorized(text) => Err(Fault::Unauthorized(text)),
        ZomeCallResponse::NetworkError(text) => Err(Fault::NetworkError(text)),
        ZomeCallResponse::CountersigningSession(text) => Err(Fault::CountersigningSession(text)),
    }
}

} // verus!
