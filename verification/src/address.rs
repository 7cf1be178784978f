//! Identifiers: byte strings that name agents, records and networks.
//!
//! The ledger is content-addressed, so every identifier is the byte string
//! that the host computed for the thing it names. The rules in this crate
//! never look inside one: they only ask whether two of them are the same.

use vstd::prelude::*;

verus! {

/// Whether two byte strings hold the same bytes.
pub fn bytes_eq(a: &Vec<u8>, b: &Vec<u8>) -> (same: bool)
    ensures
        same == (a@ == b@),
{
    if a.len() != b.len() {
        return false;
    }
    let mut i: usize = 0;
    while i < a.len()
        invariant
            a@.len() == b@.len(),
            i <= a@.len(),
            forall|j: int| 0 <= j < i ==> a@[j] == b@[j],
        decreases a@.len() - i,
    {
        if a[i] != b[i] {
            return false;
        }
        i += 1;
    }
    assert(a@ =~= b@);
    true
}

/// The public key that identifies an agent.
#[derive(Debug)]
pub struct AgentId {
    pub bytes: Vec<u8>,
}

impl View for AgentId {
    type V = Seq<u8>;

    open spec fn view(&self) -> Seq<u8> {
        self.bytes@
    }
}

impl AgentId {
    pub fn new(bytes: Vec<u8>) -> (id: AgentId)
        ensures
            id@ == bytes@,
    {
        AgentId { bytes }
    }
}

impl Clone for AgentId {
    fn clone(&self) -> (copy: AgentId)
        ensures
            copy@ == self@,
    {
        AgentId { bytes: self.bytes.clone() }
    }
}

impl PartialEq for AgentId {
    fn eq(&self, other: &AgentId) -> (same: bool) {
        bytes_eq(&self.bytes, &other.bytes)
    }
}

impl Eq for AgentId {

}

impl vstd::std_specs::cmp::PartialEqSpecImpl for AgentId {
    open spec fn obeys_eq_spec() -> bool {
        true
    }

    open spec fn eq_spec(&self, other: &AgentId) -> bool {
        self@ == other@
    }
}

/// The address of a record, of an entry, or of either end of a link.
#[derive(Debug)]
pub struct Address {
    pub bytes: Vec<u8>,
}

impl View for Address {
    type V = Seq<u8>;

    open spec fn view(&self) -> Seq<u8> {
        self.bytes@
    }
}

impl Address {
    pub fn new(bytes: Vec<u8>) -> (address: Address)
        ensures
            address@ == bytes@,
    {
        Address { bytes }
    }
}

impl Clone for Address {
    fn clone(&self) -> (copy: Address)
        ensures
            copy@ == self@,
    {
        Address { bytes: self.bytes.clone() }
    }
}

impl PartialEq for Address {
    fn eq(&self, other: &Address) -> (same: bool) {
        bytes_eq(&self.bytes, &other.bytes)
    }
}

impl Eq for Address {

}

impl vstd::std_specs::cmp::PartialEqSpecImpl for Address {
    open spec fn obeys_eq_spec() -> bool {
        true
    }

    open spec fn eq_spec(&self, other: &Address) -> bool {
        self@ == other@
    }
}

/// The identity of a network: every agent in it resolves the same one.
#[derive(Debug)]
pub struct NetworkId {
    pub bytes: Vec<u8>,
}

impl View for NetworkId {
    type V = Seq<u8>;

    open spec fn view(&self) -> Seq<u8> {
        self.bytes@
    }
}

impl NetworkId {
    pub fn new(bytes: Vec<u8>) -> (id: NetworkId)
        ensures
            id@ == bytes@,
    {
        NetworkId { bytes }
    }
}

impl Clone for NetworkId {
    fn clone(&self) -> (copy: NetworkId)
        ensures
            copy@ == self@,
    {
        NetworkId { bytes: self.bytes.clone() }
    }
}

impl PartialEq for NetworkId {
    fn eq(&self, other: &NetworkId) -> (same: bool) {
        bytes_eq(&self.bytes, &other.bytes)
    }
}

impl Eq for NetworkId {

}

impl vstd::std_specs::cmp::PartialEqSpecImpl for NetworkId {
    open spec fn obeys_eq_spec() -> bool {
        true
    }

    open spec fn eq_spec(&self, other: &NetworkId) -> bool {
        self@ == other@
    }
}

} // verus!
