//! Links as the host hands them out, and as it is asked to create them.

use vstd::prelude::*;
use crate::address::Address;

verus! {

/// A link that the host found at some base.
#[derive(Debug)]
pub struct Link {
    pub target: Address,
    pub tag: Vec<u8>,
    /// The record that created the link.
    pub create_link_hash: Address,
}

/// A link to be created, of a type `L` that the caller's ledger declares.
#[derive(Debug)]
pub struct NewLink<L> {
    pub base: Address,
    pub target: Address,
    pub link_type: L,
    pub tag: Vec<u8>,
}

/// The target of the first of `links`, if there is any link at all.
pub fn first_target(links: &Vec<Link>) -> (target: Option<Address>)
    ensures
        links@.len() == 0 ==> target is None,
        links@.len() > 0 ==> (target matches Some(address) && address@ == links@[0].target@),
{
    if links.len() == 0 {
        None
    } else {
        Some(links[0].target.clone())
    }
}

} // verus!
