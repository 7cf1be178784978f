//! Profiles: the name by which an agent wants to be known.
//!
//! An agent writes its profile as an entry and links itself to the record.
//! Whoever wants the profile of an agent follows the first such link.

use vstd::prelude::*;
use crate::address::{Address, AgentId};
use crate::link::{first_target, Link, NewLink};
use crate::verdict::Fault;

verus! {

#[derive(Debug)]
pub struct Profile {
    pub nickname: String,
}

impl Clone for Profile {
    fn clone(&self) -> (copy: Profile)
        ensures
            copy == *self,
    {
        Profile { nickname: self.nickname.clone() }
    }
}

/// The entries that the profiles declare.
#[derive(Debug)]
pub enum EntryTypes {
    Profile(Profile),
}

/// The links that the profiles declare.
#[derive(Clone, Copy, Debug, PartialEq, Eq, Structural)]
pub enum LinkTypes {
    AgentToProfile,
}

/// What a fetched record holds, read as a profile.
#[derive(Debug)]
pub enum ProfileEntry {
    /// The record shows no entry.
    Absent,
    /// The record's entry does not decode to a profile.
    Undecodable,
    Profile(Profile),
}

/// The entry by which an agent publishes `profile`.
pub fn create_profile(profile: Profile) -> (entry: EntryTypes)
    ensures
        entry == EntryTypes::Profile(profile),
{
    EntryTypes::Profile(profile)
}

/// The link by which a profile is found: from `agent` to the record at
/// `action_hash`, which holds the profile.
pub fn profile_link(agent: &AgentId, action_hash: Address) -> (link: NewLink<LinkTypes>)
    ensures
        link.base@ == agent@,
        link.target@ == action_hash@,
        link.link_type == LinkTypes::AgentToProfile,
        link.tag@.len() == 0,
{
    NewLink {
        base: Address::new(agent.bytes.clone()),
        target: action_hash,
        link_type: LinkTypes::AgentToProfile,
        tag: Vec::new(),
    }
}

/// The address of the record that holds an agent's profile, given the
/// profile links that start at the agent: that of the first, if there is one.
pub fn inner_get_agent_profile(links: &Vec<Link>) -> (target: Option<Address>)
    ensures
        links@.len() == 0 ==> target is None,
        links@.len() > 0 ==> (target matches Some(address) && address@ == links@[0].target@),
{
    first_target(links)
}

/// Where to find the profile of some agent, given its profile links.
pub fn get_agent_profile(links: &Vec<Link>) -> (target: Option<Address>)
    ensures
        links@.len() == 0 ==> target is None,
        links@.len() > 0 ==> (target matches Some(address) && address@ == links@[0].target@),
{
    inner_get_agent_profile(links)
}

/// Where to find this agent's own profile, given its profile links.
pub fn get_my_profile(links: &Vec<Link>) -> (target: Option<Address>)
    ensures
        links@.len() == 0 ==> target is None,
        links@.len() > 0 ==> (target matches Some(address) && address@ == links@[0].target@),
{
    inner_get_agent_profile(links)
}

/// The profile in what the host fetched: none where it fetched nothing, and
/// a fault where it fetched a record that holds no profile.
pub open spec fn profile_in(fetched: Option<ProfileEntry>) -> Result<Option<Profile>, Fault> {
    match fetched {
        None => Ok(None),
        Some(ProfileEntry::Absent) => Err(Fault::EntryMissing),
        Some(ProfileEntry::Undecodable) => Err(Fault::UndecodableEntry),
        Some(ProfileEntry::Profile(profile)) => Ok(Some(profile)),
    }
}

/// Reads the profile out of what the host fetched.
pub fn get_profile(fetched: Option<ProfileEntry>) -> (profile: Result<Option<Profile>, Fault>)
    ensures
        profile == profile_in(fetched),
{
    match fetched {
        None => Ok(None),
        Some(ProfileEntry::Absent) => Err(Fault::EntryMissing),
        Some(ProfileEntry::Undecodable) => Err(Fault::UndecodableEntry),
        Some(ProfileEntry::Profile(profile)) => Ok(Some(profile)),
    }
}

} // verus!
