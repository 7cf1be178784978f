//! Actions: the headers of the records that an agent appends to its chain.
//!
//! Every action names its author and the action before it on the author's
//! chain, so each chain is a singly linked list that cannot be changed
//! without changing the addresses of everything after the change.

use vstd::prelude::*;
use crate::address::{Address, AgentId};
use crate::membrane::MembraneProof;
use crate::LinkTypes;

verus! {

/// Who may see an entry.
#[derive(Clone, Copy, Debug, PartialEq, Eq, Structural)]
pub enum EntryVisibility {
    Public,
    Private,
}

/// The kind of entry that a create or an update carries.
#[derive(Clone, Copy, Debug, PartialEq, Eq, Structural)]
pub enum EntryType {
    /// The key of the agent itself.
    AgentPubKey,
    /// An entry that an application defines.
    App(EntryVisibility),
    CapClaim,
    CapGrant,
}

impl EntryType {
    pub open spec fn spec_visibility(self) -> EntryVisibility {
        match self {
            EntryType::AgentPubKey => EntryVisibility::Public,
            EntryType::App(visibility) => visibility,
            EntryType::CapClaim => EntryVisibility::Private,
            EntryType::CapGrant => EntryVisibility::Private,
        }
    }

    #[verifier::when_used_as_spec(spec_visibility)]
    pub fn visibility(self) -> (visibility: EntryVisibility)
        ensures
            visibility == self.spec_visibility(),
    {
        match self {
            EntryType::AgentPubKey => EntryVisibility::Public,
            EntryType::App(visibility) => visibility,
            EntryType::CapClaim => EntryVisibility::Private,
            EntryType::CapGrant => EntryVisibility::Private,
        }
    }
}

/// The creation of an entry.
#[derive(Debug)]
pub struct Create {
    pub author: AgentId,
    /// Microseconds since the epoch.
    pub timestamp: i64,
    pub prev_action: Address,
    pub entry_type: EntryType,
}

impl Create {
    /// Whether `other` says the same as this action.
    pub open spec fn agrees(&self, other: &Create) -> bool {
        &&& other.author@ == self.author@
        &&& other.timestamp == self.timestamp
        &&& other.prev_action@ == self.prev_action@
        &&& other.entry_type == self.entry_type
    }
}

impl Clone for Create {
    fn clone(&self) -> (copy: Create)
        ensures
            self.agrees(&copy),
    {
        Create {
            author: self.author.clone(),
            timestamp: self.timestamp,
            prev_action: self.prev_action.clone(),
            entry_type: self.entry_type,
        }
    }
}

/// The replacement of an entry by a new one.
#[derive(Debug)]
pub struct Update {
    pub author: AgentId,
    pub timestamp: i64,
    pub prev_action: Address,
    pub entry_type: EntryType,
    /// The record that this one supersedes.
    pub original_action_address: Address,
}

impl Update {
    /// Whether `other` says the same as this action.
    pub open spec fn agrees(&self, other: &Update) -> bool {
        &&& other.author@ == self.author@
        &&& other.timestamp == self.timestamp
        &&& other.prev_action@ == self.prev_action@
        &&& other.entry_type == self.entry_type
        &&& other.original_action_address@ == self.original_action_address@
    }
}

impl Clone for Update {
    fn clone(&self) -> (copy: Update)
        ensures
            self.agrees(&copy),
    {
        Update {
            author: self.author.clone(),
            timestamp: self.timestamp,
            prev_action: self.prev_action.clone(),
            entry_type: self.entry_type,
            original_action_address: self.original_action_address.clone(),
        }
    }
}

/// The deletion of an entry. The record stays: it is only marked.
#[derive(Debug)]
pub struct Delete {
    pub author: AgentId,
    pub timestamp: i64,
    pub prev_action: Address,
    /// The record that this one marks as deleted.
    pub deletes_address: Address,
}

impl Delete {
    /// Whether `other` says the same as this action.
    pub open spec fn agrees(&self, other: &Delete) -> bool {
        &&& other.author@ == self.author@
        &&& other.timestamp == self.timestamp
        &&& other.prev_action@ == self.prev_action@
        &&& other.deletes_address@ == self.deletes_address@
    }
}

impl Clone for Delete {
    fn clone(&self) -> (copy: Delete)
        ensures
            self.agrees(&copy),
    {
        Delete {
            author: self.author.clone(),
            timestamp: self.timestamp,
            prev_action: self.prev_action.clone(),
            deletes_address: self.deletes_address.clone(),
        }
    }
}

/// The creation of a link: a typed, tagged edge from `base_address` to
/// `target_address`.
#[derive(Debug)]
pub struct CreateLink {
    pub author: AgentId,
    pub timestamp: i64,
    pub prev_action: Address,
    pub base_address: Address,
    pub target_address: Address,
    /// The type of the link, where it is one that this ledger declares.
    pub link_type: Option<LinkTypes>,
    pub tag: Vec<u8>,
}

impl CreateLink {
    /// Whether `other` says the same as this action.
    pub open spec fn agrees(&self, other: &CreateLink) -> bool {
        &&& other.author@ == self.author@
        &&& other.timestamp == self.timestamp
        &&& other.prev_action@ == self.prev_action@
        &&& other.base_address@ == self.base_address@
        &&& other.target_address@ == self.target_address@
        &&& other.link_type == self.link_type
        &&& other.tag@ == self.tag@
    }
}

impl Clone for CreateLink {
    fn clone(&self) -> (copy: CreateLink)
        ensures
            self.agrees(&copy),
    {
        CreateLink {
            author: self.author.clone(),
            timestamp: self.timestamp,
            prev_action: self.prev_action.clone(),
            base_address: self.base_address.clone(),
            target_address: self.target_address.clone(),
            link_type: self.link_type,
            tag: self.tag.clone(),
        }
    }
}

/// The deletion of a link.
#[derive(Debug)]
pub struct DeleteLink {
    pub author: AgentId,
    pub timestamp: i64,
    pub prev_action: Address,
    pub base_address: Address,
    /// The link creation that this one deletes.
    pub link_add_address: Address,
}

impl DeleteLink {
    /// Whether `other` says the same as this action.
    pub open spec fn agrees(&self, other: &DeleteLink) -> bool {
        &&& other.author@ == self.author@
        &&& other.timestamp == self.timestamp
        &&& other.prev_action@ == self.prev_action@
        &&& other.base_address@ == self.base_address@
        &&& other.link_add_address@ == self.link_add_address@
    }
}

impl Clone for DeleteLink {
    fn clone(&self) -> (copy: DeleteLink)
        ensures
            self.agrees(&copy),
    {
        DeleteLink {
            author: self.author.clone(),
            timestamp: self.timestamp,
            prev_action: self.prev_action.clone(),
            base_address: self.base_address.clone(),
            link_add_address: self.link_add_address.clone(),
        }
    }
}

/// The admission package: the second action of every chain, which carries
/// the membrane proof, if the agent brought one.
#[derive(Debug)]
pub struct AgentValidationPkg {
    pub author: AgentId,
    pub timestamp: i64,
    pub prev_action: Address,
    pub membrane_proof: Option<MembraneProof>,
}

/// An action that brings an entry with it.
#[derive(Debug)]
pub enum EntryCreationAction {
    Create(Create),
    Update(Update),
}

impl EntryCreationAction {
    pub open spec fn spec_author(&self) -> &AgentId {
        match self {
            EntryCreationAction::Create(create) => &create.author,
            EntryCreationAction::Update(update) => &update.author,
        }
    }

    #[verifier::when_used_as_spec(spec_author)]
    pub fn author(&self) -> (author: &AgentId)
        ensures
            author == self.spec_author(),
    {
        match self {
            EntryCreationAction::Create(create) => &create.author,
            EntryCreationAction::Update(update) => &update.author,
        }
    }

    pub open spec fn spec_entry_type(&self) -> EntryType {
        match self {
            EntryCreationAction::Create(create) => create.entry_type,
            EntryCreationAction::Update(update) => update.entry_type,
        }
    }

    #[verifier::when_used_as_spec(spec_entry_type)]
    pub fn entry_type(&self) -> (entry_type: EntryType)
        ensures
            entry_type == self.spec_entry_type(),
    {
        match self {
            EntryCreationAction::Create(create) => create.entry_type,
            EntryCreationAction::Update(update) => update.entry_type,
        }
    }
}

impl EntryCreationAction {
    /// Whether `other` is an action of the same kind that says the same.
    pub open spec fn agrees(&self, other: &EntryCreationAction) -> bool {
        match (self, other) {
            (EntryCreationAction::Create(mine), EntryCreationAction::Create(theirs)) => mine.agrees(
                theirs,
            ),
            (EntryCreationAction::Update(mine), EntryCreationAction::Update(theirs)) => mine.agrees(
                theirs,
            ),
            _ => false,
        }
    }
}

impl Clone for EntryCreationAction {
    fn clone(&self) -> (copy: EntryCreationAction)
        ensures
            self.agrees(&copy),
    {
        match self {
            EntryCreationAction::Create(create) => EntryCreationAction::Create(create.clone()),
            EntryCreationAction::Update(update) => EntryCreationAction::Update(update.clone()),
        }
    }
}

/// Any action of a chain.
#[derive(Debug)]
pub enum Action {
    /// The first action of a chain, which names the network.
    Dna,
    AgentValidationPkg(AgentValidationPkg),
    InitZomesComplete,
    CreateLink(CreateLink),
    DeleteLink(DeleteLink),
    OpenChain,
    CloseChain,
    Create(Create),
    Update(Update),
    Delete(Delete),
}

impl Action {
    /// The author and the entry type of an action that brings an entry.
    pub open spec fn entry_creation(&self) -> Option<(Seq<u8>, EntryType)> {
        match self {
            Action::Create(create) => Some((create.author@, create.entry_type)),
            Action::Update(update) => Some((update.author@, update.entry_type)),
            _ => None,
        }
    }

    /// This action as one that brings an entry, where it is one: a create
    /// as a create, an update as an update, and nothing else.
    pub fn as_entry_creation(&self) -> (creation: Option<EntryCreationAction>)
        ensures
            match self {
                Action::Create(create) => creation matches Some(EntryCreationAction::Create(copy))
                    && create.agrees(&copy),
                Action::Update(update) => creation matches Some(EntryCreationAction::Update(copy))
                    && update.agrees(&copy),
                _ => creation is None,
            },
    {
        match self {
            Action::Create(create) => Some(EntryCreationAction::Create(create.clone())),
            Action::Update(update) => Some(EntryCreationAction::Update(update.clone())),
            _ => None,
        }
    }
}

} // verus!
