//! Operations: what the host asks the rules about.
//!
//! Every change to the ledger reaches the rules as one or more operations,
//! each from the point of view of an authority that has to store something:
//! the record itself, its entry, the author's activity, or the mark that a
//! record leaves on the one it updates, deletes or links.
//!
//! An operation on something that this ledger does not declare (agent keys,
//! capability grants and claims, private entries, the bookkeeping actions of a
//! chain) is `Other`, and passes.

use vstd::prelude::*;
use crate::action::{Create, CreateLink, Delete, DeleteLink, EntryCreationAction, Update};
use crate::address::{Address, AgentId};
use crate::{EntryTypes, LinkTypes};

verus! {

/// The storing of an entry.
#[derive(Debug)]
#[allow(inconsistent_fields)]
pub enum OpEntry {
    CreateEntry { app_entry: EntryTypes, action: Create },
    UpdateEntry { app_entry: EntryTypes, action: Update },
    Other,
}

/// The mark that an update leaves on the record it updates.
#[derive(Debug)]
pub enum OpUpdate {
    Entry {
        original_action: EntryCreationAction,
        original_app_entry: EntryTypes,
        app_entry: EntryTypes,
        action: Update,
    },
    Other,
}

/// The mark that a delete leaves on the record it deletes.
#[derive(Debug)]
pub enum OpDelete {
    Entry { original_action: EntryCreationAction, original_app_entry: EntryTypes, action: Delete },
    Other,
}

/// The storing of a record.
#[derive(Debug)]
#[allow(inconsistent_fields)]
pub enum OpRecord {
    CreateEntry { app_entry: EntryTypes, action: Create },
    UpdateEntry { original_action_hash: Address, app_entry: EntryTypes, action: Update },
    DeleteEntry { original_action_hash: Address, action: Delete },
    CreateLink {
        base_address: Address,
        target_address: Address,
        tag: Vec<u8>,
        link_type: LinkTypes,
        action: CreateLink,
    },
    DeleteLink { original_action_hash: Address, base_address: Address, action: DeleteLink },
    Other,
}

/// The recording of an action as part of its author's activity.
#[derive(Debug)]
pub enum OpActivity {
    /// The action by which `agent` enters the network.
    CreateAgent { agent: AgentId, action: Create },
    Other,
}

/// One operation.
#[derive(Debug)]
#[allow(inconsistent_fields)]
pub enum Op {
    StoreRecord(OpRecord),
    StoreEntry(OpEntry),
    RegisterAgentActivity(OpActivity),
    RegisterCreateLink {
        base_address: Address,
        target_address: Address,
        tag: Vec<u8>,
        link_type: LinkTypes,
        action: CreateLink,
    },
    RegisterDeleteLink {
        original_action: CreateLink,
        base_address: Address,
        target_address: Address,
        tag: Vec<u8>,
        link_type: LinkTypes,
        action: DeleteLink,
    },
    RegisterUpdate(OpUpdate),
    RegisterDelete(OpDelete),
}

} // verus!
