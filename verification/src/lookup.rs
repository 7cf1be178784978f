//! What the rules need from the store next.
//!
//! The rules read the store, and the host fills it. Rather than resolve
//! everything that an operation mentions, the host asks which record or
//! entry the rules cannot go on without, resolves that one, and asks again.
//! When nothing is wanted any more, the outcome is a verdict, or a fault that
//! no lookup can mend.

use vstd::prelude::*;
use crate::action::Action;
use crate::address::{Address, AgentId};
use crate::membrane::admission;
use crate::op::{Op, OpActivity, OpEntry, OpRecord};
use crate::post::may_post;
use crate::properties::Network;
use crate::publication_role::{editor_role, PublicationRole};
use crate::record::{RecordStore, StoreView};
use crate::verdict::{Fault, Verdict};
use crate::{outcome, EntryTypes, EntryTypesView};

verus! {

/// Something for the host to resolve.
#[derive(Debug)]
pub enum Lookup {
    /// The record at this address: its action and its entry.
    Record(Address),
    /// The action at this address. Its entry is not needed.
    Action(Address),
    /// This entry, by its content.
    Entry(EntryTypes),
}

/// A lookup as a value.
pub enum LookupView {
    Record(Seq<u8>),
    Action(Seq<u8>),
    Entry(EntryTypesView),
}

impl View for Lookup {
    type V = LookupView;

    open spec fn view(&self) -> LookupView {
        match self {
            Lookup::Record(address) => LookupView::Record(address@),
            Lookup::Action(address) => LookupView::Action(address@),
            Lookup::Entry(entry) => LookupView::Entry(entry@),
        }
    }
}

/// Whether `store` resolves `lookup`.
pub open spec fn resolved(lookup: LookupView, store: StoreView) -> bool {
    match lookup {
        LookupView::Record(address) => store.get(address) is Some,
        LookupView::Action(address) => store.get(address) is Some,
        LookupView::Entry(entry) => store.has_entry(entry),
    }
}

/// The role that a post by `author` rests on, where the store does not yet
/// resolve it and the author needs one.
pub open spec fn wanted_role(author: Seq<u8>, store: StoreView, network: &Network) -> Option<
    LookupView,
> {
    if may_post(author, store, network) {
        None
    } else {
        Some(LookupView::Entry(EntryTypesView::PublicationRole(editor_role(author))))
    }
}

/// The record at `address`, where the store does not yet resolve it.
pub open spec fn wanted_record(address: Seq<u8>, store: StoreView) -> Option<LookupView> {
    if store.get(address) is Some {
        None
    } else {
        Some(LookupView::Record(address))
    }
}

/// What the rules need next to decide on `op`.
pub open spec fn wanted(op: &Op, store: StoreView, network: &Network) -> Option<LookupView> {
    match op {
        Op::StoreEntry(OpEntry::CreateEntry { app_entry: EntryTypes::Post(_), action }) => {
            wanted_role(action.author@, store, network)
        },
        Op::StoreEntry(OpEntry::UpdateEntry { app_entry: EntryTypes::Post(_), action }) => {
            wanted_role(action.author@, store, network)
        },
        Op::StoreRecord(OpRecord::CreateEntry { app_entry: EntryTypes::Post(_), action }) => {
            wanted_role(action.author@, store, network)
        },
        Op::StoreRecord(OpRecord::UpdateEntry { original_action_hash, app_entry, action }) => {
            match store.get(original_action_hash@) {
                None => Some(LookupView::Record(original_action_hash@)),
                Some(record) => if record.action.entry_creation() is Some && app_entry is Post {
                    wanted_role(action.author@, store, network)
                } else {
                    None
                },
            }
        },
        Op::StoreRecord(OpRecord::DeleteEntry { original_action_hash, .. }) => wanted_record(
            original_action_hash@,
            store,
        ),
        Op::StoreRecord(OpRecord::DeleteLink { original_action_hash, .. }) => wanted_record(
            original_action_hash@,
            store,
        ),
        Op::StoreRecord(OpRecord::CreateLink { target_address, .. }) => wanted_record(
            target_address@,
            store,
        ),
        Op::RegisterCreateLink { target_address, .. } => wanted_record(target_address@, store),
        Op::RegisterAgentActivity(OpActivity::CreateAgent { action, .. }) => {
            if store.get(action.prev_action@) is Some {
                None
            } else {
                Some(LookupView::Action(action.prev_action@))
            }
        },
        _ => None,
    }
}

/// Whether `fault` says that the store did not resolve something.
pub open spec fn is_missing(fault: Fault) -> bool {
    fault == Fault::RecordNotFound || fault == Fault::RoleNotFound
}

fn role_lookup(author: &AgentId, store: &RecordStore, network: &Network) -> (lookup: Option<Lookup>)
    ensures
        lookup matches Some(found) ==> wanted_role(author@, store@, network) == Some(found@),
        lookup is None ==> wanted_role(author@, store@, network) is None,
{
    if *author == network.properties.progenitor {
        return None;
    }
    let role = EntryTypes::PublicationRole(PublicationRole::editor(author.clone()));
    if store.holds_entry(&role) {
        None
    } else {
        Some(Lookup::Entry(role))
    }
}

fn record_lookup(address: &Address, store: &RecordStore) -> (lookup: Option<Lookup>)
    ensures
        lookup matches Some(found) ==> wanted_record(address@, store@) == Some(found@),
        lookup is None ==> wanted_record(address@, store@) is None,
{
    match store.get(address) {
        Some(_) => None,
        None => Some(Lookup::Record(address.clone())),
    }
}

/// Says what the host has to resolve next so that the rules can decide on
/// `op`, or that there is nothing left to resolve.
///
/// Something is wanted exactly as long as the outcome is the fault of a
/// missing record or role, and what is wanted is what is missing.
pub fn next_lookup(op: &Op, store: &RecordStore, network: &Network) -> (lookup: Option<Lookup>)
    ensures
        lookup matches Some(found) ==> wanted(op, store@, network) == Some(found@),
        lookup is None ==> wanted(op, store@, network) is None,
        lookup is Some <==> (outcome(op, store@, network) matches Err(fault) && is_missing(fault)),
        lookup matches Some(found) ==> !resolved(found@, store@),
{
    proof {
        law_wanted_while_missing(op, store@, network);
    }
    match op {
        Op::StoreEntry(OpEntry::CreateEntry { app_entry: EntryTypes::Post(_), action }) => {
            role_lookup(&action.author, store, network)
        },
        Op::StoreEntry(OpEntry::UpdateEntry { app_entry: EntryTypes::Post(_), action }) => {
            role_lookup(&action.author, store, network)
        },
        Op::StoreRecord(OpRecord::CreateEntry { app_entry: EntryTypes::Post(_), action }) => {
            role_lookup(&action.author, store, network)
        },
        Op::StoreRecord(OpRecord::UpdateEntry { original_action_hash, app_entry, action }) => {
            match store.get(original_action_hash) {
                None => Some(Lookup::Record(original_action_hash.clone())),
                Some(record) => {
                    let creates = match &record.action {
                        Action::Create(_) => true,
                        Action::Update(_) => true,
                        _ => false,
                    };
                    let posts = match app_entry {
                        EntryTypes::Post(_) => true,
                        EntryTypes::PublicationRole(_) => false,
                    };
                    if creates && posts {
                        role_lookup(&action.author, store, network)
                    } else {
                        None
                    }
                },
            }
        },
        Op::StoreRecord(OpRecord::DeleteEntry { original_action_hash, .. }) => record_lookup(
            original_action_hash,
            store,
        ),
        Op::StoreRecord(OpRecord::DeleteLink { original_action_hash, .. }) => record_lookup(
            original_action_hash,
            store,
        ),
        Op::StoreRecord(OpRecord::CreateLink { target_address, .. }) => record_lookup(
            target_address,
            store,
        ),
        Op::RegisterCreateLink { target_address, .. } => record_lookup(target_address, store),
        Op::RegisterAgentActivity(OpActivity::CreateAgent { action, .. }) => {
            match store.get(&action.prev_action) {
                Some(_) => None,
                None => Some(Lookup::Action(action.prev_action.clone())),
            }
        },
        _ => None,
    }
}

/// Something is wanted exactly as long as something is missing. The rules
/// want a lookup if and only if the outcome is the fault of a missing record
/// or role, and they never want what the store already resolves.
pub proof fn law_wanted_while_missing(op: &Op, store: StoreView, network: &Network)
    ensures
        wanted(op, store, network) is Some <==> (outcome(op, store, network) matches Err(fault)
            && is_missing(fault)),
        wanted(op, store, network) matches Some(lookup) ==> !resolved(lookup, store),
        wanted(op, store, network) matches Some(LookupView::Entry(_)) ==> outcome(
            op,
            store,
            network,
        ) == Err::<Verdict, Fault>(Fault::RoleNotFound),
        wanted(op, store, network) matches Some(LookupView::Record(_)) ==> outcome(
            op,
            store,
            network,
        ) == Err::<Verdict, Fault>(Fault::RecordNotFound),
        wanted(op, store, network) matches Some(LookupView::Action(_)) ==> outcome(
            op,
            store,
            network,
        ) == Err::<Verdict, Fault>(Fault::RecordNotFound),
{
    match op {
        Op::RegisterAgentActivity(OpActivity::CreateAgent { agent, action }) => {
            match store.get(action.prev_action@) {
                Some(record) => match record.action {
                    Action::AgentValidationPkg(package) => {
                        lemma_admission_never_misses(agent@, package.membrane_proof, network);
                    },
                    _ => {},
                },
                None => {},
            }
        },
        _ => {},
    }
}

/// Admission reads no store, so it never ends in the fault of something
/// missing from one.
pub proof fn lemma_admission_never_misses(
    for_agent: Seq<u8>,
    membrane_proof: Option<crate::membrane::MembraneProof>,
    network: &Network,
)
    ensures
        admission(for_agent, membrane_proof, network) matches Err(fault) ==> !is_missing(fault),
{
}

/// Two lookups are enough. Whatever the operation, once the host has
/// resolved what the rules wanted first, and then what they wanted second,
/// they want nothing more.
pub proof fn law_two_lookups_suffice(
    op: &Op,
    first: StoreView,
    second: StoreView,
    third: StoreView,
    network: &Network,
)
    requires
        wanted(op, first, network) matches Some(lookup) && resolved(lookup, second),
        wanted(op, second, network) matches Some(lookup) && resolved(lookup, third),
        second.extends(first),
        third.extends(second),
    ensures
        wanted(op, third, network) is None,
{
    match op {
        Op::StoreRecord(OpRecord::UpdateEntry { original_action_hash, .. }) => {
            if first.get(original_action_hash@) is Some {
                crate::laws::lemma_lookup_is_stable(first, second, original_action_hash@);
            } else {
                crate::laws::lemma_lookup_is_stable(second, third, original_action_hash@);
            }
        },
        _ => {},
    }
}

} // verus!
