//! The rules of a private publication.
//!
//! A private publication is a ledger that several agents share. It only
//! grows: every agent appends records to a chain of its own, and nothing
//! that was appended is changed or removed. One agent, the progenitor,
//! founded the network. It decides who may join, by handing out membrane
//! proofs, and who may publish, by handing out the editor role. Beside the
//! private network stands a lobby that anyone may join. Through it a member
//! of the private network can let an outsider read its posts, by a
//! capability grant that names the network to read.
//!
//! This crate decides. For every operation that the host is about to accept
//! into the ledger, [`validate`] says whether the rules permit it. For every
//! agent that asks to join, [`membrane::is_membrane_proof_valid`] says
//! whether it may. For every step of a private read, the functions of
//! [`lobby`] say what is written and who is called. The host does the
//! rest: it stores, signs, hashes, carries calls, and resolves the records
//! that the rules ask for.
//!
//! Every function comes with a contract that states what it returns for
//! every input, and every contract is proved. What holds of the rules as a
//! whole is stated and proved in [`laws`], and what holds of every ledger
//! that grew under them in [`ledger`].
//!
//! Two things are taken from `holo_hash` on trust: the text form of a
//! network's identity, and the reading of it. They are in [`encoding`].

use vstd::prelude::*;

pub mod action;
pub mod address;
pub mod call;
pub mod capability;
pub mod encoding;
pub mod laws;
pub mod ledger;
pub mod link;
pub mod lobby;
pub mod lobby_integrity;
pub mod lookup;
pub mod membrane;
pub mod op;
pub mod post;
pub mod profiles;
pub mod properties;
pub mod publication_role;
pub mod record;
pub mod roles;
pub mod verdict;

use crate::action::{
    Action, Create, Delete, DeleteLink, EntryCreationAction, EntryType, EntryVisibility, Update,
};
use crate::address::{Address, AgentId};
use crate::membrane::{admission, check_admission, is_membrane_proof_valid, MembraneProof};
use crate::op::{Op, OpActivity, OpDelete, OpEntry, OpRecord, OpUpdate};
use crate::post::{create_link_outcome, create_post_outcome, update_post_verdict};
use crate::properties::Network;
use crate::publication_role::create_role_verdict;
use crate::record::{RecordEntry, RecordStore, StoreView};
use crate::verdict::{Fault, Reason, Verdict};

pub use crate::post::{
    validate_create_link_all_posts, validate_create_post, validate_delete_link_all_posts,
    validate_delete_post, validate_update_post, Post, PostView,
};
pub use crate::publication_role::{
    validate_create_publication_role, validate_delete_publication_role,
    validate_update_publication_role, PublicationRole, PublicationRoleView,
};

verus! {

/// The entries that this ledger declares.
#[derive(Debug)]
pub enum EntryTypes {
    Post(Post),
    PublicationRole(PublicationRole),
}

/// An entry as a value.
pub enum EntryTypesView {
    Post(PostView),
    PublicationRole(PublicationRoleView),
}

impl View for EntryTypes {
    type V = EntryTypesView;

    open spec fn view(&self) -> EntryTypesView {
        match self {
            EntryTypes::Post(post) => EntryTypesView::Post(post@),
            EntryTypes::PublicationRole(role) => EntryTypesView::PublicationRole(role@),
        }
    }
}

impl Clone for EntryTypes {
    fn clone(&self) -> (copy: EntryTypes)
        ensures
            copy@ == self@,
    {
        match self {
            EntryTypes::Post(post) => EntryTypes::Post(post.clone()),
            EntryTypes::PublicationRole(role) => EntryTypes::PublicationRole(role.clone()),
        }
    }
}

impl PartialEq for EntryTypes {
    fn eq(&self, other: &EntryTypes) -> (same: bool) {
        match (self, other) {
            (EntryTypes::Post(mine), EntryTypes::Post(theirs)) => *mine == *theirs,
            (EntryTypes::PublicationRole(mine), EntryTypes::PublicationRole(theirs)) => *mine
                == *theirs,
            _ => false,
        }
    }
}

impl Eq for EntryTypes {

}

impl vstd::std_specs::cmp::PartialEqSpecImpl for EntryTypes {
    open spec fn obeys_eq_spec() -> bool {
        true
    }

    open spec fn eq_spec(&self, other: &EntryTypes) -> bool {
        self@ == other@
    }
}

/// The links that this ledger declares.
#[derive(Clone, Copy, Debug, PartialEq, Eq, Structural)]
pub enum LinkTypes {
    /// From a path to a post filed under it.
    PathToPost,
}

/// What the host hands over when an agent checks itself before it joins.
#[derive(Debug)]
pub struct GenesisSelfCheckData {
    pub agent_key: AgentId,
    pub membrane_proof: Option<MembraneProof>,
}

/// The check that an agent makes on itself before it joins `network`.
pub fn genesis_self_check(data: GenesisSelfCheckData, network: &Network) -> (outcome: Result<
    Verdict,
    Fault,
>)
    ensures
        outcome == admission(data.agent_key@, data.membrane_proof, network),
{
    is_membrane_proof_valid(data.agent_key, data.membrane_proof, network)
}

/// The check that the others make on an agent that joins `network`.
pub fn validate_agent_joining(
    agent_pub_key: AgentId,
    membrane_proof: &Option<MembraneProof>,
    network: &Network,
) -> (outcome: Result<Verdict, Fault>)
    ensures
        outcome == admission(agent_pub_key@, *membrane_proof, network),
{
    check_admission(&agent_pub_key, membrane_proof, network)
}

/// The outcome for an entry that `author` brings, by a create or an update.
pub open spec fn entry_outcome(
    author: Seq<u8>,
    app_entry: &EntryTypes,
    store: StoreView,
    network: &Network,
) -> Result<Verdict, Fault> {
    match app_entry {
        EntryTypes::Post(_) => create_post_outcome(author, store, network),
        EntryTypes::PublicationRole(role) => Ok(create_role_verdict(author, role@, network)),
    }
}

/// The verdict on the mark that an update by `author` leaves on a record by
/// `original_author`.
pub open spec fn update_verdict(
    app_entry: &EntryTypes,
    original_app_entry: &EntryTypes,
    author: Seq<u8>,
    original_author: Seq<u8>,
) -> Verdict {
    match (app_entry, original_app_entry) {
        (EntryTypes::PublicationRole(_), EntryTypes::PublicationRole(_)) => Verdict::Invalid(
            Reason::RoleUpdated,
        ),
        (EntryTypes::Post(_), EntryTypes::Post(_)) => update_post_verdict(author, original_author),
        _ => Verdict::Invalid(Reason::EntryTypesDiffer),
    }
}

/// The verdict on the deletion of a record that holds `original`.
pub open spec fn delete_verdict(original: &EntryTypes) -> Verdict {
    match original {
        EntryTypes::Post(_) => Verdict::Invalid(Reason::PostDeleted),
        EntryTypes::PublicationRole(_) => Verdict::Invalid(Reason::RoleDeleted),
    }
}

/// The outcome for a record by `author` that updates the record at
/// `original` with `app_entry`.
///
/// The original must resolve, and be a create or an update. Then the new
/// entry is held to the rules for a new entry. Only if it passes is it held
/// against the original, whose entry must be of the same type.
pub open spec fn record_update_outcome(
    original: Seq<u8>,
    app_entry: &EntryTypes,
    author: Seq<u8>,
    store: StoreView,
    network: &Network,
) -> Result<Verdict, Fault> {
    match store.get(original) {
        None => Err(Fault::RecordNotFound),
        Some(record) => match record.action.entry_creation() {
            None => Ok(Verdict::Invalid(Reason::UpdateOfNonEntry)),
            Some((original_author, _)) => {
                if entry_outcome(author, app_entry, store, network) != Ok::<Verdict, Fault>(
                    Verdict::Valid,
                ) {
                    entry_outcome(author, app_entry, store, network)
                } else {
                    match (app_entry, record.entry) {
                        (EntryTypes::Post(_), RecordEntry::Post(_)) => Ok(
                            update_post_verdict(author, original_author),
                        ),
                        (EntryTypes::PublicationRole(_), RecordEntry::PublicationRole(_)) => Ok(
                            Verdict::Invalid(Reason::RoleUpdated),
                        ),
                        _ => Ok(Verdict::Invalid(Reason::EntryTypesDiffer)),
                    }
                }
            },
        },
    }
}

/// The outcome for a record that deletes the record at `original`.
///
/// The original must resolve, and be a create or an update. What is not an
/// application's entry is not this ledger's to judge. An entry of this
/// ledger cannot be deleted, whichever it is.
pub open spec fn record_delete_outcome(original: Seq<u8>, store: StoreView) -> Result<
    Verdict,
    Fault,
> {
    match store.get(original) {
        None => Err(Fault::RecordNotFound),
        Some(record) => match record.action.entry_creation() {
            None => Ok(Verdict::Invalid(Reason::DeleteOfNonEntry)),
            Some((_, EntryType::App(visibility))) => match record.entry {
                RecordEntry::Absent => if visibility == EntryVisibility::Public {
                    Ok(Verdict::Invalid(Reason::OriginalEntryMissing))
                } else {
                    Ok(Verdict::Valid)
                },
                RecordEntry::Undeclared => Ok(Verdict::Invalid(Reason::OriginalEntryUndeclared)),
                RecordEntry::Undecodable => Ok(Verdict::Invalid(Reason::EntryTypesDiffer)),
                RecordEntry::Post(_) => Ok(Verdict::Invalid(Reason::PostDeleted)),
                RecordEntry::PublicationRole(_) => Ok(Verdict::Invalid(Reason::RoleDeleted)),
            },
            Some(_) => Ok(Verdict::Valid),
        },
    }
}

/// The outcome for a record that deletes the link created at `original`.
pub open spec fn record_delete_link_outcome(original: Seq<u8>, store: StoreView) -> Result<
    Verdict,
    Fault,
> {
    match store.get(original) {
        None => Err(Fault::RecordNotFound),
        Some(record) => match record.action {
            Action::CreateLink(create_link) => match create_link.link_type {
                None => Ok(Verdict::Valid),
                Some(LinkTypes::PathToPost) => Ok(Verdict::Invalid(Reason::LinkDeleted)),
            },
            _ => Ok(Verdict::Invalid(Reason::DeletedLinkNotALink)),
        },
    }
}

/// The outcome for the entry of `agent`, whose action follows the one at
/// `prev_action`: that one must be the admission package, and what it
/// carries must admit the agent.
pub open spec fn join_outcome(
    agent: Seq<u8>,
    prev_action: Seq<u8>,
    store: StoreView,
    network: &Network,
) -> Result<Verdict, Fault> {
    match store.get(prev_action) {
        None => Err(Fault::RecordNotFound),
        Some(record) => match record.action {
            Action::AgentValidationPkg(package) => admission(
                agent,
                package.membrane_proof,
                network,
            ),
            _ => Ok(Verdict::Invalid(Reason::MalformedJoinSequence)),
        },
    }
}

/// The outcome for the storing of a record.
pub open spec fn record_outcome(record: &OpRecord, store: StoreView, network: &Network) -> Result<
    Verdict,
    Fault,
> {
    match record {
        OpRecord::CreateEntry { app_entry, action } => entry_outcome(
            action.author@,
            app_entry,
            store,
            network,
        ),
        OpRecord::UpdateEntry { original_action_hash, app_entry, action } => record_update_outcome(
            original_action_hash@,
            app_entry,
            action.author@,
            store,
            network,
        ),
        OpRecord::DeleteEntry { original_action_hash, .. } => record_delete_outcome(
            original_action_hash@,
            store,
        ),
        OpRecord::CreateLink { target_address, .. } => create_link_outcome(target_address@, store),
        OpRecord::DeleteLink { original_action_hash, .. } => record_delete_link_outcome(
            original_action_hash@,
            store,
        ),
        OpRecord::Other => Ok(Verdict::Valid),
    }
}

/// The outcome of the rules on `op`, given what `store` resolves and how
/// `network` is configured. It depends on nothing else.
pub open spec fn outcome(op: &Op, store: StoreView, network: &Network) -> Result<
    Verdict,
    Fault,
> {
    match op {
        Op::StoreEntry(OpEntry::CreateEntry { app_entry, action }) => entry_outcome(
            action.author@,
            app_entry,
            store,
            network,
        ),
        Op::StoreEntry(OpEntry::UpdateEntry { app_entry, action }) => entry_outcome(
            action.author@,
            app_entry,
            store,
            network,
        ),
        Op::StoreEntry(OpEntry::Other) => Ok(Verdict::Valid),
        Op::RegisterUpdate(
            OpUpdate::Entry { original_action, original_app_entry, app_entry, action },
        ) => Ok(
            update_verdict(app_entry, original_app_entry, action.author@, original_action.author()@),
        ),
        Op::RegisterUpdate(OpUpdate::Other) => Ok(Verdict::Valid),
        Op::RegisterDelete(OpDelete::Entry { original_app_entry, .. }) => Ok(
            delete_verdict(original_app_entry),
        ),
        Op::RegisterDelete(OpDelete::Other) => Ok(Verdict::Valid),
        Op::RegisterCreateLink { target_address, .. } => create_link_outcome(
            target_address@,
            store,
        ),
        Op::RegisterDeleteLink { .. } => Ok(Verdict::Invalid(Reason::LinkDeleted)),
        Op::StoreRecord(record) => record_outcome(record, store, network),
        Op::RegisterAgentActivity(OpActivity::CreateAgent { agent, action }) => join_outcome(
            agent@,
            action.prev_action@,
            store,
            network,
        ),
        Op::RegisterAgentActivity(OpActivity::Other) => Ok(Verdict::Valid),
    }
}

/// Holds a record that updates the record at `original_action_hash` to the
/// rules.
pub fn validate_record_update(
    original_action_hash: Address,
    app_entry: EntryTypes,
    action: Update,
    store: &RecordStore,
    network: &Network,
) -> (result: Result<Verdict, Fault>)
    ensures
        result == record_update_outcome(
            original_action_hash@,
            &app_entry,
            action.author@,
            store@,
            network,
        ),
{
    let original_record = match store.must_get(&original_action_hash) {
        Ok(record) => record,
        Err(fault) => {
            return Err(fault);
        },
    };
    let original_action = match original_record.action.as_entry_creation() {
        Some(creation) => creation,
        None => {
            return Ok(Verdict::Invalid(Reason::UpdateOfNonEntry));
        },
    };
    match app_entry {
        EntryTypes::Post(post) => {
            let created = validate_create_post(
                EntryCreationAction::Update(action.clone()),
                post.clone(),
                store,
                network,
            );
            match created {
                Ok(Verdict::Valid) => match &original_record.entry {
                    RecordEntry::Post(original_post) => validate_update_post(
                        action,
                        post,
                        original_action,
                        original_post.clone(),
                    ),
                    _ => Ok(Verdict::Invalid(Reason::EntryTypesDiffer)),
                },
                _ => created,
            }
        },
        EntryTypes::PublicationRole(publication_role) => {
            let created = validate_create_publication_role(
                EntryCreationAction::Update(action.clone()),
                publication_role.clone(),
                network,
            );
            match created {
                Ok(Verdict::Valid) => match &original_record.entry {
                    RecordEntry::PublicationRole(original_publication_role) => {
                        validate_update_publication_role(
                            action,
                            publication_role,
                            original_action,
                            original_publication_role.clone(),
                        )
                    },
                    _ => Ok(Verdict::Invalid(Reason::EntryTypesDiffer)),
                },
                _ => created,
            }
        },
    }
}

/// Holds a record that deletes the record at `original_action_hash` to the
/// rules.
pub fn validate_record_delete(
    original_action_hash: Address,
    action: Delete,
    store: &RecordStore,
) -> (result: Result<Verdict, Fault>)
    ensures
        result == record_delete_outcome(original_action_hash@, store@),
{
    let original_record = match store.must_get(&original_action_hash) {
        Ok(record) => record,
        Err(fault) => {
            return Err(fault);
        },
    };
    let original_action = match original_record.action.as_entry_creation() {
        Some(creation) => creation,
        None => {
            return Ok(Verdict::Invalid(Reason::DeleteOfNonEntry));
        },
    };
    let visibility = match original_action.entry_type() {
        EntryType::App(visibility) => visibility,
        _ => {
            return Ok(Verdict::Valid);
        },
    };
    match &original_record.entry {
        RecordEntry::Absent => match visibility {
            EntryVisibility::Public => Ok(Verdict::Invalid(Reason::OriginalEntryMissing)),
            EntryVisibility::Private => Ok(Verdict::Valid),
        },
        RecordEntry::Undeclared => Ok(Verdict::Invalid(Reason::OriginalEntryUndeclared)),
        RecordEntry::Undecodable => Ok(Verdict::Invalid(Reason::EntryTypesDiffer)),
        RecordEntry::Post(original_post) => validate_delete_post(
            action,
            original_action,
            original_post.clone(),
        ),
        RecordEntry::PublicationRole(original_publication_role) => validate_delete_publication_role(
            action,
            original_action,
            original_publication_role.clone(),
        ),
    }
}

/// Holds a record that deletes the link created at `original_action_hash` to
/// the rules.
pub fn validate_record_delete_link(
    original_action_hash: Address,
    base_address: Address,
    action: DeleteLink,
    store: &RecordStore,
) -> (result: Result<Verdict, Fault>)
    ensures
        result == record_delete_link_outcome(original_action_hash@, store@),
{
    let record = match store.must_get(&original_action_hash) {
        Ok(record) => record,
        Err(fault) => {
            return Err(fault);
        },
    };
    let create_link = match &record.action {
        Action::CreateLink(create_link) => create_link.clone(),
        _ => {
            return Ok(Verdict::Invalid(Reason::DeletedLinkNotALink));
        },
    };
    match create_link.link_type {
        None => Ok(Verdict::Valid),
        Some(LinkTypes::PathToPost) => {
            let target = create_link.target_address.clone();
            let tag = create_link.tag.clone();
            validate_delete_link_all_posts(action, create_link, base_address, target, tag)
        },
    }
}

/// Holds the entry of `agent` into the network to the rules.
pub fn validate_create_agent(
    agent: AgentId,
    action: Create,
    store: &RecordStore,
    network: &Network,
) -> (result: Result<Verdict, Fault>)
    ensures
        result == join_outcome(agent@, action.prev_action@, store@, network),
{
    let previous = match store.must_get(&action.prev_action) {
        Ok(record) => record,
        Err(fault) => {
            return Err(fault);
        },
    };
    match &previous.action {
        Action::AgentValidationPkg(package) => validate_agent_joining(
            agent,
            &package.membrane_proof,
            network,
        ),
        _ => Ok(Verdict::Invalid(Reason::MalformedJoinSequence)),
    }
}

/// Decides whether `op` is permitted. The store and the network are only
/// read, so the same operation on the same store has the same outcome,
/// whoever asks.
pub fn validate(op: Op, store: &RecordStore, network: &Network) -> (result: Result<Verdict, Fault>)
    ensures
        result == outcome(&op, store@, network),
{
    match op {
        Op::StoreEntry(store_entry) => match store_entry {
            OpEntry::CreateEntry { app_entry, action } => match app_entry {
                EntryTypes::Post(post) => validate_create_post(
                    EntryCreationAction::Create(action),
                    post,
                    store,
                    network,
                ),
                EntryTypes::PublicationRole(publication_role) => validate_create_publication_role(
                    EntryCreationAction::Create(action),
                    publication_role,
                    network,
                ),
            },
            OpEntry::UpdateEntry { app_entry, action } => match app_entry {
                EntryTypes::Post(post) => validate_create_post(
                    EntryCreationAction::Update(action),
                    post,
                    store,
                    network,
                ),
                EntryTypes::PublicationRole(publication_role) => validate_create_publication_role(
                    EntryCreationAction::Update(action),
                    publication_role,
                    network,
                ),
            },
            OpEntry::Other => Ok(Verdict::Valid),
        },
        Op::RegisterUpdate(update_entry) => match update_entry {
            OpUpdate::Entry { original_action, original_app_entry, app_entry, action } => match (
                app_entry,
                original_app_entry,
            ) {
                (
                    EntryTypes::PublicationRole(publication_role),
                    EntryTypes::PublicationRole(original_publication_role),
                ) => validate_update_publication_role(
                    action,
                    publication_role,
                    original_action,
                    original_publication_role,
                ),
                (EntryTypes::Post(post), EntryTypes::Post(original_post)) => validate_update_post(
                    action,
                    post,
                    original_action,
                    original_post,
                ),
                _ => Ok(Verdict::Invalid(Reason::EntryTypesDiffer)),
            },
            OpUpdate::Other => Ok(Verdict::Valid),
        },
        Op::RegisterDelete(delete_entry) => match delete_entry {
            OpDelete::Entry { original_action, original_app_entry, action } => match original_app_entry {
                EntryTypes::Post(post) => validate_delete_post(action, original_action, post),
                EntryTypes::PublicationRole(publication_role) => validate_delete_publication_role(
                    action,
                    original_action,
                    publication_role,
                ),
            },
            OpDelete::Other => Ok(Verdict::Valid),
        },
        Op::RegisterCreateLink { link_type, base_address, target_address, tag, action } => match link_type {
            LinkTypes::PathToPost => validate_create_link_all_posts(
                action,
                base_address,
                target_address,
                tag,
                store,
            ),
        },
        Op::RegisterDeleteLink {
            link_type,
            base_address,
            target_address,
            tag,
            original_action,
            action,
        } => match link_type {
            LinkTypes::PathToPost => validate_delete_link_all_posts(
                action,
                original_action,
                base_address,
                target_address,
                tag,
            ),
        },
        Op::StoreRecord(store_record) => match store_record {
            OpRecord::CreateEntry { app_entry, action } => match app_entry {
                EntryTypes::Post(post) => validate_create_post(
                    EntryCreationAction::Create(action),
                    post,
                    store,
                    network,
                ),
                EntryTypes::PublicationRole(publication_role) => validate_create_publication_role(
                    EntryCreationAction::Create(action),
                    publication_role,
                    network,
                ),
            },
            OpRecord::UpdateEntry { original_action_hash, app_entry, action } => {
                validate_record_update(original_action_hash, app_entry, action, store, network)
            },
            OpRecord::DeleteEntry { original_action_hash, action } => validate_record_delete(
                original_action_hash,
                action,
                store,
            ),
            OpRecord::CreateLink { base_address, target_address, tag, link_type, action } => match link_type {
                LinkTypes::PathToPost => validate_create_link_all_posts(
                    action,
                    base_address,
                    target_address,
                    tag,
                    store,
                ),
            },
            OpRecord::DeleteLink { original_action_hash, base_address, action } => {
                validate_record_delete_link(original_action_hash, base_address, action, store)
            },
            OpRecord::Other => Ok(Verdict::Valid),
        },
        Op::RegisterAgentActivity(agent_activity) => match agent_activity {
            OpActivity::CreateAgent { agent, action } => validate_create_agent(
                agent,
                action,
                store,
                network,
            ),
            OpActivity::Other => Ok(Verdict::Valid),
        },
    }
}

} // verus!
