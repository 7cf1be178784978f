//! What holds of the rules as a whole.
//!
//! Each statement here is about every store, every network and every
//! operation of the shape it names, and is proved from the definitions that
//! the checks themselves are proved against.

use vstd::prelude::*;
use crate::action::{Action, EntryType};
use crate::membrane::{admission, proof_admits, MembraneProof, SignatureCheck};
use crate::op::{Op, OpActivity, OpDelete, OpEntry, OpRecord, OpUpdate};
use crate::post::may_post;
use crate::properties::Network;
use crate::publication_role::{editor, editor_role};
use crate::record::{first_at, lemma_lookup_first, Record, StoreView};
use crate::verdict::{Fault, Reason, Verdict};
use crate::{entry_outcome, outcome, EntryTypes, EntryTypesView, LinkTypes};

verus! {

/// The author of `op`, where `op` stores a new post: as a record or as an
/// entry, by a create or by an update.
pub open spec fn post_author(op: &Op) -> Option<Seq<u8>> {
    match op {
        Op::StoreEntry(OpEntry::CreateEntry { app_entry: EntryTypes::Post(_), action }) => Some(
            action.author@,
        ),
        Op::StoreEntry(OpEntry::UpdateEntry { app_entry: EntryTypes::Post(_), action }) => Some(
            action.author@,
        ),
        Op::StoreRecord(OpRecord::CreateEntry { app_entry: EntryTypes::Post(_), action }) => Some(
            action.author@,
        ),
        _ => None,
    }
}

/// The author and the role of `op`, where `op` stores a new role: as a
/// record or as an entry, by a create or by an update.
pub open spec fn role_author(op: &Op) -> Option<(Seq<u8>, crate::PublicationRoleView)> {
    match op {
        Op::StoreEntry(
            OpEntry::CreateEntry { app_entry: EntryTypes::PublicationRole(role), action },
        ) => Some((action.author@, role@)),
        Op::StoreEntry(
            OpEntry::UpdateEntry { app_entry: EntryTypes::PublicationRole(role), action },
        ) => Some((action.author@, role@)),
        Op::StoreRecord(
            OpRecord::CreateEntry { app_entry: EntryTypes::PublicationRole(role), action },
        ) => Some((action.author@, role@)),
        _ => None,
    }
}

/// The target of `op`, where `op` creates a link to a post.
pub open spec fn link_target(op: &Op) -> Option<Seq<u8>> {
    match op {
        Op::RegisterCreateLink { target_address, .. } => Some(target_address@),
        Op::StoreRecord(OpRecord::CreateLink { target_address, .. }) => Some(target_address@),
        _ => None,
    }
}

/// A record holds an entry of this ledger only under an action that brings
/// an application's entry.
pub open spec fn consistent(record: &Record) -> bool {
    record.entry.declared() is Some ==> record.action.entry_creation() matches Some(
        (_, EntryType::App(_)),
    )
}

/// Without a role, no post. An agent that is not the progenitor, and for
/// whom the store resolves no editor role, cannot have a post accepted: the
/// check ends in the fault that says the role was not found.
pub proof fn law_post_needs_role(op: &Op, store: StoreView, network: &Network)
    requires
        post_author(op) matches Some(author) && author != network.properties.progenitor@
            && !store.has_entry(EntryTypesView::PublicationRole(editor_role(author))),
    ensures
        outcome(op, store, network) == Err::<Verdict, Fault>(Fault::RoleNotFound),
{
}

/// With a role, a post. Whoever the store resolves an editor role for has
/// every post accepted, and so has the progenitor without one.
pub proof fn law_editor_may_post(op: &Op, store: StoreView, network: &Network)
    requires
        post_author(op) matches Some(author) && (author == network.properties.progenitor@
            || store.has_entry(EntryTypesView::PublicationRole(editor_role(author)))),
    ensures
        outcome(op, store, network) == Ok::<Verdict, Fault>(Verdict::Valid),
{
}

/// Only the author updates. The mark that an update of a post leaves on the
/// original is valid exactly if both have the same author, whatever the two
/// posts say.
pub proof fn law_update_by_author_only(op: &Op, store: StoreView, network: &Network)
    requires
        op matches Op::RegisterUpdate(
            OpUpdate::Entry {
                app_entry: EntryTypes::Post(_),
                original_app_entry: EntryTypes::Post(_),
                ..
            },
        ),
    ensures
        op matches Op::RegisterUpdate(OpUpdate::Entry { original_action, action, .. }) && outcome(
            op,
            store,
            network,
        ) == Ok::<Verdict, Fault>(
            if original_action.author()@ == action.author@ {
                Verdict::Valid
            } else {
                Verdict::Invalid(Reason::UpdateNotByAuthor)
            },
        ),
{
}

/// Only the author updates, as a record too. A record that updates a post of
/// another author is never valid: it is invalid where its own author may
/// post, and ends in a fault where the author's role does not resolve.
pub proof fn law_record_update_by_author_only(
    op: &Op,
    original: &Record,
    store: StoreView,
    network: &Network,
)
    requires
        ({
            &&& op matches Op::StoreRecord(
                OpRecord::UpdateEntry {
                    original_action_hash,
                    app_entry: EntryTypes::Post(_),
                    action,
                },
            )
            &&& store.get(original_action_hash@) == Some(*original)
            &&& original.entry is Post
            &&& original.action.entry_creation() matches Some((original_author, _))
            &&& original_author != action.author@
        }),
    ensures
        outcome(op, store, network) != Ok::<Verdict, Fault>(Verdict::Valid),
        op matches Op::StoreRecord(OpRecord::UpdateEntry { action, .. }) && outcome(
            op,
            store,
            network,
        ) == (if may_post(action.author@, store, network) {
            Ok::<Verdict, Fault>(Verdict::Invalid(Reason::UpdateNotByAuthor))
        } else {
            Err::<Verdict, Fault>(Fault::RoleNotFound)
        }),
{
}

/// Posts stay. The mark that a delete leaves on a post is invalid.
pub proof fn law_post_delete_is_invalid(op: &Op, store: StoreView, network: &Network)
    requires
        op matches Op::RegisterDelete(
            OpDelete::Entry { original_app_entry: EntryTypes::Post(_), .. },
        ),
    ensures
        outcome(op, store, network) == Ok::<Verdict, Fault>(Verdict::Invalid(Reason::PostDeleted)),
{
}

/// Posts stay, as a record too. A record that deletes a record which the
/// store resolves to a post is invalid.
pub proof fn law_record_post_delete_is_invalid(
    op: &Op,
    original: &Record,
    store: StoreView,
    network: &Network,
)
    requires
        op matches Op::StoreRecord(OpRecord::DeleteEntry { original_action_hash, .. })
            && store.get(original_action_hash@) == Some(*original),
        original.entry is Post,
        consistent(original),
    ensures
        outcome(op, store, network) == Ok::<Verdict, Fault>(Verdict::Invalid(Reason::PostDeleted)),
{
}

/// Nothing that this ledger declares can be deleted. A record that deletes a
/// record which the store resolves to a post or a role is invalid.
pub proof fn law_declared_entries_stay(
    op: &Op,
    original: &Record,
    store: StoreView,
    network: &Network,
)
    requires
        op matches Op::StoreRecord(OpRecord::DeleteEntry { original_action_hash, .. })
            && store.get(original_action_hash@) == Some(*original),
        original.entry.declared() is Some,
        consistent(original),
    ensures
        outcome(op, store, network) matches Ok(Verdict::Invalid(_)),
{
}

/// A link to a post points at a post. It is valid exactly if the store
/// resolves its target to a record that holds a post. Where the target
/// resolves to anything else it is invalid, and where the target does not
/// resolve the check ends in a fault.
pub proof fn law_link_points_at_post(op: &Op, store: StoreView, network: &Network)
    requires
        link_target(op) is Some,
    ensures
        outcome(op, store, network) == Ok::<Verdict, Fault>(Verdict::Valid) <==> (store.get(
            link_target(op)->0,
        ) matches Some(record) && record.entry is Post),
        store.get(link_target(op)->0) is None <==> outcome(op, store, network) == Err::<
            Verdict,
            Fault,
        >(Fault::RecordNotFound),
        (store.get(link_target(op)->0) matches Some(record) && !(record.entry is Post))
            <==> outcome(op, store, network) == Ok::<Verdict, Fault>(
            Verdict::Invalid(Reason::LinkTargetNotPost),
        ),
{
}

/// Links to posts stay. The mark that a link deletion leaves is invalid.
pub proof fn law_link_delete_is_invalid(op: &Op, store: StoreView, network: &Network)
    requires
        op is RegisterDeleteLink,
    ensures
        outcome(op, store, network) == Ok::<Verdict, Fault>(Verdict::Invalid(Reason::LinkDeleted)),
{
}

/// Links to posts stay, as a record too. A record that deletes what the
/// store resolves to the creation of a link to a post is invalid.
pub proof fn law_record_link_delete_is_invalid(
    op: &Op,
    original: &Record,
    store: StoreView,
    network: &Network,
)
    requires
        op matches Op::StoreRecord(OpRecord::DeleteLink { original_action_hash, .. })
            && store.get(original_action_hash@) == Some(*original),
        original.action matches Action::CreateLink(create_link) && create_link.link_type == Some(
            LinkTypes::PathToPost,
        ),
    ensures
        outcome(op, store, network) == Ok::<Verdict, Fault>(Verdict::Invalid(Reason::LinkDeleted)),
{
}

/// Roles come from the progenitor. A new role is valid exactly if it is
/// named `editor` and the progenitor wrote it. Another name is reported
/// before another author.
pub proof fn law_role_by_progenitor_only(op: &Op, store: StoreView, network: &Network)
    requires
        role_author(op) is Some,
    ensures
        ({
            let (author, role) = role_author(op)->0;
            &&& outcome(op, store, network) == Ok::<Verdict, Fault>(Verdict::Valid) <==> (role.role
                == editor() && author == network.properties.progenitor@)
            &&& role.role != editor() ==> outcome(op, store, network) == Ok::<Verdict, Fault>(
                Verdict::Invalid(Reason::RoleNotEditor),
            )
            &&& role.role == editor() && author != network.properties.progenitor@ ==> outcome(
                op,
                store,
                network,
            ) == Ok::<Verdict, Fault>(Verdict::Invalid(Reason::RoleNotByProgenitor))
        }),
{
}

/// Roles stay as they are. The mark that an update leaves on a role, and the
/// mark that a delete leaves on one, are invalid.
pub proof fn law_roles_are_permanent(op: &Op, store: StoreView, network: &Network)
    requires
        op matches Op::RegisterUpdate(
            OpUpdate::Entry {
                app_entry: EntryTypes::PublicationRole(_),
                original_app_entry: EntryTypes::PublicationRole(_),
                ..
            },
        ) || op matches Op::RegisterDelete(
            OpDelete::Entry { original_app_entry: EntryTypes::PublicationRole(_), .. },
        ),
    ensures
        outcome(op, store, network) == Ok::<Verdict, Fault>(
            Verdict::Invalid(
                if op is RegisterUpdate {
                    Reason::RoleUpdated
                } else {
                    Reason::RoleDeleted
                },
            ),
        ),
{
}

/// Who is admitted. An agent is admitted exactly if it is the progenitor, or
/// brings a proof that the progenitor wrote and signed, for this network, to
/// this agent. The order of the checks decides what is reported, never
/// whether the agent is admitted.
pub proof fn law_admission(
    for_agent: Seq<u8>,
    membrane_proof: Option<MembraneProof>,
    network: &Network,
)
    ensures
        admission(for_agent, membrane_proof, network) == Ok::<Verdict, Fault>(Verdict::Valid) <==> (
        for_agent == network.properties.progenitor@ || (membrane_proof matches Some(proof)
            && proof_admits(&proof, for_agent, network))),
{
}

/// The progenitor needs no proof, and no proof can keep it out.
pub proof fn law_progenitor_is_admitted(membrane_proof: Option<MembraneProof>, network: &Network)
    ensures
        admission(network.properties.progenitor@, membrane_proof, network) == Ok::<
            Verdict,
            Fault,
        >(Verdict::Valid),
{
}

/// Nobody joins without admission. The entry of an agent is valid exactly
/// if the action before it is an admission package, and the agent is the
/// progenitor or the package carries a proof that admits it.
pub proof fn law_join_needs_admission(op: &Op, store: StoreView, network: &Network)
    requires
        op matches Op::RegisterAgentActivity(OpActivity::CreateAgent { .. }),
    ensures
        op matches Op::RegisterAgentActivity(OpActivity::CreateAgent { agent, action }) && (outcome(
            op,
            store,
            network,
        ) == Ok::<Verdict, Fault>(Verdict::Valid) <==> {
            &&& store.get(action.prev_action@) matches Some(record)
            &&& record.action matches Action::AgentValidationPkg(package)
            &&& (agent@ == network.properties.progenitor@ || (
            package.membrane_proof matches Some(proof) && proof_admits(&proof, agent@, network)))
        }),
{
}

/// What keeps an agent out. For an agent other than the progenitor: no
/// proof, a proof by another author, a proof whose signature is rejected, a
/// proof for another network and a proof for another agent each end in a
/// verdict, and the verdict is invalid.
pub proof fn law_admission_refusals(
    for_agent: Seq<u8>,
    membrane_proof: Option<MembraneProof>,
    network: &Network,
)
    requires
        for_agent != network.properties.progenitor@,
    ensures
        membrane_proof is None ==> admission(for_agent, membrane_proof, network) == Ok::<
            Verdict,
            Fault,
        >(Verdict::Invalid(Reason::NoMembraneProof)),
        membrane_proof matches Some(MembraneProof::Record(record)) ==> {
            &&& record.author@ != network.properties.progenitor@ || record.signature
                == SignatureCheck::Rejected ==> admission(for_agent, membrane_proof, network)
                == Ok::<Verdict, Fault>(Verdict::Invalid(Reason::AuthorSignatureMismatch))
            &&& record.signature != SignatureCheck::Unavailable && (record.entry matches Some(
                entry,
            ) ==> entry.dna_hash@ != network.id@ || entry.recipient@ != for_agent)
                ==> admission(for_agent, membrane_proof, network) matches Ok(Verdict::Invalid(_))
        },
{
}

/// A record that resolves keeps resolving, to the same record, in every
/// store that extends this one.
pub proof fn lemma_lookup_is_stable(earlier: StoreView, later: StoreView, hash: Seq<u8>)
    requires
        later.extends(earlier),
        earlier.get(hash) is Some,
    ensures
        later.get(hash) == earlier.get(hash),
{
    let i = choose|i: int| first_at(earlier.records, hash, i);
    assert(first_at(earlier.records, hash, i));
    assert forall|j: int| 0 <= j <= i implies (#[trigger] later.records[j])
        == earlier.records[j] by {}
    assert(first_at(later.records, hash, i));
    lemma_lookup_first(later.records, hash, i);
    lemma_lookup_first(earlier.records, hash, i);
}

/// An entry that resolves keeps resolving in every store that extends this
/// one.
pub proof fn lemma_entry_is_stable(
    earlier: StoreView,
    later: StoreView,
    entry: EntryTypesView,
)
    requires
        later.extends(earlier),
        earlier.has_entry(entry),
    ensures
        later.has_entry(entry),
{
    if exists|i: int|
        0 <= i < earlier.records.len() && (#[trigger] earlier.records[i]).entry.declared()
            == Some(entry) {
        let i = choose|i: int|
            0 <= i < earlier.records.len() && (#[trigger] earlier.records[i]).entry.declared()
                == Some(entry);
        assert(later.records[i] == earlier.records[i]);
    } else {
        let j = choose|j: int|
            0 <= j < earlier.entries.len() && (#[trigger] earlier.entries[j])@ == entry;
        assert(later.entries[j] == earlier.entries[j]);
    }
}

/// Verdicts are permanent. Once the rules have come to a verdict on an
/// operation, valid or invalid, they come to the same verdict in every store
/// that holds all of this one and more. Only a fault may give way to a
/// verdict, when what was missing arrives.
pub proof fn law_verdicts_are_permanent(
    op: &Op,
    earlier: StoreView,
    later: StoreView,
    network: &Network,
)
    requires
        later.extends(earlier),
        outcome(op, earlier, network) is Ok,
    ensures
        outcome(op, later, network) == outcome(op, earlier, network),
{
    match op {
        Op::StoreEntry(OpEntry::CreateEntry { app_entry, action }) => {
            lemma_entry_outcome_is_stable(action.author@, app_entry, earlier, later, network);
        },
        Op::StoreEntry(OpEntry::UpdateEntry { app_entry, action }) => {
            lemma_entry_outcome_is_stable(action.author@, app_entry, earlier, later, network);
        },
        Op::RegisterCreateLink { target_address, .. } => {
            lemma_lookup_is_stable(earlier, later, target_address@);
        },
        Op::StoreRecord(OpRecord::CreateEntry { app_entry, action }) => {
            lemma_entry_outcome_is_stable(action.author@, app_entry, earlier, later, network);
        },
        Op::StoreRecord(OpRecord::UpdateEntry { original_action_hash, app_entry, action }) => {
            lemma_lookup_is_stable(earlier, later, original_action_hash@);
            if earlier.get(original_action_hash@)->0.action.entry_creation() is Some {
                lemma_entry_outcome_is_stable(action.author@, app_entry, earlier, later, network);
            }
        },
        Op::StoreRecord(OpRecord::DeleteEntry { original_action_hash, .. }) => {
            lemma_lookup_is_stable(earlier, later, original_action_hash@);
        },
        Op::StoreRecord(OpRecord::CreateLink { target_address, .. }) => {
            lemma_lookup_is_stable(earlier, later, target_address@);
        },
        Op::StoreRecord(OpRecord::DeleteLink { original_action_hash, .. }) => {
            lemma_lookup_is_stable(earlier, later, original_action_hash@);
        },
        Op::RegisterAgentActivity(OpActivity::CreateAgent { action, .. }) => {
            lemma_lookup_is_stable(earlier, later, action.prev_action@);
        },
        _ => {},
    }
}

/// The outcome for a new entry, once it is a verdict, is the same in every
/// store that extends this one.
pub proof fn lemma_entry_outcome_is_stable(
    author: Seq<u8>,
    app_entry: &EntryTypes,
    earlier: StoreView,
    later: StoreView,
    network: &Network,
)
    requires
        later.extends(earlier),
        entry_outcome(author, app_entry, earlier, network) is Ok,
    ensures
        entry_outcome(author, app_entry, later, network) == entry_outcome(
            author,
            app_entry,
            earlier,
            network,
        ),
{
    if app_entry is Post && author != network.properties.progenitor@ {
        lemma_entry_is_stable(
            earlier,
            later,
            EntryTypesView::PublicationRole(editor_role(author)),
        );
    }
}

} // verus!
