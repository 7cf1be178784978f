//! The ledger as a whole: what holds of every history that the rules let
//! come about.
//!
//! A history is the records of a ledger in the order in which they were
//! stored. The host stores a record only if the rules find the storing of it
//! valid against the records before it. Of every history that came about in
//! this way the statements below hold, whatever was tried along the way.

use vstd::prelude::*;
use crate::action::Action;
use crate::laws::consistent;
use crate::op::{Op, OpRecord};
use crate::properties::Network;
use crate::publication_role::{editor, editor_role};
use crate::record::{first_at, Record, RecordEntry, StoreView};
use crate::verdict::{Fault, Verdict};
use crate::{outcome, EntryTypes, EntryTypesView, LinkTypes};

verus! {

/// The entry of a record as one of the declared types, where it is one.
pub open spec fn app_entry(entry: RecordEntry) -> Option<EntryTypes> {
    match entry {
        RecordEntry::Post(post) => Some(EntryTypes::Post(post)),
        RecordEntry::PublicationRole(role) => Some(EntryTypes::PublicationRole(role)),
        _ => None,
    }
}

/// The operation by which `record` is stored. A record whose entry is filed
/// under a declared type and does not decode is stored by no operation.
pub open spec fn storing(record: Record) -> Option<Op> {
    if record.entry is Undecodable {
        None
    } else {
        Some(
            Op::StoreRecord(
                match record.action {
                    Action::Create(action) => match app_entry(record.entry) {
                        Some(entry) => OpRecord::CreateEntry { app_entry: entry, action },
                        None => OpRecord::Other,
                    },
                    Action::Update(action) => match app_entry(record.entry) {
                        Some(entry) => OpRecord::UpdateEntry {
                            original_action_hash: action.original_action_address,
                            app_entry: entry,
                            action,
                        },
                        None => OpRecord::Other,
                    },
                    Action::Delete(action) => OpRecord::DeleteEntry {
                        original_action_hash: action.deletes_address,
                        action,
                    },
                    Action::CreateLink(action) => match action.link_type {
                        Some(link_type) => OpRecord::CreateLink {
                            base_address: action.base_address,
                            target_address: action.target_address,
                            tag: action.tag,
                            link_type,
                            action,
                        },
                        None => OpRecord::Other,
                    },
                    Action::DeleteLink(action) => OpRecord::DeleteLink {
                        original_action_hash: action.link_add_address,
                        base_address: action.base_address,
                        action,
                    },
                    _ => OpRecord::Other,
                },
            ),
        )
    }
}

/// The ledger as it was before the record at `i` was stored.
pub open spec fn before(history: Seq<Record>, i: int) -> StoreView {
    StoreView { records: history.take(i), entries: Seq::empty() }
}

/// Whether the record at `i` was stored by the rules' leave: the storing of
/// it was valid against the records before it.
pub open spec fn accepted_at(history: Seq<Record>, i: int, network: &Network) -> bool {
    storing(history[i]) matches Some(op) && outcome(&op, before(history, i), network) == Ok::<
        Verdict,
        Fault,
    >(Verdict::Valid)
}

/// Whether every record of `history` was stored by the rules' leave, and
/// holds an entry only under an action that brings one.
pub open spec fn accepted(history: Seq<Record>, network: &Network) -> bool {
    forall|i: int|
        0 <= i < history.len() ==> #[trigger] accepted_at(history, i, network) && consistent(
            &history[i],
        )
}

/// What the ledger resolved before `i`, it resolved from a record before `i`.
pub proof fn lemma_before_resolves(history: Seq<Record>, i: int, hash: Seq<u8>)
    requires
        0 <= i <= history.len(),
        before(history, i).get(hash) is Some,
    ensures
        exists|j: int|
            0 <= j < i && first_at(history, hash, j) && before(history, i).get(hash) == Some(
                #[trigger] history[j],
            ),
{
    let records = history.take(i);
    let j = choose|j: int| first_at(records, hash, j);
    assert(first_at(records, hash, j));
    assert forall|k: int| 0 <= k < j implies (#[trigger] history[k]).hash@ != hash by {
        assert(records[k] == history[k]);
    }
    assert(records[j] == history[j]);
    assert(first_at(history, hash, j));
}

/// Every post had its leave. In an accepted history, whoever wrote a post
/// was the progenitor, or had been made an editor by a record before it.
pub proof fn law_posts_are_authorized(history: Seq<Record>, i: int, network: &Network)
    requires
        accepted(history, network),
        0 <= i < history.len(),
        history[i].entry is Post,
    ensures
        history[i].action.entry_creation() matches Some((author, _)) && (author
            == network.properties.progenitor@ || exists|j: int|
            0 <= j < i && (#[trigger] history[j]).entry.declared() == Some(
                EntryTypesView::PublicationRole(editor_role(author)),
            )),
{
    assert(accepted_at(history, i, network));
    let (author, _) = history[i].action.entry_creation().unwrap();
    let store = before(history, i);
    let role = EntryTypesView::PublicationRole(editor_role(author));
    if author != network.properties.progenitor@ {
        assert(store.has_entry(role));
        let j = choose|j: int|
            0 <= j < store.records.len() && (#[trigger] store.records[j]).entry.declared() == Some(
                role,
            );
        assert(store.records[j] == history[j]);
    }
}

/// Every role is the progenitor's word. In an accepted history, every role
/// is an editor role, was written by the progenitor, and was created, not
/// put in the place of another record.
pub proof fn law_roles_are_the_progenitors(history: Seq<Record>, i: int, network: &Network)
    requires
        accepted(history, network),
        0 <= i < history.len(),
        history[i].entry is PublicationRole,
    ensures
        history[i].action matches Action::Create(action) && action.author@
            == network.properties.progenitor@,
        history[i].entry matches RecordEntry::PublicationRole(role) && role.role@ == editor(),
{
    assert(accepted_at(history, i, network));
}

/// A post is only ever replaced by its author. In an accepted history, a
/// post that updates a record updates a post, of the same author, that was
/// stored before it.
pub proof fn law_posts_are_updated_by_their_authors(
    history: Seq<Record>,
    i: int,
    network: &Network,
)
    requires
        accepted(history, network),
        0 <= i < history.len(),
        history[i].entry is Post,
        history[i].action is Update,
    ensures
        history[i].action matches Action::Update(action) && exists|j: int|
            {
                &&& 0 <= j < i
                &&& first_at(history, action.original_action_address@, j)
                &&& (#[trigger] history[j]).entry is Post
                &&& history[j].action.entry_creation() matches Some((author, _))
                &&& author == action.author@
            },
{
    assert(accepted_at(history, i, network));
    let action = history[i].action->Update_0;
    lemma_before_resolves(history, i, action.original_action_address@);
}

/// Every link to a post points at a post. In an accepted history, the
/// target of every such link is a record that was stored before the link,
/// and that holds a post.
pub proof fn law_links_point_at_posts(history: Seq<Record>, i: int, network: &Network)
    requires
        accepted(history, network),
        0 <= i < history.len(),
        history[i].action matches Action::CreateLink(action) && action.link_type == Some(
            LinkTypes::PathToPost,
        ),
    ensures
        history[i].action matches Action::CreateLink(action) && exists|j: int|
            0 <= j < i && first_at(history, action.target_address@, j) && (
            #[trigger] history[j]).entry is Post,
{
    assert(accepted_at(history, i, network));
    let action = history[i].action->CreateLink_0;
    lemma_before_resolves(history, i, action.target_address@);
}

/// Nothing that this ledger declares is ever deleted. In an accepted
/// history, no delete names a record that holds a post or a role.
pub proof fn law_nothing_declared_is_deleted(
    history: Seq<Record>,
    i: int,
    j: int,
    network: &Network,
)
    requires
        accepted(history, network),
        0 <= i < history.len(),
        history[i].action matches Action::Delete(action) && first_at(
            history,
            action.deletes_address@,
            j,
        ),
    ensures
        history[j].entry.declared() is None,
{
    assert(accepted_at(history, i, network));
    assert(accepted_at(history, j, network));
    let action = history[i].action->Delete_0;
    let hash = action.deletes_address@;
    let store = before(history, i);
    // The delete was valid, so what it names was resolved before it.
    assert(store.get(hash) is Some);
    lemma_before_resolves(history, i, hash);
    let k = choose|k: int|
        0 <= k < i && first_at(history, hash, k) && store.get(hash) == Some(#[trigger] history[k]);
    if k < j {
        assert(history[k].hash@ != hash);
    }
    if j < k {
        assert(history[j].hash@ != hash);
    }
}

/// No link to a post is ever deleted. In an accepted history, no link
/// deletion names the creation of a link to a post.
pub proof fn law_no_link_is_deleted(history: Seq<Record>, i: int, j: int, network: &Network)
    requires
        accepted(history, network),
        0 <= i < history.len(),
        history[i].action matches Action::DeleteLink(action) && first_at(
            history,
            action.link_add_address@,
            j,
        ),
    ensures
        !(history[j].action matches Action::CreateLink(link) && link.link_type == Some(
            LinkTypes::PathToPost,
        )),
{
    assert(accepted_at(history, i, network));
    let action = history[i].action->DeleteLink_0;
    let hash = action.link_add_address@;
    let store = before(history, i);
    assert(store.get(hash) is Some);
    lemma_before_resolves(history, i, hash);
    let k = choose|k: int|
        0 <= k < i && first_at(history, hash, k) && store.get(hash) == Some(#[trigger] history[k]);
    if k < j {
        assert(history[k].hash@ != hash);
    }
    if j < k {
        assert(history[j].hash@ != hash);
    }
}

/// A history grows by what the rules accept. An accepted history with one
/// more record, whose storing is valid against it, is an accepted history.
pub proof fn law_accepted_histories_grow(history: Seq<Record>, record: Record, network: &Network)
    requires
        accepted(history, network),
        consistent(&record),
        storing(record) matches Some(op) && outcome(
            &op,
            StoreView { records: history, entries: Seq::empty() },
            network,
        ) == Ok::<Verdict, Fault>(Verdict::Valid),
    ensures
        accepted(history.push(record), network),
{
    let longer = history.push(record);
    assert forall|i: int| 0 <= i < longer.len() implies #[trigger] accepted_at(longer, i, network)
        && consistent(&longer[i]) by {
        if i < history.len() {
            assert(accepted_at(history, i, network));
            assert(longer.take(i) =~= history.take(i));
            assert(longer[i] == history[i]);
        } else {
            assert(longer.take(i) =~= history);
        }
    }
}

/// The empty history is accepted.
pub proof fn law_empty_history_is_accepted(network: &Network)
    ensures
        accepted(Seq::<Record>::empty(), network),
{
}

} // verus!
