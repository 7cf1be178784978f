//! Posts, and the links that index them.
//!
//! The progenitor may post. So may every agent for whom the store resolves an
//! editor role. A post may be updated by its author and by nobody else, and
//! it may never be deleted. A link to a post must point at a post, and it
//! stays once it is there.

use vstd::prelude::*;
use crate::action::{CreateLink, Delete, DeleteLink, EntryCreationAction, Update};
use crate::address::Address;
use crate::properties::Network;
use crate::publication_role::editor_role;
use crate::record::{RecordEntry, RecordStore, StoreView};
use crate::verdict::{Fault, Reason, Verdict};
use crate::EntryTypesView;

verus! {

#[derive(Debug)]
pub struct Post {
    pub title: String,
    pub content: String,
}

/// A post as a value: the characters of its title and of its content.
pub struct PostView {
    pub title: Seq<char>,
    pub content: Seq<char>,
}

impl View for Post {
    type V = PostView;

    open spec fn view(&self) -> PostView {
        PostView { title: self.title@, content: self.content@ }
    }
}

impl Clone for Post {
    fn clone(&self) -> (copy: Post)
        ensures
            copy == *self,
    {
        Post { title: self.title.clone(), content: self.content.clone() }
    }
}

impl PartialEq for Post {
    fn eq(&self, other: &Post) -> (same: bool) {
        self.title == other.title && self.content == other.content
    }
}

impl Eq for Post {

}

impl vstd::std_specs::cmp::PartialEqSpecImpl for Post {
    open spec fn obeys_eq_spec() -> bool {
        true
    }

    open spec fn eq_spec(&self, other: &Post) -> bool {
        self@ == other@
    }
}

/// Whether `author` may post: it is the progenitor, or the store resolves an
/// editor role that names it.
pub open spec fn may_post(author: Seq<u8>, store: StoreView, network: &Network) -> bool {
    ||| author == network.properties.progenitor@
    ||| store.has_entry(EntryTypesView::PublicationRole(editor_role(author)))
}

/// The outcome for a post written by `author`. The role is a reference that
/// the check needs: where it does not resolve, the check cannot be made.
pub open spec fn create_post_outcome(
    author: Seq<u8>,
    store: StoreView,
    network: &Network,
) -> Result<Verdict, Fault> {
    if may_post(author, store, network) {
        Ok(Verdict::Valid)
    } else {
        Err(Fault::RoleNotFound)
    }
}

pub fn validate_create_post(
    action: EntryCreationAction,
    _post: Post,
    store: &RecordStore,
    network: &Network,
) -> (outcome: Result<Verdict, Fault>)
    ensures
        outcome == create_post_outcome(action.author()@, store@, network),
{
    if *action.author() == network.properties.progenitor {
        return Ok(Verdict::Valid);
    }
    let role = crate::EntryTypes::PublicationRole(
        crate::publication_role::PublicationRole::editor(action.author().clone()),
    );
    if store.holds_entry(&role) {
        Ok(Verdict::Valid)
    } else {
        Err(Fault::RoleNotFound)
    }
}

/// The verdict on an update by `author` of a post by `original_author`.
pub open spec fn update_post_verdict(author: Seq<u8>, original_author: Seq<u8>) -> Verdict {
    if original_author == author {
        Verdict::Valid
    } else {
        Verdict::Invalid(Reason::UpdateNotByAuthor)
    }
}

pub fn validate_update_post(
    action: Update,
    _post: Post,
    original_action: EntryCreationAction,
    _original_post: Post,
) -> (outcome: Result<Verdict, Fault>)
    ensures
        outcome == Ok::<Verdict, Fault>(
            update_post_verdict(action.author@, original_action.author()@),
        ),
{
    if *original_action.author() == action.author {
        Ok(Verdict::Valid)
    } else {
        Ok(Verdict::Invalid(Reason::UpdateNotByAuthor))
    }
}

pub fn validate_delete_post(
    _action: Delete,
    _original_action: EntryCreationAction,
    _original_post: Post,
) -> (outcome: Result<Verdict, Fault>)
    ensures
        outcome == Ok::<Verdict, Fault>(Verdict::Invalid(Reason::PostDeleted)),
{
    Ok(Verdict::Invalid(Reason::PostDeleted))
}

/// The outcome for a link to `target`: the store must resolve the target,
/// and what it resolves to must carry a post.
pub open spec fn create_link_outcome(target: Seq<u8>, store: StoreView) -> Result<
    Verdict,
    Fault,
> {
    match store.get(target) {
        None => Err(Fault::RecordNotFound),
        Some(record) => if record.entry is Post {
            Ok(Verdict::Valid)
        } else {
            Ok(Verdict::Invalid(Reason::LinkTargetNotPost))
        },
    }
}

pub fn validate_create_link_all_posts(
    _action: CreateLink,
    _base_address: Address,
    target_address: Address,
    _tag: Vec<u8>,
    store: &RecordStore,
) -> (outcome: Result<Verdict, Fault>)
    ensures
        outcome == create_link_outcome(target_address@, store@),
{
    match store.must_get(&target_address) {
        Err(fault) => Err(fault),
        Ok(record) => match &record.entry {
            RecordEntry::Post(_) => Ok(Verdict::Valid),
            _ => Ok(Verdict::Invalid(Reason::LinkTargetNotPost)),
        },
    }
}

pub fn validate_delete_link_all_posts(
    _action: DeleteLink,
    _original_action: CreateLink,
    _base: Address,
    _target: Address,
    _tag: Vec<u8>,
) -> (outcome: Result<Verdict, Fault>)
    ensures
        outcome == Ok::<Verdict, Fault>(Verdict::Invalid(Reason::LinkDeleted)),
{
    Ok(Verdict::Invalid(Reason::LinkDeleted))
}

} // verus!
