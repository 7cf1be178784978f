//! Roles: the progenitor's word on who else may publish.
//!
//! Only the role `editor` exists. A role is created by the progenitor and
//! stays as it was created: it can be neither updated nor deleted.

use vstd::prelude::*;
use crate::action::{Delete, EntryCreationAction, Update};
use crate::address::AgentId;
use crate::properties::Network;
use crate::verdict::{Fault, Reason, Verdict};

verus! {

/// `assignee` holds the role named `role`.
#[derive(Debug)]
pub struct PublicationRole {
    pub role: String,
    pub assignee: AgentId,
}

/// A role as a value: the name's characters and the assignee's bytes.
pub struct PublicationRoleView {
    pub role: Seq<char>,
    pub assignee: Seq<u8>,
}

impl View for PublicationRole {
    type V = PublicationRoleView;

    open spec fn view(&self) -> PublicationRoleView {
        PublicationRoleView { role: self.role@, assignee: self.assignee@ }
    }
}

impl Clone for PublicationRole {
    fn clone(&self) -> (copy: PublicationRole)
        ensures
            copy@ == self@,
    {
        PublicationRole { role: self.role.clone(), assignee: self.assignee.clone() }
    }
}

impl PartialEq for PublicationRole {
    fn eq(&self, other: &PublicationRole) -> (same: bool) {
        self.role == other.role && self.assignee == other.assignee
    }
}

impl Eq for PublicationRole {

}

impl vstd::std_specs::cmp::PartialEqSpecImpl for PublicationRole {
    open spec fn obeys_eq_spec() -> bool {
        true
    }

    open spec fn eq_spec(&self, other: &PublicationRole) -> bool {
        self@ == other@
    }
}

/// The name of the only role there is.
pub open spec fn editor() -> Seq<char> {
    "editor"@
}

/// The editor role of `assignee`, as a value.
pub open spec fn editor_role(assignee: Seq<u8>) -> PublicationRoleView {
    PublicationRoleView { role: editor(), assignee }
}

impl PublicationRole {
    /// The editor role for `assignee`.
    pub fn editor(assignee: AgentId) -> (role: PublicationRole)
        ensures
            role@ == editor_role(assignee@),
    {
        PublicationRole { role: "editor".to_owned(), assignee }
    }

    /// Whether this is an editor role, whoever holds it.
    pub fn is_editor(&self) -> (yes: bool)
        ensures
            yes == (self.role@ == editor()),
    {
        let editor = "editor".to_owned();
        self.role == editor
    }
}

/// The verdict on the creation of `role` by `author`: the role must be
/// `editor`, and the author the progenitor. Where both are wrong, the role's
/// name is what is reported.
pub open spec fn create_role_verdict(
    author: Seq<u8>,
    role: PublicationRoleView,
    network: &Network,
) -> Verdict {
    if role.role != editor() {
        Verdict::Invalid(Reason::RoleNotEditor)
    } else if author != network.properties.progenitor@ {
        Verdict::Invalid(Reason::RoleNotByProgenitor)
    } else {
        Verdict::Valid
    }
}

pub fn validate_create_publication_role(
    action: EntryCreationAction,
    publication_role: PublicationRole,
    network: &Network,
) -> (outcome: Result<Verdict, Fault>)
    ensures
        outcome == Ok::<Verdict, Fault>(
            create_role_verdict(action.author()@, publication_role@, network),
        ),
{
    if !publication_role.is_editor() {
        return Ok(Verdict::Invalid(Reason::RoleNotEditor));
    }
    if *action.author() == network.properties.progenitor {
        Ok(Verdict::Valid)
    } else {
        Ok(Verdict::Invalid(Reason::RoleNotByProgenitor))
    }
}

pub fn validate_update_publication_role(
    _action: Update,
    _publication_role: PublicationRole,
    _original_action: EntryCreationAction,
    _original_publication_role: PublicationRole,
) -> (outcome: Result<Verdict, Fault>)
    ensures
        outcome == Ok::<Verdict, Fault>(Verdict::Invalid(Reason::RoleUpdated)),
{
    Ok(Verdict::Invalid(Reason::RoleUpdated))
}

pub fn validate_delete_publication_role(
    _action: Delete,
    _original_action: EntryCreationAction,
    _original_publication_role: PublicationRole,
) -> (outcome: Result<Verdict, Fault>)
    ensures
        outcome == Ok::<Verdict, Fault>(Verdict::Invalid(Reason::RoleDeleted)),
{
    Ok(Verdict::Invalid(Reason::RoleDeleted))
}

} // verus!
