//! Handing out roles.

use vstd::prelude::*;
use crate::address::AgentId;
use crate::publication_role::{editor_role, PublicationRole};
use crate::{EntryTypes, EntryTypesView};

verus! {

/// The entry by which `assignee` is made an editor. Anyone can write it, but
/// the rules accept it from the progenitor alone.
pub fn assign_editor_role(assignee: AgentId) -> (entry: EntryTypes)
    ensures
        entry@ == EntryTypesView::PublicationRole(editor_role(assignee@)),
{
    EntryTypes::PublicationRole(PublicationRole::editor(assignee))
}

} // verus!
