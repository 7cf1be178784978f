//! What a check can come to: a verdict under the rules, or a fault that kept
//! the check from being made.
//!
//! The two are never mixed. A verdict is final: an operation that the rules
//! reject stays rejected. A fault says that something the check depends on
//! could not be had, and the caller may try again once it can.

use vstd::prelude::*;

verus! {

/// Why the rules reject an operation.
#[derive(Clone, Copy, Debug, PartialEq, Eq, Structural)]
pub enum Reason {
    /// A post was updated by someone other than its author.
    UpdateNotByAuthor,
    /// A post was deleted.
    PostDeleted,
    /// A role was created under a name other than `editor`.
    RoleNotEditor,
    /// A role was created by someone other than the progenitor.
    RoleNotByProgenitor,
    /// A role was updated.
    RoleUpdated,
    /// A role was deleted.
    RoleDeleted,
    /// A link to a post points at something that is not a post.
    LinkTargetNotPost,
    /// A link to a post was deleted.
    LinkDeleted,
    /// An update whose original holds an entry of another type, or none.
    EntryTypesDiffer,
    /// An update whose original is neither a create nor an update.
    UpdateOfNonEntry,
    /// A delete whose original is neither a create nor an update.
    DeleteOfNonEntry,
    /// A delete of a public entry whose original record holds no entry.
    OriginalEntryMissing,
    /// A delete whose original entry is of no type that this ledger declares.
    OriginalEntryUndeclared,
    /// A link deletion that names something other than a link creation.
    DeletedLinkNotALink,
    /// An agent joined without an admission package right before.
    MalformedJoinSequence,
    /// An agent other than the progenitor joined without a membrane proof.
    NoMembraneProof,
    /// The proof was not written by the progenitor, or its signature does
    /// not verify.
    AuthorSignatureMismatch,
    /// The proof record holds no membrane proof.
    MalformedMembraneProof,
    /// The proof was issued for another network.
    ProofForOtherNetwork,
    /// The proof was issued to another agent.
    ProofForOtherAgent,
}

impl Reason {
    /// The text shown to a person for this reason.
    pub open spec fn text(self) -> Seq<char> {
        match self {
            Reason::UpdateNotByAuthor => "only the author may update"@,
            Reason::PostDeleted => "posts cannot be deleted"@,
            Reason::RoleNotEditor => "Only editor role is allowed"@,
            Reason::RoleNotByProgenitor => "Only the progenitor can create roles"@,
            Reason::RoleUpdated => "Publication Roles cannot be updated"@,
            Reason::RoleDeleted => "Publication Roles cannot be deleted"@,
            Reason::LinkTargetNotPost => "Linked action must reference a post"@,
            Reason::LinkDeleted => "AllPosts links cannot be deleted"@,
            Reason::EntryTypesDiffer => "original and updated entry types must match"@,
            Reason::UpdateOfNonEntry => "Original action for an update must be a Create or Update action"@,
            Reason::DeleteOfNonEntry => "Original action for a delete must be a Create or Update action"@,
            Reason::OriginalEntryMissing => "Original record for a delete of a public entry must contain an entry"@,
            Reason::OriginalEntryUndeclared => "Original app entry must be one of the defined entry types for this zome"@,
            Reason::DeletedLinkNotALink => "The action that a DeleteLink deletes must be a CreateLink"@,
            Reason::MalformedJoinSequence => "malformed join sequence"@,
            Reason::NoMembraneProof => "no membrane proof present"@,
            Reason::AuthorSignatureMismatch => "author/signature mismatch"@,
            Reason::MalformedMembraneProof => "malformed membrane proof"@,
            Reason::ProofForOtherNetwork => "proof not for this network"@,
            Reason::ProofForOtherAgent => "proof not for this agent"@,
        }
    }

    pub fn message(&self) -> (message: String)
        ensures
            message@ == self.text(),
    {
        let text: &str = match self {
            Reason::UpdateNotByAuthor => "only the author may update",
            Reason::PostDeleted => "posts cannot be deleted",
            Reason::RoleNotEditor => "Only editor role is allowed",
            Reason::RoleNotByProgenitor => "Only the progenitor can create roles",
            Reason::RoleUpdated => "Publication Roles cannot be updated",
            Reason::RoleDeleted => "Publication Roles cannot be deleted",
            Reason::LinkTargetNotPost => "Linked action must reference a post",
            Reason::LinkDeleted => "AllPosts links cannot be deleted",
            Reason::EntryTypesDiffer => "original and updated entry types must match",
            Reason::UpdateOfNonEntry => "Original action for an update must be a Create or Update action",
            Reason::DeleteOfNonEntry => "Original action for a delete must be a Create or Update action",
            Reason::OriginalEntryMissing => "Original record for a delete of a public entry must contain an entry",
            Reason::OriginalEntryUndeclared => "Original app entry must be one of the defined entry types for this zome",
            Reason::DeletedLinkNotALink => "The action that a DeleteLink deletes must be a CreateLink",
            Reason::MalformedJoinSequence => "malformed join sequence",
            Reason::NoMembraneProof => "no membrane proof present",
            Reason::AuthorSignatureMismatch => "author/signature mismatch",
            Reason::MalformedMembraneProof => "malformed membrane proof",
            Reason::ProofForOtherNetwork => "proof not for this network",
            Reason::ProofForOtherAgent => "proof not for this agent",
        };
        text.to_owned()
    }
}

/// The verdict of the rules on one operation.
#[derive(Clone, Copy, Debug, PartialEq, Eq, Structural)]
pub enum Verdict {
    Valid,
    Invalid(Reason),
}

impl Verdict {
    pub fn is_valid(&self) -> (valid: bool)
        ensures
            valid == (*self == Verdict::Valid),
    {
        match self {
            Verdict::Valid => true,
            Verdict::Invalid(_) => false,
        }
    }
}

/// What kept a check, or a request, from being completed.
#[derive(Debug, PartialEq, Eq)]
pub enum Fault {
    /// The role record that should authorise the author is not in the store.
    RoleNotFound,
    /// A record that the operation refers to is not in the store.
    RecordNotFound,
    /// The membrane proof does not decode to a signed record.
    UndecodableProof,
    /// The host could not say whether the proof's signature verifies.
    SignatureUnavailable,
    /// The random source gave a secret of the wrong width.
    BadSecret,
    /// This agent holds no claim from the agent it wants to read from.
    NoCapability,
    /// The handler was not reached through a capability grant.
    NotCalledWithGrant,
    /// The grant's tag does not name a network.
    BadGrantTag,
    /// The one called did not accept the call. The text is the host's own.
    Unauthorized(String),
    /// The call did not get through. The text is the host's own.
    NetworkError(String),
    /// The one called is held by a countersigning session. The text is the
    /// host's own.
    CountersigningSession(String),
    /// The call succeeded, but its answer does not decode.
    UndecodableResponse,
    /// A record that should carry an entry carries none.
    EntryMissing,
    /// A record's entry does not decode to the type expected of it.
    UndecodableEntry,
}

impl Fault {
    /// The text shown to a person for this fault.
    pub open spec fn text(self) -> Seq<char> {
        match self {
            Fault::RoleNotFound => "referenced role record not found"@,
            Fault::RecordNotFound => "referenced record not found"@,
            Fault::UndecodableProof => "The membrane proof is not a record"@,
            Fault::SignatureUnavailable => "The signature could not be checked"@,
            Fault::BadSecret => "Could not build secret"@,
            Fault::NoCapability => "We don't have capability to call this functions"@,
            Fault::NotCalledWithGrant => "request_read_all_posts must be called using a cap grant"@,
            Fault::BadGrantTag => "Bad cap_grant tag"@,
            Fault::Unauthorized(text) => "Error making the call remote: Unauthorized: "@ + text@,
            Fault::NetworkError(text) => "Error making the call remote: NetworkError: "@ + text@,
            Fault::CountersigningSession(text) => "Error making the call remote: CountersigningSession: "@
                + text@,
            Fault::UndecodableResponse => "The response could not be decoded"@,
            Fault::EntryMissing => "This record doesn't include any entry"@,
            Fault::UndecodableEntry => "The entry could not be decoded"@,
        }
    }

    pub fn message(&self) -> (message: String)
        ensures
            message@ == self.text(),
    {
        let text: &str = match self {
            Fault::Unauthorized(text) => {
                return "Error making the call remote: Unauthorized: ".to_owned().concat(
                    text.as_str(),
                );
            },
            Fault::NetworkError(text) => {
                return "Error making the call remote: NetworkError: ".to_owned().concat(
                    text.as_str(),
                );
            },
            Fault::CountersigningSession(text) => {
                return "Error making the call remote: CountersigningSession: ".to_owned().concat(
                    text.as_str(),
                );
            },
            Fault::RoleNotFound => "referenced role record not found",
            Fault::RecordNotFound => "referenced record not found",
            Fault::UndecodableProof => "The membrane proof is not a record",
            Fault::SignatureUnavailable => "The signature could not be checked",
            Fault::BadSecret => "Could not build secret",
            Fault::NoCapability => "We don't have capability to call this functions",
            Fault::NotCalledWithGrant => "request_read_all_posts must be called using a cap grant",
            Fault::BadGrantTag => "Bad cap_grant tag",
            Fault::UndecodableResponse => "The response could not be decoded",
            Fault::EntryMissing => "This record doesn't include any entry",
            Fault::UndecodableEntry => "The entry could not be decoded",
        };
        text.to_owned()
    }
}

} // verus!
