//! Reading a private network through the lobby.
//!
//! An agent of the lobby that wants to read the posts of a private network
//! needs a member of that network to grant it the reading. The grant names
//! the private network in its tag. The reader keeps a claim, and later
//! presents the claim's secret to the grantor over the lobby. On the
//! grantor's side the host checks the secret against the grant and hands the
//! grant to the handler, which reads the network that the grant names, and
//! no other: the caller has no say in it.
//!
//! The host does the storing and the calling. The functions here decide what
//! is stored and who is called, and what to make of the answers.

use vstd::prelude::*;
use crate::address::{Address, AgentId, NetworkId};
use crate::call::{Call, CallTarget, CallTargetCell, CellId};
use crate::capability::{
    claim_for, issue_grant, resolve_claim, restricts, store_claim, CapAccess, CapClaim, CapGrant,
    CapGrantEntry, CapSecret, GrantedFunction, GrantedFunctions, CAP_SECRET_BYTES,
};
use crate::encoding::{hash_to_b64, network_from_tag, network_tag, spec_network_from_tag};
use crate::link::{first_target, Link, NewLink};
use crate::lobby_integrity::{EntryTypes, LinkTypes};
use crate::membrane::PrivatePublicationMembraneProof;
use crate::verdict::Fault;

verus! {

/// The name of the handler that a grant gives access to.
pub open spec fn read_handler() -> Seq<char> {
    "request_read_private_publication_posts"@
}

/// The name of the zome of the private network that holds the posts.
pub open spec fn posts_zome() -> Seq<char> {
    "posts"@
}

/// The name of the function of that zome that reads all posts.
pub open spec fn read_all_posts() -> Seq<char> {
    "get_all_posts"@
}

#[derive(Debug)]
pub struct GrantCapabilityToReadInput {
    pub reader: AgentId,
    pub private_publication_dna_hash: NetworkId,
}

/// Whether `grant` lets `reader`, and nobody else, call the read handler of
/// `zome_name` with `secret`, and names `network` in its tag.
pub open spec fn grants_reading(
    grant: &CapGrantEntry,
    reader: Seq<u8>,
    network: Seq<u8>,
    secret: Seq<u8>,
    zome_name: Seq<char>,
) -> bool {
    restricts(grant, reader, zome_name, read_handler(), hash_to_b64(network), secret)
}

/// Writes the grant that lets `input.reader` read the posts of the network
/// `input.private_publication_dna_hash` through this agent. `random` is what
/// the random source gave when asked for the bytes of a secret, and
/// `zome_name` the name of the zome that holds the read handler. The secret
/// is in the grant: it goes to the reader by a channel of the caller's
/// choosing.
pub fn grant_capability_to_read(
    input: GrantCapabilityToReadInput,
    random: Vec<u8>,
    zome_name: String,
) -> (granted: Result<CapGrantEntry, Fault>)
    ensures
        random@.len() == CAP_SECRET_BYTES ==> (granted matches Ok(grant) && grants_reading(
            &grant,
            input.reader@,
            input.private_publication_dna_hash@,
            random@,
            zome_name@,
        )),
        random@.len() != CAP_SECRET_BYTES ==> granted == Err::<CapGrantEntry, Fault>(
            Fault::BadSecret,
        ),
{
    let handler = GrantedFunction {
        zome_name,
        fn_name: "request_read_private_publication_posts".to_owned(),
    };
    let tag = network_tag(&input.private_publication_dna_hash);
    issue_grant(input.reader, handler, tag, random)
}

#[derive(Debug)]
pub struct StoreCapabilityClaimInput {
    pub cap_secret: CapSecret,
    pub author: AgentId,
}

/// Writes the claim by which this agent remembers the secret that
/// `input.author` granted it for the read handler.
pub fn store_capability_claim(input: StoreCapabilityClaimInput) -> (claim: CapClaim)
    ensures
        claim.grantor@ == input.author@,
        claim.secret@ == input.cap_secret@,
        claim.tag@ == read_handler(),
{
    store_claim(
        input.cap_secret,
        input.author,
        "request_read_private_publication_posts".to_owned(),
    )
}

/// Whether `call` asks `author`, over the network, for the read handler of
/// `zome_name`, and presents `secret`.
pub open spec fn asks_author(
    call: &Call,
    author: Seq<u8>,
    zome_name: Seq<char>,
    secret: Seq<u8>,
) -> bool {
    &&& call.target matches CallTarget::NetworkAgent(agent)
    &&& agent@ == author
    &&& call.zome_name@ == zome_name
    &&& call.fn_name@ == read_handler()
    &&& call.cap_secret matches Some(presented)
    &&& presented@ == secret
}

/// Decides how to ask `author` for the posts of its private network.
/// `claims` are the claims on this agent's chain, in the chain's order, and
/// `zome_name` is the name of this zome. Without a claim from `author` there
/// is nothing to present, and the caller is told so.
pub fn read_posts_for_author(author: AgentId, claims: &Vec<CapClaim>, zome_name: String) -> (asked:
    Result<Call, Fault>)
    ensures
        match claim_for(claims@, author@) {
            None => asked == Err::<Call, Fault>(Fault::NoCapability),
            Some(claim) => asked matches Ok(call) && asks_author(
                &call,
                author@,
                zome_name@,
                claim.secret@,
            ),
        },
{
    match resolve_claim(claims, &author) {
        None => Err(Fault::NoCapability),
        Some(claim) => Ok(
            Call {
                target: CallTarget::NetworkAgent(author),
                zome_name,
                fn_name: "request_read_private_publication_posts".to_owned(),
                cap_secret: Some(claim.secret.clone()),
            },
        ),
    }
}

/// Whether `call` asks this host's cell of `network`, run by `agent`, to
/// read all posts, with no secret.
pub open spec fn asks_own_cell(call: &Call, network: Seq<u8>, agent: Seq<u8>) -> bool {
    &&& call.target matches CallTarget::ConductorCell(CallTargetCell::OtherCell(cell))
    &&& cell.dna_hash@ == network
    &&& cell.agent_pubkey@ == agent
    &&& call.zome_name@ == posts_zome()
    &&& call.fn_name@ == read_all_posts()
    &&& call.cap_secret is None
}

/// Decides which cell to read for a grant that names `network` in its tag,
/// where it names one. `agent` is the agent that was called.
pub fn read_call_for_network(network: Option<NetworkId>, agent: AgentId) -> (asked: Result<
    Call,
    Fault,
>)
    ensures
        match network {
            None => asked == Err::<Call, Fault>(Fault::BadGrantTag),
            Some(id) => asked matches Ok(call) && asks_own_cell(&call, id@, agent@),
        },
{
    match network {
        None => Err(Fault::BadGrantTag),
        Some(dna_hash) => Ok(
            Call {
                target: CallTarget::ConductorCell(
                    CallTargetCell::OtherCell(CellId { dna_hash, agent_pubkey: agent }),
                ),
                zome_name: "posts".to_owned(),
                fn_name: "get_all_posts".to_owned(),
                cap_secret: None,
            },
        ),
    }
}

/// Decides what the read handler does for a call that arrived under
/// `cap_grant`. `agent` is the agent that was called.
///
/// The handler answers only calls that came with a grant. The network to
/// read is the one that the grant names: the host took the grant from the
/// chain of the one who was called, so its tag is that agent's own word.
pub fn request_read_private_publication_posts(cap_grant: &CapGrant, agent: AgentId) -> (asked:
    Result<Call, Fault>)
    ensures
        match cap_grant {
            CapGrant::ChainAuthor(_) => asked == Err::<Call, Fault>(Fault::NotCalledWithGrant),
            CapGrant::RemoteAgent(grant) => match spec_network_from_tag(grant.tag@) {
                None => asked == Err::<Call, Fault>(Fault::BadGrantTag),
                Some(network) => asked matches Ok(call) && asks_own_cell(&call, network, agent@),
            },
        },
{
    match cap_grant {
        CapGrant::ChainAuthor(_) => Err(Fault::NotCalledWithGrant),
        CapGrant::RemoteAgent(grant) => {
            let network = network_from_tag(grant.tag.as_str());
            read_call_for_network(network, agent)
        },
    }
}

/// The reader presents what was granted. Where a grantor has written a grant
/// for a reader, and the reader has kept the claim for the grant's secret
/// as its first claim from that grantor, the call that the reader makes goes
/// to the grantor, names the one function that the grant lists, in the same
/// zome, and presents the secret that the grant holds.
pub proof fn law_reader_presents_what_was_granted(
    grant: &CapGrantEntry,
    claims: Seq<CapClaim>,
    call: &Call,
    grantor: Seq<u8>,
    reader: Seq<u8>,
    tag: Seq<char>,
    secret: Seq<u8>,
    zome_name: Seq<char>,
)
    requires
        restricts(grant, reader, zome_name, read_handler(), tag, secret),
        claim_for(claims, grantor) matches Some(claim) && claim.secret@ == secret && asks_author(
            call,
            grantor,
            zome_name,
            claim.secret@,
        ),
    ensures
        call.target matches CallTarget::NetworkAgent(to) && to@ == grantor,
        ({
            &&& grant.access matches CapAccess::Assigned { secret: held, assignees }
            &&& assignees@.len() == 1
            &&& assignees@[0]@ == reader
            &&& call.cap_secret matches Some(presented)
            &&& presented@ == held@
        }),
        ({
            &&& grant.functions matches GrantedFunctions::Listed(functions)
            &&& functions@.len() == 1
            &&& functions@[0].zome_name@ == call.zome_name@
            &&& functions@[0].fn_name@ == call.fn_name@
        }),
{
}

/// The entry by which the progenitor issues `proof`.
pub fn create_membrane_proof_for(proof: PrivatePublicationMembraneProof) -> (entry: EntryTypes)
    ensures
        entry == EntryTypes::PrivatePublicationMembraneProof(proof),
{
    EntryTypes::PrivatePublicationMembraneProof(proof)
}

/// The link by which the recipient of a proof finds it: from the recipient
/// to the record at `action_hash`, which holds the proof.
pub fn membrane_proof_link(proof: &PrivatePublicationMembraneProof, action_hash: Address) -> (link:
    NewLink<LinkTypes>)
    ensures
        link.base@ == proof.recipient@,
        link.target@ == action_hash@,
        link.link_type == LinkTypes::AgentToMembraneProof,
        link.tag@.len() == 0,
{
    NewLink {
        base: Address::new(proof.recipient.bytes.clone()),
        target: action_hash,
        link_type: LinkTypes::AgentToMembraneProof,
        tag: Vec::new(),
    }
}

/// The address of the record that holds this agent's membrane proof, given
/// the links of that type that start at the agent: that of the first, if
/// there is one.
pub fn get_my_membrane_proof(links: &Vec<Link>) -> (target: Option<Address>)
    ensures
        links@.len() == 0 ==> target is None,
        links@.len() > 0 ==> (target matches Some(address) && address@ == links@[0].target@),
{
    first_target(links)
}

} // verus!
