//! Capabilities: grants, and the claims that answer them.
//!
//! A grant is written by the one who allows something: it holds a secret,
//! says who may present it, and for which functions. A claim is written by
//! the one who was allowed: it remembers the secret and who granted it.
//! Whether a presented secret fits a grant is decided by the host, before
//! anything here is reached.

use vstd::prelude::*;
use crate::address::AgentId;
use crate::verdict::Fault;

verus! {

/// The number of bytes in a secret.
pub const CAP_SECRET_BYTES: usize = 64;

/// The secret of a capability: 64 bytes from a random source.
#[derive(Debug)]
pub struct CapSecret {
    bytes: Vec<u8>,
}

impl View for CapSecret {
    type V = Seq<u8>;

    closed spec fn view(&self) -> Seq<u8> {
        self.bytes@
    }
}

impl CapSecret {
    #[verifier::type_invariant]
    spec fn well_formed(self) -> bool {
        self.bytes@.len() == CAP_SECRET_BYTES
    }

    /// The bytes of the secret.
    pub fn as_bytes(&self) -> (bytes: &Vec<u8>)
        ensures
            bytes@ == self@,
            bytes@.len() == CAP_SECRET_BYTES,
    {
        proof {
            use_type_invariant(self);
        }
        &self.bytes
    }
}

impl Clone for CapSecret {
    fn clone(&self) -> (copy: CapSecret)
        ensures
            copy@ == self@,
    {
        proof {
            use_type_invariant(self);
        }
        CapSecret { bytes: self.bytes.clone() }
    }
}

/// Makes a secret of what the random source gave. The source gives all the
/// bytes that were asked for or none, so any other number of them is a fault.
pub fn build_secret(bytes: Vec<u8>) -> (secret: Result<CapSecret, Fault>)
    ensures
        bytes@.len() == CAP_SECRET_BYTES ==> (secret matches Ok(built) && built@ == bytes@),
        bytes@.len() != CAP_SECRET_BYTES ==> secret == Err::<CapSecret, Fault>(Fault::BadSecret),
{
    if bytes.len() == CAP_SECRET_BYTES {
        Ok(CapSecret { bytes })
    } else {
        Err(Fault::BadSecret)
    }
}

/// What an agent keeps so that it can present a secret again.
#[derive(Debug)]
pub struct CapClaim {
    /// A word by which to find the claim again.
    pub tag: String,
    /// Who wrote the grant.
    pub grantor: AgentId,
    pub secret: CapSecret,
}

/// A function of a zome.
#[derive(Debug)]
pub struct GrantedFunction {
    pub zome_name: String,
    pub fn_name: String,
}

/// The functions that a grant allows.
#[derive(Debug)]
pub enum GrantedFunctions {
    All,
    /// These, each listed once.
    Listed(Vec<GrantedFunction>),
}

/// Who may use a grant.
#[derive(Debug)]
pub enum CapAccess {
    /// Anyone, without a secret.
    Unrestricted,
    /// Anyone who presents the secret.
    Transferable { secret: CapSecret },
    /// Those of `assignees`, each listed once, who present the secret.
    Assigned { secret: CapSecret, assignees: Vec<AgentId> },
}

/// A grant, as its author writes it to its own chain.
#[derive(Debug)]
pub struct CapGrantEntry {
    /// Free text that travels with the grant. Here it names the network
    /// that the grant gives access to.
    pub tag: String,
    pub access: CapAccess,
    pub functions: GrantedFunctions,
}

/// The grant under which a call arrived, as the host found it.
#[derive(Debug)]
pub enum CapGrant {
    /// The caller is the author of the chain, who needs no grant.
    ChainAuthor(AgentId),
    RemoteAgent(CapGrantEntry),
}

/// Whether `grant` restricts the use of `secret` to `assignee` and to
/// `zome_name`'s function `fn_name`, and carries `tag`.
pub open spec fn restricts(
    grant: &CapGrantEntry,
    assignee: Seq<u8>,
    zome_name: Seq<char>,
    fn_name: Seq<char>,
    tag: Seq<char>,
    secret: Seq<u8>,
) -> bool {
    &&& grant.tag@ == tag
    &&& grant.access matches CapAccess::Assigned { secret: held, assignees }
    &&& held@ == secret
    &&& assignees@.len() == 1
    &&& assignees@[0]@ == assignee
    &&& grant.functions matches GrantedFunctions::Listed(functions)
    &&& functions@.len() == 1
    &&& functions@[0].zome_name@ == zome_name
    &&& functions@[0].fn_name@ == fn_name
}

/// Writes a grant that lets `assignee`, and nobody else, call
/// `allowed_function`, and nothing else, with a new secret. `random` is what
/// the random source gave when asked for the bytes of a secret: they become
/// the secret, and any other number of them than a secret has is a fault.
/// `tag` travels with the grant. The secret is in the grant: it goes to the
/// assignee by a channel of the caller's choosing.
pub fn issue_grant(
    assignee: AgentId,
    allowed_function: GrantedFunction,
    tag: String,
    random: Vec<u8>,
) -> (granted: Result<CapGrantEntry, Fault>)
    ensures
        random@.len() == CAP_SECRET_BYTES ==> (granted matches Ok(grant) && restricts(
            &grant,
            assignee@,
            allowed_function.zome_name@,
            allowed_function.fn_name@,
            tag@,
            random@,
        )),
        random@.len() != CAP_SECRET_BYTES ==> granted == Err::<CapGrantEntry, Fault>(
            Fault::BadSecret,
        ),
{
    let secret = match build_secret(random) {
        Ok(secret) => secret,
        Err(fault) => {
            return Err(fault);
        },
    };
    let mut assignees: Vec<AgentId> = Vec::new();
    assignees.push(assignee);
    let mut functions: Vec<GrantedFunction> = Vec::new();
    functions.push(allowed_function);
    Ok(
        CapGrantEntry {
            tag,
            access: CapAccess::Assigned { secret, assignees },
            functions: GrantedFunctions::Listed(functions),
        },
    )
}

/// Writes the claim by which an agent remembers `secret`, granted by
/// `grantor`, under `tag`. Nothing keeps an agent from holding several claims
/// from one grantor.
pub fn store_claim(secret: CapSecret, grantor: AgentId, tag: String) -> (claim: CapClaim)
    ensures
        claim.secret@ == secret@,
        claim.grantor@ == grantor@,
        claim.tag@ == tag@,
{
    CapClaim { tag, grantor, secret }
}

/// Whether `claims[i]` is the first claim from `grantor`.
pub open spec fn first_claim_at(claims: Seq<CapClaim>, grantor: Seq<u8>, i: int) -> bool {
    &&& 0 <= i < claims.len()
    &&& claims[i].grantor@ == grantor
    &&& forall|j: int| 0 <= j < i ==> (#[trigger] claims[j]).grantor@ != grantor
}

/// The claim to present to `grantor`: the first of them that names it.
pub open spec fn claim_for(claims: Seq<CapClaim>, grantor: Seq<u8>) -> Option<CapClaim> {
    if exists|i: int| first_claim_at(claims, grantor, i) {
        Some(claims[choose|i: int| first_claim_at(claims, grantor, i)])
    } else {
        None
    }
}

/// The first claim from `grantor` is the one to present.
pub proof fn lemma_claim_for_first(claims: Seq<CapClaim>, grantor: Seq<u8>, i: int)
    requires
        first_claim_at(claims, grantor, i),
    ensures
        claim_for(claims, grantor) == Some(claims[i]),
{
    let k = choose|k: int| first_claim_at(claims, grantor, k);
    assert(first_claim_at(claims, grantor, k));
    if k < i {
        assert(claims[k].grantor@ != grantor);
    }
    if i < k {
        assert(claims[i].grantor@ != grantor);
    }
}

/// Finds the claim to present to `grantor` among the claims of this agent's
/// chain, given in the order of the chain. To find none is no fault: the
/// caller says that it has no capability.
pub fn resolve_claim<'a>(claims: &'a Vec<CapClaim>, grantor: &AgentId) -> (found: Option<
    &'a CapClaim,
>)
    ensures
        found matches Some(claim) ==> claim_for(claims@, grantor@) == Some(*claim),
        found is None ==> claim_for(claims@, grantor@) is None,
        found is None <==> forall|i: int|
            0 <= i < claims@.len() ==> (#[trigger] claims@[i]).grantor@ != grantor@,
{
    let mut i: usize = 0;
    while i < claims.len()
        invariant
            i <= claims@.len(),
            forall|j: int| 0 <= j < i ==> (#[trigger] claims@[j]).grantor@ != grantor@,
        decreases claims@.len() - i,
    {
        if claims[i].grantor == *grantor {
            proof {
                lemma_claim_for_first(claims@, grantor@, i as int);
            }
            return Some(&claims[i]);
        }
        i += 1;
    }
    None
}

} // verus!
