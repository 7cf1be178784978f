use std::collections::BTreeSet;

use private_publication::action::{
    Action, AgentValidationPkg, Create, EntryType, EntryVisibility,
};
use private_publication::address::{Address, AgentId, NetworkId};
use private_publication::call::{
    answer_from_response, Call, CallTarget, CallTargetCell, ZomeCallResponse,
};
use private_publication::capability::{
    CapAccess, CapClaim, CapGrant, CapGrantEntry, CapSecret, GrantedFunctions,
};
use private_publication::lobby::{
    create_membrane_proof_for, grant_capability_to_read, read_posts_for_author,
    request_read_private_publication_posts, store_capability_claim, GrantCapabilityToReadInput,
    StoreCapabilityClaimInput,
};
use private_publication::lobby_integrity::EntryTypes as LobbyEntryTypes;
use private_publication::membrane::{
    MembraneProof, PrivatePublicationMembraneProof, SignatureCheck, SignedRecord,
};
use private_publication::op::{Op, OpActivity, OpRecord};
use private_publication::properties::Network;
use private_publication::record::{Record, RecordEntry, RecordStore};
use private_publication::roles::assign_editor_role;
use private_publication::verdict::{Fault, Reason, Verdict};
use private_publication::{validate, EntryTypes, Post};

const LOBBY_ZOME: &str = "private_publication_lobby";

fn key(n: u8) -> hdk::prelude::AgentPubKey {
    hdk::prelude::AgentPubKey::from_raw_36(vec![n; 36])
}

fn agent(n: u8) -> AgentId {
    AgentId::new(key(n).get_raw_39().to_vec())
}

fn host_key(agent: &AgentId) -> hdk::prelude::AgentPubKey {
    hdk::prelude::AgentPubKey::from_raw_39(agent.bytes.clone()).unwrap()
}

fn host_secret(secret: &CapSecret) -> hdk::prelude::CapSecret {
    hdk::prelude::CapSecret::try_from(secret.as_bytes().clone()).unwrap()
}

fn network_id(core: u8) -> NetworkId {
    let core = vec![core; 32];
    let mut bytes = vec![0x84, 0x2d, 0x24];
    bytes.extend_from_slice(&core);
    bytes.extend_from_slice(&holo_hash::encode::holo_dht_location_bytes(&core));
    NetworkId::new(bytes)
}

fn random(seed: u8) -> Vec<u8> {
    (0..64u8).map(|i| i.wrapping_mul(13).wrapping_add(seed)).collect()
}

/// A grant of this crate as the host holds it.
fn host_grant(grant: &CapGrantEntry) -> hdk::prelude::CapGrant {
    let access = match &grant.access {
        CapAccess::Unrestricted => hdk::prelude::CapAccess::Unrestricted,
        CapAccess::Transferable { secret } => {
            hdk::prelude::CapAccess::Transferable { secret: host_secret(secret) }
        }
        CapAccess::Assigned { secret, assignees } => hdk::prelude::CapAccess::Assigned {
            secret: host_secret(secret),
            assignees: assignees.iter().map(host_key).collect::<BTreeSet<_>>(),
        },
    };
    let functions = match &grant.functions {
        GrantedFunctions::All => hdk::prelude::GrantedFunctions::All,
        GrantedFunctions::Listed(listed) => hdk::prelude::GrantedFunctions::Listed(
            listed
                .iter()
                .map(|function| {
                    (
                        hdk::prelude::ZomeName::from(function.zome_name.clone()),
                        hdk::prelude::FunctionName::from(function.fn_name.clone()),
                    )
                })
                .collect::<BTreeSet<_>>(),
        ),
    };
    hdk::prelude::CapGrant::RemoteAgent(hdk::prelude::ZomeCallCapGrant {
        tag: grant.tag.clone(),
        access,
        functions,
    })
}

/// One agent's private network as its host keeps it: what the rules have
/// accepted, the posts in the order in which they were accepted, and the
/// grants that the agent has written in the lobby.
struct Host {
    me: AgentId,
    network: Network,
    store: RecordStore,
    posts: Vec<Post>,
    grants: Vec<CapGrantEntry>,
    next_hash: u8,
}

impl Host {
    fn new(me: AgentId, network: Network) -> Host {
        Host { me, network, store: RecordStore::new(), posts: vec![], grants: vec![], next_hash: 1 }
    }

    fn create(&self, author: &AgentId) -> Create {
        Create {
            author: author.clone(),
            timestamp: self.next_hash as i64,
            prev_action: Address::new(vec![self.next_hash - 1; 39]),
            entry_type: EntryType::App(EntryVisibility::Public),
        }
    }

    /// Holds a new entry to the rules, and keeps it if they accept it.
    fn commit(&mut self, author: &AgentId, entry: EntryTypes) -> Result<Verdict, Fault> {
        let op = Op::StoreRecord(OpRecord::CreateEntry {
            app_entry: entry.clone(),
            action: self.create(author),
        });
        let outcome = validate(op, &self.store, &self.network);
        if outcome == Ok(Verdict::Valid) {
            let stored = match entry {
                EntryTypes::Post(post) => {
                    self.posts.push(post.clone());
                    RecordEntry::Post(post)
                }
                EntryTypes::PublicationRole(role) => RecordEntry::PublicationRole(role),
            };
            self.store.append(Record {
                hash: Address::new(vec![self.next_hash; 39]),
                action: Action::Create(self.create(author)),
                entry: stored,
            });
            self.next_hash += 1;
        }
        outcome
    }

    /// Holds the entry of an agent to the rules.
    fn join(&mut self, agent: &AgentId, membrane_proof: Option<MembraneProof>) -> Result<Verdict, Fault> {
        let package = Address::new(vec![self.next_hash; 39]);
        self.store.append(Record {
            hash: package.clone(),
            action: Action::AgentValidationPkg(AgentValidationPkg {
                author: agent.clone(),
                timestamp: 0,
                prev_action: Address::new(vec![0; 39]),
                membrane_proof,
            }),
            entry: RecordEntry::Absent,
        });
        self.next_hash += 1;
        let op = Op::RegisterAgentActivity(OpActivity::CreateAgent {
            agent: agent.clone(),
            action: Create {
                author: agent.clone(),
                timestamp: 1,
                prev_action: package,
                entry_type: EntryType::AgentPubKey,
            },
        });
        validate(op, &self.store, &self.network)
    }

    /// What the host does with a call that reaches this agent in the lobby:
    /// it looks for a grant that the presented secret fits, and only then
    /// lets the handler decide what to read.
    fn receive(&self, caller: &AgentId, call: &Call) -> ZomeCallResponse<Vec<Post>> {
        match &call.target {
            CallTarget::NetworkAgent(to) if *to == self.me => {}
            _ => return ZomeCallResponse::NetworkError("no such agent".to_string()),
        }
        let function = (
            hdk::prelude::ZomeName::from(call.zome_name.clone()),
            hdk::prelude::FunctionName::from(call.fn_name.clone()),
        );
        let presented = call.cap_secret.as_ref().map(host_secret);
        let fitting = self
            .grants
            .iter()
            .find(|grant| host_grant(grant).is_valid(&function, &host_key(caller), presented.as_ref()));
        let grant = match fitting {
            Some(grant) => grant,
            None => return ZomeCallResponse::Unauthorized(call.fn_name.clone()),
        };
        let under = CapGrant::RemoteAgent(CapGrantEntry {
            tag: grant.tag.clone(),
            access: CapAccess::Unrestricted,
            functions: GrantedFunctions::All,
        });
        match request_read_private_publication_posts(&under, self.me.clone()) {
            Ok(read) => self.read(&read),
            Err(fault) => ZomeCallResponse::NetworkError(fault.message()),
        }
    }

    /// The reading of all posts of the cell that `call` names.
    fn read(&self, call: &Call) -> ZomeCallResponse<Vec<Post>> {
        match &call.target {
            CallTarget::ConductorCell(CallTargetCell::OtherCell(cell))
                if cell.dna_hash == self.network.id
                    && cell.agent_pubkey == self.me
                    && call.zome_name == "posts"
                    && call.fn_name == "get_all_posts" =>
            {
                ZomeCallResponse::Success(self.posts.clone())
            }
            _ => ZomeCallResponse::NetworkError("no such cell".to_string()),
        }
    }
}

fn post(title: &str) -> Post {
    Post { title: title.to_string(), content: format!("{} {}", title, title) }
}

fn titles(posts: &[Post]) -> Vec<&str> {
    posts.iter().map(|post| post.title.as_str()).collect()
}

/// The progenitor's host after the progenitor has posted `a` and `b`.
fn publication() -> Host {
    let progenitor = agent(1);
    let mut host = Host::new(progenitor.clone(), Network::new(network_id(9), progenitor.clone()));
    assert_eq!(host.commit(&progenitor, EntryTypes::Post(post("a"))), Ok(Verdict::Valid));
    assert_eq!(host.commit(&progenitor, EntryTypes::Post(post("b"))), Ok(Verdict::Valid));
    host
}

/// The proof that the progenitor issued to `recipient`, as the host shows it
/// to the rules once it has checked the signature.
fn issued_proof(host: &Host, recipient: &AgentId) -> MembraneProof {
    let entry = create_membrane_proof_for(PrivatePublicationMembraneProof {
        recipient: recipient.clone(),
        dna_hash: host.network.id.clone(),
    });
    let LobbyEntryTypes::PrivatePublicationMembraneProof(proof) = entry;
    MembraneProof::Record(SignedRecord {
        author: host.me.clone(),
        signature: SignatureCheck::Verified,
        entry: Some(proof),
    })
}

/// The progenitor grants `reader` the reading, and `reader` keeps the claim.
fn grant_and_claim(host: &mut Host, reader: &AgentId, seed: u8) -> Vec<CapClaim> {
    let input = GrantCapabilityToReadInput {
        reader: reader.clone(),
        private_publication_dna_hash: host.network.id.clone(),
    };
    let grant = grant_capability_to_read(input, random(seed), LOBBY_ZOME.to_string()).unwrap();
    let secret = match &grant.access {
        CapAccess::Assigned { secret, .. } => secret.clone(),
        other => panic!("not assigned: {:?}", other),
    };
    host.grants.push(grant);
    vec![store_capability_claim(StoreCapabilityClaimInput {
        cap_secret: secret,
        author: host.me.clone(),
    })]
}

#[test]
fn capability_round_trip() {
    let mut host = publication();
    let reader = agent(2);
    let claims = grant_and_claim(&mut host, &reader, 40);

    let call = read_posts_for_author(host.me.clone(), &claims, LOBBY_ZOME.to_string()).unwrap();
    assert_eq!(call.cap_secret.as_ref().unwrap().as_bytes(), &random(40));
    let answer = answer_from_response(host.receive(&reader, &call)).unwrap();

    let local = request_read_private_publication_posts(
        &CapGrant::RemoteAgent(CapGrantEntry {
            tag: host.grants[0].tag.clone(),
            access: CapAccess::Unrestricted,
            functions: GrantedFunctions::All,
        }),
        host.me.clone(),
    )
    .unwrap();
    let locally = answer_from_response(host.read(&local)).unwrap();
    assert_eq!(answer, locally);
    assert_eq!(titles(&answer), vec!["a", "b"]);
}

#[test]
fn end_to_end_private_read() {
    let mut host = publication();
    let reader = agent(2);

    let proof = issued_proof(&host, &reader);
    assert_eq!(host.join(&reader, Some(proof)), Ok(Verdict::Valid));

    let claims = grant_and_claim(&mut host, &reader, 41);
    let call = read_posts_for_author(host.me.clone(), &claims, LOBBY_ZOME.to_string()).unwrap();
    let answer = answer_from_response(host.receive(&reader, &call));
    assert_eq!(answer, Ok(vec![post("a"), post("b")]));
}

#[test]
fn reader_without_grant_is_turned_away() {
    let mut host = publication();
    let reader = agent(2);
    let outsider = agent(3);
    let claims = grant_and_claim(&mut host, &reader, 42);

    let none = read_posts_for_author(host.me.clone(), &vec![], LOBBY_ZOME.to_string());
    assert_eq!(none.err(), Some(Fault::NoCapability));

    let call = read_posts_for_author(host.me.clone(), &claims, LOBBY_ZOME.to_string()).unwrap();
    assert_eq!(
        answer_from_response(host.receive(&outsider, &call)),
        Err(Fault::Unauthorized("request_read_private_publication_posts".to_string()))
    );
}

#[test]
fn wrong_secret_is_turned_away() {
    let mut host = publication();
    let reader = agent(2);
    grant_and_claim(&mut host, &reader, 43);
    let forged = vec![store_capability_claim(StoreCapabilityClaimInput {
        cap_secret: private_publication::capability::build_secret(random(44)).unwrap(),
        author: host.me.clone(),
    })];
    let call = read_posts_for_author(host.me.clone(), &forged, LOBBY_ZOME.to_string()).unwrap();
    assert_eq!(
        answer_from_response(host.receive(&reader, &call)),
        Err(Fault::Unauthorized("request_read_private_publication_posts".to_string()))
    );
}

#[test]
fn grant_reads_the_network_it_names_and_no_other() {
    let mut host = publication();
    let reader = agent(2);
    let input = GrantCapabilityToReadInput {
        reader: reader.clone(),
        private_publication_dna_hash: network_id(10),
    };
    let grant = grant_capability_to_read(input, random(45), LOBBY_ZOME.to_string()).unwrap();
    let secret = match &grant.access {
        CapAccess::Assigned { secret, .. } => secret.clone(),
        other => panic!("not assigned: {:?}", other),
    };
    host.grants.push(grant);
    let claims = vec![store_capability_claim(StoreCapabilityClaimInput {
        cap_secret: secret,
        author: host.me.clone(),
    })];
    let call = read_posts_for_author(host.me.clone(), &claims, LOBBY_ZOME.to_string()).unwrap();
    assert_eq!(
        answer_from_response(host.receive(&reader, &call)),
        Err(Fault::NetworkError("no such cell".to_string()))
    );
}

#[test]
fn editor_posts_after_the_progenitor_says_so() {
    let mut host = publication();
    let editor = agent(2);
    assert_eq!(host.commit(&editor, EntryTypes::Post(post("c"))), Err(Fault::RoleNotFound));
    assert_eq!(
        host.commit(&editor, assign_editor_role(editor.clone())),
        Ok(Verdict::Invalid(Reason::RoleNotByProgenitor))
    );
    assert_eq!(host.commit(&editor, EntryTypes::Post(post("c"))), Err(Fault::RoleNotFound));
    let progenitor = host.me.clone();
    assert_eq!(host.commit(&progenitor, assign_editor_role(editor.clone())), Ok(Verdict::Valid));
    assert_eq!(host.commit(&editor, EntryTypes::Post(post("c"))), Ok(Verdict::Valid));
    assert_eq!(titles(&host.posts), vec!["a", "b", "c"]);
}

#[test]
fn agent_without_proof_stays_out() {
    let mut host = publication();
    let other = agent(3);
    assert_eq!(host.join(&other, None), Ok(Verdict::Invalid(Reason::NoMembraneProof)));
    let for_someone_else = issued_proof(&host, &agent(2));
    assert_eq!(
        host.join(&other, Some(for_someone_else)),
        Ok(Verdict::Invalid(Reason::ProofForOtherAgent))
    );
}
