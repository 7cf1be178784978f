use private_publication::action::{
    Action, AgentValidationPkg, Create, CreateLink, Delete, DeleteLink, EntryType,
    EntryVisibility, Update,
};
use private_publication::address::{Address, AgentId, NetworkId};
use private_publication::lookup::{next_lookup, Lookup};
use private_publication::op::{Op, OpActivity, OpDelete, OpEntry, OpRecord, OpUpdate};
use private_publication::properties::Network;
use private_publication::record::{Record, RecordEntry, RecordStore};
use private_publication::verdict::{Fault, Reason, Verdict};
use private_publication::{validate, EntryTypes, LinkTypes, Post, PublicationRole};

const PROGENITOR: u8 = 1;
const EDITOR: u8 = 2;
const STRANGER: u8 = 3;

fn agent(n: u8) -> AgentId {
    AgentId::new(vec![n; 39])
}

fn address(n: u8) -> Address {
    Address::new(vec![n; 39])
}

fn network() -> Network {
    Network::new(NetworkId::new(vec![200; 39]), agent(PROGENITOR))
}

fn a_post() -> EntryTypes {
    EntryTypes::Post(Post { title: "a".to_string(), content: "b".to_string() })
}

fn editor_role(assignee: u8) -> EntryTypes {
    EntryTypes::PublicationRole(PublicationRole::editor(agent(assignee)))
}

fn create(author: u8) -> Create {
    Create {
        author: agent(author),
        timestamp: 1,
        prev_action: address(80),
        entry_type: EntryType::App(EntryVisibility::Public),
    }
}

fn update(author: u8, original: u8) -> Update {
    Update {
        author: agent(author),
        timestamp: 2,
        prev_action: address(81),
        entry_type: EntryType::App(EntryVisibility::Public),
        original_action_address: address(original),
    }
}

fn delete(author: u8, original: u8) -> Delete {
    Delete {
        author: agent(author),
        timestamp: 3,
        prev_action: address(82),
        deletes_address: address(original),
    }
}

fn create_link(author: u8, target: u8) -> CreateLink {
    CreateLink {
        author: agent(author),
        timestamp: 4,
        prev_action: address(83),
        base_address: address(50),
        target_address: address(target),
        link_type: Some(LinkTypes::PathToPost),
        tag: vec![],
    }
}

fn delete_link(author: u8, original: u8) -> DeleteLink {
    DeleteLink {
        author: agent(author),
        timestamp: 5,
        prev_action: address(84),
        base_address: address(50),
        link_add_address: address(original),
    }
}

fn post_record(hash: u8, author: u8) -> Record {
    Record {
        hash: address(hash),
        action: Action::Create(create(author)),
        entry: RecordEntry::Post(Post { title: "t".to_string(), content: String::new() }),
    }
}

fn wanted(op: &Op, store: &RecordStore) -> Option<Lookup> {
    next_lookup(op, store, &network())
}

fn assert_wants_record(op: &Op, store: &RecordStore, hash: u8) {
    match wanted(op, store) {
        Some(Lookup::Record(found)) => assert_eq!(found, address(hash)),
        other => panic!("wanted {:?}", other),
    }
}

fn assert_wants_role(op: &Op, store: &RecordStore, assignee: u8) {
    match wanted(op, store) {
        Some(Lookup::Entry(found)) => assert_eq!(found, editor_role(assignee)),
        other => panic!("wanted {:?}", other),
    }
}

fn post_by(author: u8) -> Op {
    Op::StoreRecord(OpRecord::CreateEntry { app_entry: a_post(), action: create(author) })
}

fn post_update_by(author: u8, original: u8) -> Op {
    Op::StoreRecord(OpRecord::UpdateEntry {
        original_action_hash: address(original),
        app_entry: a_post(),
        action: update(author, original),
    })
}

#[test]
fn post_of_the_progenitor_wants_nothing() {
    assert!(wanted(&post_by(PROGENITOR), &RecordStore::new()).is_none());
}

#[test]
fn post_of_anyone_else_wants_the_role() {
    let mut store = RecordStore::new();
    assert_wants_role(&post_by(EDITOR), &store, EDITOR);
    store.append_entry(editor_role(STRANGER));
    assert_wants_role(&post_by(EDITOR), &store, EDITOR);
    store.append_entry(editor_role(EDITOR));
    assert!(wanted(&post_by(EDITOR), &store).is_none());
}

#[test]
fn stored_entries_want_the_role_too() {
    let store = RecordStore::new();
    let created = Op::StoreEntry(OpEntry::CreateEntry { app_entry: a_post(), action: create(EDITOR) });
    assert_wants_role(&created, &store, EDITOR);
    let updated =
        Op::StoreEntry(OpEntry::UpdateEntry { app_entry: a_post(), action: update(EDITOR, 9) });
    assert_wants_role(&updated, &store, EDITOR);
}

#[test]
fn roles_and_marks_want_nothing() {
    let store = RecordStore::new();
    let ops = vec![
        Op::StoreRecord(OpRecord::CreateEntry {
            app_entry: editor_role(EDITOR),
            action: create(STRANGER),
        }),
        Op::StoreEntry(OpEntry::Other),
        Op::StoreRecord(OpRecord::Other),
        Op::RegisterUpdate(OpUpdate::Other),
        Op::RegisterDelete(OpDelete::Other),
        Op::RegisterAgentActivity(OpActivity::Other),
        Op::RegisterDeleteLink {
            original_action: create_link(EDITOR, 11),
            base_address: address(50),
            target_address: address(11),
            tag: vec![],
            link_type: LinkTypes::PathToPost,
            action: delete_link(EDITOR, 13),
        },
    ];
    for op in ops {
        assert!(wanted(&op, &store).is_none());
    }
}

#[test]
fn links_want_their_target() {
    let mut store = RecordStore::new();
    let registered = Op::RegisterCreateLink {
        base_address: address(50),
        target_address: address(11),
        tag: vec![],
        link_type: LinkTypes::PathToPost,
        action: create_link(EDITOR, 11),
    };
    let stored = Op::StoreRecord(OpRecord::CreateLink {
        base_address: address(50),
        target_address: address(11),
        tag: vec![],
        link_type: LinkTypes::PathToPost,
        action: create_link(EDITOR, 11),
    });
    assert_wants_record(&registered, &store, 11);
    assert_wants_record(&stored, &store, 11);
    store.append(post_record(11, EDITOR));
    assert!(wanted(&registered, &store).is_none());
    assert!(wanted(&stored, &store).is_none());
}

#[test]
fn deletes_want_what_they_delete() {
    let mut store = RecordStore::new();
    let entry = Op::StoreRecord(OpRecord::DeleteEntry {
        original_action_hash: address(11),
        action: delete(EDITOR, 11),
    });
    let link = Op::StoreRecord(OpRecord::DeleteLink {
        original_action_hash: address(11),
        base_address: address(50),
        action: delete_link(EDITOR, 11),
    });
    assert_wants_record(&entry, &store, 11);
    assert_wants_record(&link, &store, 11);
    store.append(post_record(11, EDITOR));
    assert!(wanted(&entry, &store).is_none());
    assert!(wanted(&link, &store).is_none());
}

#[test]
fn join_wants_the_action_before() {
    let mut store = RecordStore::new();
    let op = Op::RegisterAgentActivity(OpActivity::CreateAgent {
        agent: agent(EDITOR),
        action: Create {
            author: agent(EDITOR),
            timestamp: 1,
            prev_action: address(21),
            entry_type: EntryType::AgentPubKey,
        },
    });
    match wanted(&op, &store) {
        Some(Lookup::Action(found)) => assert_eq!(found, address(21)),
        other => panic!("wanted {:?}", other),
    }
    store.append(Record {
        hash: address(21),
        action: Action::AgentValidationPkg(AgentValidationPkg {
            author: agent(EDITOR),
            timestamp: 0,
            prev_action: address(20),
            membrane_proof: None,
        }),
        entry: RecordEntry::Absent,
    });
    assert!(wanted(&op, &store).is_none());
    assert_eq!(
        validate(op, &store, &network()),
        Ok(Verdict::Invalid(Reason::NoMembraneProof))
    );
}

#[test]
fn update_wants_the_record_and_then_the_role() {
    let mut store = RecordStore::new();
    let op = post_update_by(EDITOR, 11);
    assert_wants_record(&op, &store, 11);
    assert_eq!(validate(post_update_by(EDITOR, 11), &store, &network()), Err(Fault::RecordNotFound));
    store.append(post_record(11, EDITOR));
    assert_wants_role(&op, &store, EDITOR);
    assert_eq!(validate(post_update_by(EDITOR, 11), &store, &network()), Err(Fault::RoleNotFound));
    store.append_entry(editor_role(EDITOR));
    assert!(wanted(&op, &store).is_none());
    assert_eq!(validate(post_update_by(EDITOR, 11), &store, &network()), Ok(Verdict::Valid));
}

#[test]
fn update_of_what_is_no_entry_wants_no_role() {
    let mut store = RecordStore::new();
    store.append(Record {
        hash: address(11),
        action: Action::Delete(delete(EDITOR, 5)),
        entry: RecordEntry::Absent,
    });
    let op = post_update_by(STRANGER, 11);
    assert!(wanted(&op, &store).is_none());
    assert_eq!(
        validate(op, &store, &network()),
        Ok(Verdict::Invalid(Reason::UpdateOfNonEntry))
    );
}

#[test]
fn update_of_a_role_wants_only_the_record() {
    let mut store = RecordStore::new();
    let op = Op::StoreRecord(OpRecord::UpdateEntry {
        original_action_hash: address(11),
        app_entry: editor_role(EDITOR),
        action: update(STRANGER, 11),
    });
    assert_wants_record(&op, &store, 11);
    store.append(post_record(11, EDITOR));
    assert!(wanted(&op, &store).is_none());
}

/// What a host does: resolve what the rules want until they want nothing.
fn settle(op: &Op, ledger: &[Record], roles: &[u8]) -> (RecordStore, usize) {
    let mut store = RecordStore::new();
    let mut lookups = 0;
    while let Some(lookup) = next_lookup(op, &store, &network()) {
        lookups += 1;
        assert!(lookups <= 2);
        match lookup {
            Lookup::Record(hash) | Lookup::Action(hash) => {
                match ledger.iter().position(|record| record.hash == hash) {
                    Some(at) => store.append(Record {
                        hash,
                        action: match &ledger[at].action {
                            Action::Create(action) => Action::Create(action.clone()),
                            Action::Update(action) => Action::Update(action.clone()),
                            Action::Delete(action) => Action::Delete(action.clone()),
                            _ => Action::Dna,
                        },
                        entry: match &ledger[at].entry {
                            RecordEntry::Post(post) => RecordEntry::Post(post.clone()),
                            RecordEntry::PublicationRole(role) => {
                                RecordEntry::PublicationRole(role.clone())
                            }
                            _ => RecordEntry::Absent,
                        },
                    }),
                    None => break,
                }
            }
            Lookup::Entry(entry) => {
                if roles.iter().any(|assignee| entry == editor_role(*assignee)) {
                    store.append_entry(entry);
                } else {
                    break;
                }
            }
        }
    }
    (store, lookups)
}

#[test]
fn host_settles_every_operation_in_two_lookups() {
    let ledger = vec![post_record(11, EDITOR), post_record(12, PROGENITOR)];
    let cases: Vec<(Op, Result<Verdict, Fault>, usize)> = vec![
        (post_by(PROGENITOR), Ok(Verdict::Valid), 0),
        (post_by(EDITOR), Ok(Verdict::Valid), 1),
        (post_by(STRANGER), Err(Fault::RoleNotFound), 1),
        (post_update_by(EDITOR, 11), Ok(Verdict::Valid), 2),
        (post_update_by(EDITOR, 12), Ok(Verdict::Invalid(Reason::UpdateNotByAuthor)), 2),
        (post_update_by(PROGENITOR, 12), Ok(Verdict::Valid), 1),
        (post_update_by(STRANGER, 11), Err(Fault::RoleNotFound), 2),
        (post_update_by(EDITOR, 13), Err(Fault::RecordNotFound), 1),
    ];
    for (op, expected, lookups) in cases {
        let (store, made) = settle(&op, &ledger, &[EDITOR]);
        assert_eq!(made, lookups);
        assert_eq!(validate(op, &store, &network()), expected);
    }
}
