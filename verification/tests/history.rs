use private_publication::action::{
    Action, Create, CreateLink, Delete, DeleteLink, EntryType, EntryVisibility, Update,
};
use private_publication::address::{Address, AgentId, NetworkId};
use private_publication::op::{Op, OpRecord};
use private_publication::properties::Network;
use private_publication::record::{Record, RecordEntry, RecordStore};
use private_publication::verdict::{Fault, Reason, Verdict};
use private_publication::{validate, EntryTypes, LinkTypes, Post, PublicationRole};

const PROGENITOR: u8 = 1;
const EDITOR: u8 = 2;
const STRANGER: u8 = 3;

fn agent(n: u8) -> AgentId {
    AgentId::new(vec![n; 39])
}

fn address(n: u8) -> Address {
    Address::new(vec![n; 39])
}

fn network() -> Network {
    Network::new(NetworkId::new(vec![200; 39]), agent(PROGENITOR))
}

fn post(title: &str) -> Post {
    Post { title: title.to_string(), content: String::new() }
}

/// What someone tries to put on the ledger.
#[derive(Clone)]
enum Attempt {
    Post { author: u8, title: &'static str },
    Role { author: u8, name: &'static str, assignee: u8 },
    UpdatePost { author: u8, original: u8, title: &'static str },
    UpdateRole { author: u8, original: u8, assignee: u8 },
    Delete { author: u8, original: u8 },
    Link { author: u8, target: u8 },
    DeleteLink { author: u8, original: u8 },
}

/// What the ledger keeps of an attempt that the rules accepted.
struct Kept {
    hash: u8,
    attempt: Attempt,
}

fn create(author: u8) -> Create {
    Create {
        author: agent(author),
        timestamp: 0,
        prev_action: address(0),
        entry_type: EntryType::App(EntryVisibility::Public),
    }
}

fn update(author: u8, original: u8) -> Update {
    Update {
        author: agent(author),
        timestamp: 0,
        prev_action: address(0),
        entry_type: EntryType::App(EntryVisibility::Public),
        original_action_address: address(original),
    }
}

fn delete(author: u8, original: u8) -> Delete {
    Delete {
        author: agent(author),
        timestamp: 0,
        prev_action: address(0),
        deletes_address: address(original),
    }
}

fn create_link(author: u8, target: u8) -> CreateLink {
    CreateLink {
        author: agent(author),
        timestamp: 0,
        prev_action: address(0),
        base_address: address(250),
        target_address: address(target),
        link_type: Some(LinkTypes::PathToPost),
        tag: vec![],
    }
}

fn delete_link(author: u8, original: u8) -> DeleteLink {
    DeleteLink {
        author: agent(author),
        timestamp: 0,
        prev_action: address(0),
        base_address: address(250),
        link_add_address: address(original),
    }
}

fn role(name: &str, assignee: u8) -> PublicationRole {
    PublicationRole { role: name.to_string(), assignee: agent(assignee) }
}

fn storing(attempt: &Attempt) -> Op {
    Op::StoreRecord(match attempt.clone() {
        Attempt::Post { author, title } => {
            OpRecord::CreateEntry { app_entry: EntryTypes::Post(post(title)), action: create(author) }
        }
        Attempt::Role { author, name, assignee } => OpRecord::CreateEntry {
            app_entry: EntryTypes::PublicationRole(role(name, assignee)),
            action: create(author),
        },
        Attempt::UpdatePost { author, original, title } => OpRecord::UpdateEntry {
            original_action_hash: address(original),
            app_entry: EntryTypes::Post(post(title)),
            action: update(author, original),
        },
        Attempt::UpdateRole { author, original, assignee } => OpRecord::UpdateEntry {
            original_action_hash: address(original),
            app_entry: EntryTypes::PublicationRole(role("editor", assignee)),
            action: update(author, original),
        },
        Attempt::Delete { author, original } => OpRecord::DeleteEntry {
            original_action_hash: address(original),
            action: delete(author, original),
        },
        Attempt::Link { author, target } => OpRecord::CreateLink {
            base_address: address(250),
            target_address: address(target),
            tag: vec![],
            link_type: LinkTypes::PathToPost,
            action: create_link(author, target),
        },
        Attempt::DeleteLink { author, original } => OpRecord::DeleteLink {
            original_action_hash: address(original),
            base_address: address(250),
            action: delete_link(author, original),
        },
    })
}

fn record(hash: u8, attempt: &Attempt) -> Record {
    let (action, entry) = match attempt.clone() {
        Attempt::Post { author, title } => {
            (Action::Create(create(author)), RecordEntry::Post(post(title)))
        }
        Attempt::Role { author, name, assignee } => {
            (Action::Create(create(author)), RecordEntry::PublicationRole(role(name, assignee)))
        }
        Attempt::UpdatePost { author, original, title } => {
            (Action::Update(update(author, original)), RecordEntry::Post(post(title)))
        }
        Attempt::UpdateRole { author, original, assignee } => (
            Action::Update(update(author, original)),
            RecordEntry::PublicationRole(role("editor", assignee)),
        ),
        Attempt::Delete { author, original } => {
            (Action::Delete(delete(author, original)), RecordEntry::Absent)
        }
        Attempt::Link { author, target } => {
            (Action::CreateLink(create_link(author, target)), RecordEntry::Absent)
        }
        Attempt::DeleteLink { author, original } => {
            (Action::DeleteLink(delete_link(author, original)), RecordEntry::Absent)
        }
    };
    Record { hash: address(hash), action, entry }
}

/// A ledger that keeps what the rules accept and nothing else.
struct Ledger {
    store: RecordStore,
    kept: Vec<Kept>,
}

impl Ledger {
    fn new() -> Ledger {
        Ledger { store: RecordStore::new(), kept: vec![] }
    }

    fn attempt(&mut self, attempt: Attempt) -> Result<Verdict, Fault> {
        let outcome = validate(storing(&attempt), &self.store, &network());
        if outcome == Ok(Verdict::Valid) {
            let hash = self.kept.len() as u8 + 10;
            self.store.append(record(hash, &attempt));
            self.kept.push(Kept { hash, attempt });
        }
        outcome
    }

    fn holds_post_at(&self, before: usize, hash: u8) -> Option<u8> {
        self.kept[..before].iter().find(|kept| kept.hash == hash).and_then(|kept| {
            match kept.attempt {
                Attempt::Post { author, .. } | Attempt::UpdatePost { author, .. } => Some(author),
                _ => None,
            }
        })
    }

    /// Checks, record by record, what must hold of every ledger.
    fn assert_invariants(&self) {
        for (at, kept) in self.kept.iter().enumerate() {
            match kept.attempt {
                Attempt::Post { author, .. } | Attempt::UpdatePost { author, .. } => {
                    let made_editor = self.kept[..at].iter().any(|earlier| {
                        matches!(earlier.attempt,
                            Attempt::Role { name: "editor", assignee, .. } if assignee == author)
                    });
                    assert!(author == PROGENITOR || made_editor);
                }
                Attempt::Role { author, name, .. } => {
                    assert_eq!(author, PROGENITOR);
                    assert_eq!(name, "editor");
                }
                Attempt::UpdateRole { .. } => panic!("a role was replaced"),
                Attempt::Delete { original, .. } => {
                    let deleted = self.kept.iter().find(|kept| kept.hash == original);
                    assert!(deleted.is_none(), "something of this ledger was deleted");
                }
                Attempt::Link { target, .. } => {
                    assert!(self.holds_post_at(at, target).is_some());
                }
                Attempt::DeleteLink { .. } => panic!("a link was deleted"),
            }
            if let Attempt::UpdatePost { author, original, .. } = kept.attempt {
                assert_eq!(self.holds_post_at(at, original), Some(author));
            }
        }
    }
}

#[test]
fn ledger_keeps_only_what_the_rules_accept() {
    let mut ledger = Ledger::new();
    let attempts = vec![
        (Attempt::Post { author: EDITOR, title: "early" }, Err(Fault::RoleNotFound)),
        (Attempt::Post { author: PROGENITOR, title: "a" }, Ok(Verdict::Valid)),
        (
            Attempt::Role { author: EDITOR, name: "editor", assignee: EDITOR },
            Ok(Verdict::Invalid(Reason::RoleNotByProgenitor)),
        ),
        (
            Attempt::Role { author: PROGENITOR, name: "owner", assignee: EDITOR },
            Ok(Verdict::Invalid(Reason::RoleNotEditor)),
        ),
        (Attempt::Role { author: PROGENITOR, name: "editor", assignee: EDITOR }, Ok(Verdict::Valid)),
        (Attempt::Post { author: EDITOR, title: "b" }, Ok(Verdict::Valid)),
        (Attempt::Post { author: STRANGER, title: "c" }, Err(Fault::RoleNotFound)),
        (Attempt::Link { author: STRANGER, target: 10 }, Ok(Verdict::Valid)),
        (
            Attempt::Link { author: EDITOR, target: 11 },
            Ok(Verdict::Invalid(Reason::LinkTargetNotPost)),
        ),
        (Attempt::Link { author: EDITOR, target: 99 }, Err(Fault::RecordNotFound)),
        (
            Attempt::Delete { author: EDITOR, original: 12 },
            Ok(Verdict::Invalid(Reason::PostDeleted)),
        ),
        (
            Attempt::Delete { author: PROGENITOR, original: 11 },
            Ok(Verdict::Invalid(Reason::RoleDeleted)),
        ),
        (
            Attempt::Delete { author: PROGENITOR, original: 13 },
            Ok(Verdict::Invalid(Reason::DeleteOfNonEntry)),
        ),
        (
            Attempt::DeleteLink { author: STRANGER, original: 13 },
            Ok(Verdict::Invalid(Reason::LinkDeleted)),
        ),
        (
            Attempt::UpdatePost { author: PROGENITOR, original: 12, title: "mine now" },
            Ok(Verdict::Invalid(Reason::UpdateNotByAuthor)),
        ),
        (Attempt::UpdatePost { author: EDITOR, original: 12, title: "b2" }, Ok(Verdict::Valid)),
        (
            Attempt::UpdatePost { author: EDITOR, original: 11, title: "role to post" },
            Ok(Verdict::Invalid(Reason::EntryTypesDiffer)),
        ),
        (
            Attempt::UpdateRole { author: PROGENITOR, original: 11, assignee: STRANGER },
            Ok(Verdict::Invalid(Reason::RoleUpdated)),
        ),
        (
            Attempt::UpdateRole { author: PROGENITOR, original: 10, assignee: STRANGER },
            Ok(Verdict::Invalid(Reason::EntryTypesDiffer)),
        ),
        (Attempt::Link { author: EDITOR, target: 14 }, Ok(Verdict::Valid)),
    ];
    for (attempt, expected) in attempts {
        assert_eq!(ledger.attempt(attempt), expected);
        ledger.assert_invariants();
    }
    assert_eq!(ledger.kept.len(), 6);
    assert_eq!(ledger.store.len(), 6);
}

#[test]
fn every_order_of_attempts_leaves_a_ledger_that_holds() {
    let attempts = vec![
        Attempt::Post { author: PROGENITOR, title: "a" },
        Attempt::Post { author: EDITOR, title: "b" },
        Attempt::Role { author: PROGENITOR, name: "editor", assignee: EDITOR },
        Attempt::Role { author: EDITOR, name: "editor", assignee: STRANGER },
        Attempt::Link { author: EDITOR, target: 10 },
        Attempt::Delete { author: EDITOR, original: 10 },
        Attempt::UpdatePost { author: EDITOR, original: 10, title: "b2" },
    ];
    let count = attempts.len();
    let mut order: Vec<usize> = (0..count).collect();
    let mut counters = vec![0usize; count];
    let mut runs = 0;
    let mut at = 0;
    loop {
        let mut ledger = Ledger::new();
        for index in order.iter() {
            let _ = ledger.attempt(attempts[*index].clone());
            ledger.assert_invariants();
        }
        runs += 1;
        // The next permutation, by Heap's method.
        while at < count && counters[at] >= at {
            counters[at] = 0;
            at += 1;
        }
        if at == count {
            break;
        }
        if at % 2 == 0 {
            order.swap(0, at);
        } else {
            order.swap(counters[at], at);
        }
        counters[at] += 1;
        at = 0;
    }
    assert_eq!(runs, 5040);
}
