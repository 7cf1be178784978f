use private_publication::address::{Address, AgentId};
use private_publication::link::{first_target, Link};
use private_publication::profiles::{
    create_profile, get_agent_profile, get_my_profile, get_profile, inner_get_agent_profile,
    profile_link, EntryTypes, LinkTypes, Profile, ProfileEntry,
};
use private_publication::roles::assign_editor_role;
use private_publication::verdict::Fault;
use private_publication::PublicationRole;

fn address(n: u8) -> Address {
    Address::new(vec![n; 39])
}

fn link(target: u8) -> Link {
    Link { target: address(target), tag: vec![], create_link_hash: address(0) }
}

fn profile(nickname: &str) -> Profile {
    Profile { nickname: nickname.to_string() }
}

fn nickname(found: Result<Option<Profile>, Fault>) -> Result<Option<String>, Fault> {
    found.map(|profile| profile.map(|profile| profile.nickname))
}

#[test]
fn profile_is_published_as_an_entry_and_a_link() {
    match create_profile(profile("alice")) {
        EntryTypes::Profile(published) => assert_eq!(published.nickname, "alice"),
    }
    let me = AgentId::new(vec![4; 39]);
    let link = profile_link(&me, address(9));
    assert_eq!(link.base, Address::new(vec![4; 39]));
    assert_eq!(link.target, address(9));
    assert_eq!(link.link_type, LinkTypes::AgentToProfile);
    assert!(link.tag.is_empty());
}

#[test]
fn profile_is_found_by_the_first_link() {
    assert_eq!(first_target(&vec![]), None);
    assert_eq!(inner_get_agent_profile(&vec![]), None);
    assert_eq!(get_agent_profile(&vec![]), None);
    assert_eq!(get_my_profile(&vec![]), None);
    assert_eq!(first_target(&vec![link(3)]), Some(address(3)));
    assert_eq!(inner_get_agent_profile(&vec![link(3), link(4)]), Some(address(3)));
    assert_eq!(get_agent_profile(&vec![link(5), link(4)]), Some(address(5)));
    assert_eq!(get_my_profile(&vec![link(6)]), Some(address(6)));
}

#[test]
fn profile_is_read_from_what_was_fetched() {
    assert_eq!(nickname(get_profile(None)), Ok(None));
    assert_eq!(
        nickname(get_profile(Some(ProfileEntry::Profile(profile("bob"))))),
        Ok(Some("bob".to_string()))
    );
    assert_eq!(profile("bob").clone().nickname, "bob");
}

#[test]
fn record_without_a_profile_is_a_fault() {
    assert_eq!(nickname(get_profile(Some(ProfileEntry::Absent))), Err(Fault::EntryMissing));
    assert_eq!(
        nickname(get_profile(Some(ProfileEntry::Undecodable))),
        Err(Fault::UndecodableEntry)
    );
}

#[test]
fn editor_role_is_assigned_as_an_entry() {
    let entry = assign_editor_role(AgentId::new(vec![2; 39]));
    assert_eq!(
        entry,
        private_publication::EntryTypes::PublicationRole(PublicationRole {
            role: "editor".to_string(),
            assignee: AgentId::new(vec![2; 39]),
        })
    );
}
