use lemmy_apub::activities::Progress;
use lemmy_apub::error::ApubError;
use lemmy_apub::iri::Iri;
use lemmy_apub::objects::{Actor, Entity, ExpectedType};
use lemmy_apub::policy::SitePolicy;
use lemmy_apub::protocol::{AddMod, AnnouncableActivities, AnnounceActivity, RemoveMod};
use lemmy_apub::resolver::{FetchRequest, Fetched, Resolution, Session};
use lemmy_apub::store::{ModLogEntry, Store};

const PUBLIC: &str = "https://www.w3.org/ns/activitystreams#Public";
const COMMUNITY: &str = "https://remote.example/c/main";
const ALICE: &str = "https://remote.example/u/alice";
const PAT: &str = "https://remote.example/u/pat";

fn url(text: &str) -> Iri {
    Iri::parse(text).unwrap()
}

fn site() -> SitePolicy {
    SitePolicy {
        hostname: "local.example".to_string(),
        protocol: "https".to_string(),
        federation_enabled: true,
        blocked: vec![],
        allowed: None,
    }
}

fn actor(id: &str) -> Actor {
    Actor {
        id: url(id),
        inbox: url(&format!("{}/inbox", id)),
        shared_inbox: None,
        public_key: "key".to_string(),
        local: false,
    }
}

/// Community, Alice and Pat are known; Alice moderates the community.
fn world() -> Store {
    let mut store = Store::new();
    store.insert_entity(Entity::Community(actor(COMMUNITY)));
    store.insert_entity(Entity::Person(actor(ALICE)));
    store.insert_entity(Entity::Person(actor(PAT)));
    store.join_moderator(&url(COMMUNITY), &url(ALICE));
    store
}

fn remove_pat() -> RemoveMod {
    RemoveMod {
        actor: url(ALICE),
        to: vec![url(PUBLIC)],
        object: url(PAT),
        target: url("https://remote.example/c/main/moderators"),
        cc: vec![url(COMMUNITY)],
        id: url("https://remote.example/activities/remove/1"),
        unparsed: vec![],
    }
}

fn add_pat() -> AddMod {
    AddMod {
        actor: url(ALICE),
        to: vec![url(PUBLIC)],
        object: url(PAT),
        target: url("https://remote.example/c/main/moderators"),
        cc: vec![url(COMMUNITY)],
        id: url("https://remote.example/activities/add/1"),
        unparsed: vec![],
    }
}

fn line(removed: bool) -> ModLogEntry {
    ModLogEntry { mod_person: url(ALICE), other_person: url(PAT), community: url(COMMUNITY), removed }
}

#[test]
fn a_moderator_removes_a_moderator() {
    let mut store = world();
    store.join_moderator(&url(COMMUNITY), &url(PAT));
    let mut session = Session::new(5);
    let remove = remove_pat();
    assert_eq!(remove.verify(&mut session, &store, &site()), Progress::Complete);
    assert_eq!(remove.receive(&mut session, &mut store), Progress::Complete);
    assert!(!store.is_moderator(&url(COMMUNITY), &url(PAT)));
    assert!(store.is_moderator(&url(COMMUNITY), &url(ALICE)));
    assert_eq!(store.mod_log(), &vec![line(true)]);
    assert_eq!(session.budget(), 5);
}

#[test]
fn the_accessors_give_the_envelopes_fields() {
    let remove = remove_pat();
    assert_eq!(remove.id().as_str(), "https://remote.example/activities/remove/1");
    assert_eq!(remove.actor().as_str(), ALICE);
    let add = add_pat();
    assert_eq!(add.id().as_str(), "https://remote.example/activities/add/1");
    assert_eq!(add.actor().as_str(), ALICE);
    let wrapped = AnnouncableActivities::RemoveMod(remove);
    assert_eq!(wrapped.id().as_str(), "https://remote.example/activities/remove/1");
    assert_eq!(wrapped.actor().as_str(), ALICE);
    assert_eq!(wrapped.kind().as_path(), "remove");
    assert_eq!(AnnouncableActivities::AddMod(add).kind().as_path(), "add");
}

#[test]
fn the_community_is_the_one_behind_the_target() {
    let store = world();
    let mut session = Session::new(5);
    assert_eq!(
        remove_pat().get_community(&mut session, &store),
        Resolution::Found(Entity::Community(actor(COMMUNITY)))
    );
    assert_eq!(
        add_pat().get_community(&mut session, &store),
        Resolution::Found(Entity::Community(actor(COMMUNITY)))
    );
}

#[test]
fn a_moderator_adds_a_moderator() {
    let mut store = world();
    let mut session = Session::new(5);
    let add = AnnouncableActivities::AddMod(add_pat());
    assert_eq!(add.handle(&mut session, &mut store, &site()), Progress::Complete);
    assert!(store.is_moderator(&url(COMMUNITY), &url(PAT)));
    assert_eq!(store.mod_log(), &vec![line(false)]);
}

#[test]
fn adding_and_then_removing_restores_the_moderators() {
    let mut store = world();
    let add = AnnouncableActivities::AddMod(add_pat());
    let remove = AnnouncableActivities::RemoveMod(remove_pat());
    assert_eq!(add.handle(&mut Session::new(5), &mut store, &site()), Progress::Complete);
    assert_eq!(remove.handle(&mut Session::new(5), &mut store, &site()), Progress::Complete);
    assert!(!store.is_moderator(&url(COMMUNITY), &url(PAT)));
    assert!(store.is_moderator(&url(COMMUNITY), &url(ALICE)));
    assert_eq!(store.mod_log(), &vec![line(false), line(true)]);
}

#[test]
fn adding_a_moderator_twice_adds_one() {
    let mut store = world();
    let add = AnnouncableActivities::AddMod(add_pat());
    assert_eq!(add.handle(&mut Session::new(5), &mut store, &site()), Progress::Complete);
    assert_eq!(add.handle(&mut Session::new(5), &mut store, &site()), Progress::Complete);
    let remove = remove_pat();
    assert_eq!(remove.receive(&mut Session::new(5), &mut store), Progress::Complete);
    assert!(!store.is_moderator(&url(COMMUNITY), &url(PAT)));
}

#[test]
fn receiving_the_removal_of_a_non_moderator_changes_no_standing() {
    let mut store = world();
    let remove = remove_pat();
    assert_eq!(remove.receive(&mut Session::new(5), &mut store), Progress::Complete);
    assert!(!store.is_moderator(&url(COMMUNITY), &url(PAT)));
    assert!(store.is_moderator(&url(COMMUNITY), &url(ALICE)));
}

#[test]
fn removing_someone_who_is_no_moderator_is_refused() {
    let mut store = world();
    let remove = AnnouncableActivities::RemoveMod(remove_pat());
    assert_eq!(
        remove.handle(&mut Session::new(5), &mut store, &site()),
        Progress::Abort(ApubError::NotAuthorized)
    );
    assert!(store.mod_log().is_empty());
}

#[test]
fn who_is_no_moderator_may_not_remove_one() {
    let mut store = Store::new();
    store.insert_entity(Entity::Community(actor(COMMUNITY)));
    store.insert_entity(Entity::Person(actor(ALICE)));
    store.insert_entity(Entity::Person(actor(PAT)));
    store.add_member(&url(COMMUNITY), &url(ALICE));
    store.join_moderator(&url(COMMUNITY), &url(PAT));
    let remove = AnnouncableActivities::RemoveMod(remove_pat());
    assert_eq!(
        remove.handle(&mut Session::new(5), &mut store, &site()),
        Progress::Abort(ApubError::NotAuthorized)
    );
    assert!(store.mod_log().is_empty());
    assert!(store.is_moderator(&url(COMMUNITY), &url(PAT)));
}

#[test]
fn who_is_no_member_is_not_in_the_community() {
    let mut store = Store::new();
    store.insert_entity(Entity::Community(actor(COMMUNITY)));
    store.insert_entity(Entity::Person(actor(ALICE)));
    store.join_moderator(&url(COMMUNITY), &url(PAT));
    let remove = remove_pat();
    assert_eq!(
        remove.verify(&mut Session::new(5), &store, &site()),
        Progress::Abort(ApubError::ActorNotInCommunity)
    );
}

#[test]
fn an_activity_from_a_blocked_domain_is_refused_first() {
    let mut store = world();
    let mut blocking = site();
    blocking.blocked = vec!["remote.example".to_string()];
    let mut remove = remove_pat();
    remove.to = vec![];
    let before = store.mod_log().len();
    assert_eq!(
        AnnouncableActivities::RemoveMod(remove).handle(&mut Session::new(5), &mut store, &blocking),
        Progress::Abort(ApubError::InvalidIdentity)
    );
    assert_eq!(store.mod_log().len(), before);
}

#[test]
fn a_moderation_that_is_not_public_violates_addressing() {
    let store = world();
    let mut add = add_pat();
    add.to = vec![url(COMMUNITY)];
    assert_eq!(
        add.verify(&mut Session::new(5), &store, &site()),
        Progress::Abort(ApubError::AddressingPolicyViolation)
    );
}

#[test]
fn a_target_that_is_no_moderator_list_is_not_authorised() {
    let store = world();
    let mut add = add_pat();
    add.target = url(COMMUNITY);
    assert_eq!(add.verify(&mut Session::new(5), &store, &site()), Progress::Abort(ApubError::NotAuthorized));
}

#[test]
fn a_target_that_resolves_to_a_person_is_unexpected() {
    let store = world();
    let mut add = add_pat();
    add.target = url("https://remote.example/u/alice/moderators");
    assert_eq!(
        add.verify(&mut Session::new(5), &store, &site()),
        Progress::Abort(ApubError::UnexpectedEntityType)
    );
}

#[test]
fn an_unknown_community_is_fetched_and_handling_resumes() {
    let mut store = Store::new();
    store.insert_entity(Entity::Person(actor(ALICE)));
    store.join_moderator(&url(COMMUNITY), &url(ALICE));
    let mut session = Session::new(2);
    let add = AnnouncableActivities::AddMod(add_pat());

    let wanted = FetchRequest { reference: url(COMMUNITY), expected: ExpectedType::Community };
    assert_eq!(add.handle(&mut session, &mut store, &site()), Progress::Fetch(wanted));
    assert_eq!(session.budget(), 1);
    assert!(session
        .accept(&url(COMMUNITY), ExpectedType::Community, Fetched::Document(Entity::Community(actor(COMMUNITY))))
        .is_ok());

    let wanted = FetchRequest { reference: url(PAT), expected: ExpectedType::Person };
    assert_eq!(add.handle(&mut session, &mut store, &site()), Progress::Fetch(wanted));
    assert_eq!(session.budget(), 0);
    assert!(!store.is_moderator(&url(COMMUNITY), &url(PAT)));
    assert!(store.mod_log().is_empty());
    assert!(session.accept(&url(PAT), ExpectedType::Person, Fetched::Document(Entity::Person(actor(PAT)))).is_ok());

    assert_eq!(add.handle(&mut session, &mut store, &site()), Progress::Complete);
    assert!(store.is_moderator(&url(COMMUNITY), &url(PAT)));
    assert_eq!(store.mod_log(), &vec![line(false)]);
    assert_eq!(session.budget(), 0);
}

#[test]
fn a_fetch_chain_beyond_the_budget_changes_nothing() {
    let mut store = Store::new();
    store.insert_entity(Entity::Person(actor(ALICE)));
    store.join_moderator(&url(COMMUNITY), &url(ALICE));
    let mut session = Session::new(1);
    let add = AnnouncableActivities::AddMod(add_pat());

    assert!(matches!(add.handle(&mut session, &mut store, &site()), Progress::Fetch(_)));
    assert!(session
        .accept(&url(COMMUNITY), ExpectedType::Community, Fetched::Document(Entity::Community(actor(COMMUNITY))))
        .is_ok());
    assert_eq!(
        add.handle(&mut session, &mut store, &site()),
        Progress::Abort(ApubError::BudgetExhausted)
    );
    assert!(!store.is_moderator(&url(COMMUNITY), &url(PAT)));
    assert!(store.is_moderator(&url(COMMUNITY), &url(ALICE)));
    assert!(store.mod_log().is_empty());
}

#[test]
fn without_any_budget_the_first_fetch_is_refused() {
    let mut store = Store::new();
    let remove = AnnouncableActivities::RemoveMod(remove_pat());
    assert_eq!(
        remove.handle(&mut Session::new(0), &mut store, &site()),
        Progress::Abort(ApubError::BudgetExhausted)
    );
    assert!(store.mod_log().is_empty());
}

#[test]
fn an_announced_activity_is_checked_and_applied() {
    let mut store = world();
    let announce = AnnounceActivity {
        actor: url(COMMUNITY),
        to: vec![url(PUBLIC)],
        object: AnnouncableActivities::AddMod(add_pat()),
        cc: vec![url("https://remote.example/c/main/followers")],
        id: url("https://remote.example/activities/announce/1"),
        unparsed: vec![],
    };
    assert_eq!(announce.id().as_str(), "https://remote.example/activities/announce/1");
    assert_eq!(announce.actor().as_str(), COMMUNITY);
    assert_eq!(announce.verify(&mut Session::new(5), &store, &site()), Progress::Complete);
    assert_eq!(announce.handle(&mut Session::new(5), &mut store, &site()), Progress::Complete);
    assert!(store.is_moderator(&url(COMMUNITY), &url(PAT)));
}

#[test]
fn an_announce_is_refused_with_what_it_wraps() {
    let mut store = world();
    let mut inner = add_pat();
    inner.actor = url(PAT);
    let mut announce = AnnounceActivity {
        actor: url(COMMUNITY),
        to: vec![url(PUBLIC)],
        object: AnnouncableActivities::AddMod(inner),
        cc: vec![],
        id: url("https://remote.example/activities/announce/2"),
        unparsed: vec![],
    };
    assert_eq!(
        announce.handle(&mut Session::new(5), &mut store, &site()),
        Progress::Abort(ApubError::ActorNotInCommunity)
    );
    announce.to = vec![];
    assert_eq!(
        announce.handle(&mut Session::new(5), &mut store, &site()),
        Progress::Abort(ApubError::AddressingPolicyViolation)
    );
    announce.id = url("https://local.example/activities/announce/2");
    assert_eq!(
        announce.handle(&mut Session::new(5), &mut store, &site()),
        Progress::Abort(ApubError::InvalidIdentity)
    );
    assert!(store.mod_log().is_empty());
}
