use lemmy_apub::error::ApubError;
use lemmy_apub::iri::Iri;
use lemmy_apub::objects::{Actor, Content, Entity, ExpectedType};
use lemmy_apub::relation::Relation;
use lemmy_apub::store::{ModLogEntry, Store, VoteType};

fn id_of(text: &str) -> Iri {
    Iri::parse(text).unwrap()
}

fn person(name: &str) -> Actor {
    Actor {
        id: id_of(&format!("https://remote.example/u/{}", name)),
        inbox: id_of(&format!("https://remote.example/u/{}/inbox", name)),
        shared_inbox: Some(id_of("https://remote.example/inbox")),
        public_key: format!("key of {}", name),
        local: false,
    }
}

#[test]
fn a_relation_is_a_set() {
    let a = id_of("https://remote.example/c/main");
    let b = id_of("https://remote.example/u/alice");
    let mut relation = Relation::new();
    assert!(!relation.contains(&a, &b));
    relation.insert(&a, &b);
    relation.insert(&a, &b);
    assert!(relation.contains(&a, &b));
    assert!(!relation.contains(&b, &a));
    relation.remove(&a, &b);
    assert!(!relation.contains(&a, &b));
    relation.remove(&a, &b);
    assert!(!relation.contains(&a, &b));
}

#[test]
fn removing_one_pair_keeps_the_others() {
    let c = id_of("https://remote.example/c/main");
    let alice = id_of("https://remote.example/u/alice");
    let bob = id_of("https://remote.example/u/bob");
    let mut relation = Relation::new();
    relation.insert(&c, &alice);
    relation.insert(&c, &bob);
    relation.remove(&c, &alice);
    assert!(!relation.contains(&c, &alice));
    assert!(relation.contains(&c, &bob));
    let copy = relation.clone();
    assert!(copy.contains(&c, &bob));
}

#[test]
fn the_actor_prefers_its_shared_inbox() {
    let mut alice = person("alice");
    assert_eq!(alice.shared_inbox_or_inbox().as_str(), "https://remote.example/inbox");
    alice.shared_inbox = None;
    assert_eq!(alice.shared_inbox_or_inbox().as_str(), "https://remote.example/u/alice/inbox");
    assert_eq!(alice.actor_id().as_str(), "https://remote.example/u/alice");
}

#[test]
fn an_entity_has_one_shape() {
    let alice = Entity::Person(person("alice"));
    assert!(alice.is_a(ExpectedType::Person));
    assert!(!alice.is_a(ExpectedType::Community));
    assert!(!alice.is_a(ExpectedType::PostOrComment));
    let post = Entity::Post(Content {
        id: id_of("https://remote.example/post/1"),
        community: id_of("https://remote.example/c/main"),
    });
    assert!(post.is_a(ExpectedType::PostOrComment));
    assert!(!post.is_a(ExpectedType::Person));
    assert_eq!(post.id().as_str(), "https://remote.example/post/1");
    let comment = Entity::Comment(Content {
        id: id_of("https://remote.example/comment/1"),
        community: id_of("https://remote.example/c/main"),
    });
    assert!(comment.is_a(ExpectedType::PostOrComment));
    assert!(Entity::Community(person("main")).is_a(ExpectedType::Community));
}

#[test]
fn the_store_knows_what_was_inserted() {
    let mut store = Store::new();
    let key = id_of("https://remote.example/u/alice");
    assert_eq!(store.entity(&key), None);
    store.insert_entity(Entity::Person(person("alice")));
    assert_eq!(store.entity(&key), Some(&Entity::Person(person("alice"))));
    let mut moved = person("alice");
    moved.public_key = "new key".to_string();
    store.insert_entity(Entity::Person(moved.clone()));
    assert_eq!(store.entity(&key), Some(&Entity::Person(moved)));
}

#[test]
fn moderators_are_members() {
    let c = id_of("https://remote.example/c/main");
    let alice = id_of("https://remote.example/u/alice");
    let bob = id_of("https://remote.example/u/bob");
    let mut store = Store::new();
    store.join_moderator(&c, &alice);
    store.add_member(&c, &bob);
    assert!(store.is_moderator(&c, &alice));
    assert!(store.is_member(&c, &alice));
    assert!(store.is_member(&c, &bob));
    assert!(!store.is_moderator(&c, &bob));
    store.leave_moderator(&c, &alice);
    assert!(!store.is_moderator(&c, &alice));
    assert!(!store.is_member(&c, &alice));
}

#[test]
fn joining_twice_and_leaving_once_leaves() {
    let c = id_of("https://remote.example/c/main");
    let alice = id_of("https://remote.example/u/alice");
    let mut store = Store::new();
    store.join_moderator(&c, &alice);
    store.join_moderator(&c, &alice);
    store.leave_moderator(&c, &alice);
    assert!(!store.is_moderator(&c, &alice));
    store.leave_moderator(&c, &alice);
    assert!(!store.is_moderator(&c, &alice));
}

#[test]
fn a_person_has_one_vote_per_content() {
    let alice = id_of("https://remote.example/u/alice");
    let post = id_of("https://remote.example/post/1");
    let other = id_of("https://remote.example/post/2");
    let mut store = Store::new();
    assert_eq!(store.vote_of(&alice, &post), None);
    assert_eq!(store.score(&alice, &post), 0);
    store.record_vote(&alice, &post, VoteType::Like);
    store.record_vote(&alice, &post, VoteType::Like);
    assert_eq!(store.vote_of(&alice, &post), Some(VoteType::Like));
    assert_eq!(store.score(&alice, &post), 1);
    store.record_vote(&alice, &post, VoteType::Dislike);
    assert_eq!(store.vote_of(&alice, &post), Some(VoteType::Dislike));
    assert_eq!(store.score(&alice, &post), -1);
    assert_eq!(store.vote_of(&alice, &other), None);
    store.remove_vote(&alice, &post);
    assert_eq!(store.vote_of(&alice, &post), None);
    assert_eq!(store.score(&alice, &post), 0);
}

#[test]
fn the_log_keeps_its_lines_in_order() {
    let mut store = Store::new();
    assert!(store.mod_log().is_empty());
    let first = ModLogEntry {
        mod_person: id_of("https://remote.example/u/alice"),
        other_person: id_of("https://remote.example/u/pat"),
        community: id_of("https://remote.example/c/main"),
        removed: false,
    };
    let second = ModLogEntry { removed: true, ..first.clone() };
    store.append_mod_log(first.clone());
    store.append_mod_log(second.clone());
    assert_eq!(store.mod_log(), &vec![first, second]);
}

#[test]
fn a_commit_that_was_persisted_replaces_the_state() {
    let c = id_of("https://remote.example/c/main");
    let alice = id_of("https://remote.example/u/alice");
    let mut store = Store::new();
    let mut staged = store.clone();
    staged.join_moderator(&c, &alice);
    assert_eq!(store.commit(staged, true), Ok(()));
    assert!(store.is_moderator(&c, &alice));
}

#[test]
fn a_commit_that_was_not_persisted_is_an_apply_failure() {
    let c = id_of("https://remote.example/c/main");
    let alice = id_of("https://remote.example/u/alice");
    let mut store = Store::new();
    store.insert_entity(Entity::Person(person("alice")));
    let mut staged = store.clone();
    staged.join_moderator(&c, &alice);
    assert_eq!(store.commit(staged, false), Err(ApubError::ApplyFailure));
    assert!(!store.is_moderator(&c, &alice));
    assert_eq!(store.entity(&alice), Some(&Entity::Person(person("alice"))));
}
