use lemmy_apub::error::ApubError;
use lemmy_apub::iri::Iri;
use lemmy_apub::objects::{Actor, Content, Entity, ExpectedType};
use lemmy_apub::resolver::{FetchRequest, Fetched, Resolution, Session};
use lemmy_apub::store::Store;

fn key_of(text: &str) -> Iri {
    Iri::parse(text).unwrap()
}

fn actor_at(id: &str) -> Actor {
    Actor {
        id: key_of(id),
        inbox: key_of(&format!("{}/inbox", id)),
        shared_inbox: None,
        public_key: "key".to_string(),
        local: false,
    }
}

#[test]
fn a_local_entity_costs_nothing() {
    let mut store = Store::new();
    store.insert_entity(Entity::Person(actor_at("https://local.example/u/alice")));
    let mut session = Session::new(3);
    let found = session.resolve(
        &store,
        &key_of("https://local.example/u/alice"),
        ExpectedType::Person,
        Fetched::Unreachable,
    );
    assert_eq!(found, Ok(Entity::Person(actor_at("https://local.example/u/alice"))));
    assert_eq!(session.budget(), 3);
}

#[test]
fn a_local_entity_is_found_without_budget() {
    let mut store = Store::new();
    store.insert_entity(Entity::Person(actor_at("https://local.example/u/alice")));
    let mut session = Session::new(0);
    let found = session.begin(&store, &key_of("https://local.example/u/alice"), ExpectedType::Person);
    assert_eq!(found, Resolution::Found(Entity::Person(actor_at("https://local.example/u/alice"))));
}

#[test]
fn a_local_entity_of_another_shape_is_unexpected() {
    let mut store = Store::new();
    store.insert_entity(Entity::Person(actor_at("https://local.example/u/alice")));
    let mut session = Session::new(3);
    let found = session.begin(&store, &key_of("https://local.example/u/alice"), ExpectedType::Community);
    assert_eq!(found, Resolution::Failed(ApubError::UnexpectedEntityType));
    assert_eq!(session.budget(), 3);
}

#[test]
fn an_unknown_entity_is_fetched_for_one_unit() {
    let store = Store::new();
    let mut session = Session::new(3);
    let key = key_of("https://remote.example/u/bob");
    let step = session.begin(&store, &key, ExpectedType::Person);
    assert_eq!(
        step,
        Resolution::Fetch(FetchRequest { reference: key.clone(), expected: ExpectedType::Person })
    );
    assert_eq!(session.budget(), 2);
    let bob = Entity::Person(actor_at("https://remote.example/u/bob"));
    assert_eq!(session.accept(&key, ExpectedType::Person, Fetched::Document(bob.clone())), Ok(bob.clone()));
    assert_eq!(session.budget(), 2);
    assert_eq!(session.begin(&store, &key, ExpectedType::Person), Resolution::Found(bob));
    assert_eq!(session.budget(), 2);
}

#[test]
fn resolving_twice_is_paid_for_once() {
    let store = Store::new();
    let mut session = Session::new(3);
    let key = key_of("https://remote.example/u/bob");
    let bob = Entity::Person(actor_at("https://remote.example/u/bob"));
    let first = session.resolve(&store, &key, ExpectedType::Person, Fetched::Document(bob.clone()));
    assert_eq!(first, Ok(bob.clone()));
    assert_eq!(session.budget(), 2);
    let second = session.resolve(&store, &key, ExpectedType::Person, Fetched::Unreachable);
    assert_eq!(second, Ok(bob));
    assert_eq!(session.budget(), 2);
}

#[test]
fn without_budget_a_fetch_is_refused() {
    let store = Store::new();
    let mut session = Session::new(0);
    let key = key_of("https://remote.example/u/bob");
    let bob = Entity::Person(actor_at("https://remote.example/u/bob"));
    assert_eq!(session.begin(&store, &key, ExpectedType::Person), Resolution::Failed(ApubError::BudgetExhausted));
    assert_eq!(
        session.resolve(&store, &key, ExpectedType::Person, Fetched::Document(bob)),
        Err(ApubError::BudgetExhausted)
    );
    assert_eq!(session.budget(), 0);
}

#[test]
fn the_budget_runs_out_after_that_many_fetches() {
    let store = Store::new();
    let mut session = Session::new(2);
    let one = Entity::Person(actor_at("https://remote.example/u/one"));
    let two = Entity::Person(actor_at("https://remote.example/u/two"));
    let three = Entity::Person(actor_at("https://remote.example/u/three"));
    assert!(session
        .resolve(&store, &key_of("https://remote.example/u/one"), ExpectedType::Person, Fetched::Document(one))
        .is_ok());
    assert!(session
        .resolve(&store, &key_of("https://remote.example/u/two"), ExpectedType::Person, Fetched::Document(two))
        .is_ok());
    assert_eq!(
        session.resolve(
            &store,
            &key_of("https://remote.example/u/three"),
            ExpectedType::Person,
            Fetched::Document(three)
        ),
        Err(ApubError::BudgetExhausted)
    );
}

#[test]
fn a_peer_that_does_not_answer_is_unreachable() {
    let store = Store::new();
    let mut session = Session::new(3);
    let key = key_of("https://remote.example/u/bob");
    assert_eq!(
        session.resolve(&store, &key, ExpectedType::Person, Fetched::Unreachable),
        Err(ApubError::UnreachablePeer)
    );
    assert_eq!(session.budget(), 2);
    assert_eq!(
        session.begin(&store, &key, ExpectedType::Person),
        Resolution::Fetch(FetchRequest { reference: key, expected: ExpectedType::Person })
    );
    assert_eq!(session.budget(), 1);
}

#[test]
fn a_document_of_another_shape_is_unexpected() {
    let store = Store::new();
    let mut session = Session::new(3);
    let key = key_of("https://remote.example/post/1");
    let bob = Entity::Person(actor_at("https://remote.example/post/1"));
    assert_eq!(
        session.resolve(&store, &key, ExpectedType::PostOrComment, Fetched::Document(bob)),
        Err(ApubError::UnexpectedEntityType)
    );
}

#[test]
fn a_document_with_another_identifier_is_a_mismatch() {
    let store = Store::new();
    let mut session = Session::new(3);
    let key = key_of("https://remote.example/u/bob");
    let eve = Entity::Person(actor_at("https://evil.example/u/eve"));
    assert_eq!(
        session.resolve(&store, &key, ExpectedType::Person, Fetched::Document(eve)),
        Err(ApubError::IdentityMismatch)
    );
    assert_eq!(
        session.begin(&store, &key, ExpectedType::Person),
        Resolution::Fetch(FetchRequest { reference: key, expected: ExpectedType::Person })
    );
}

#[test]
fn the_shape_is_checked_before_the_identifier() {
    let store = Store::new();
    let mut session = Session::new(3);
    let key = key_of("https://remote.example/post/1");
    let eve = Entity::Person(actor_at("https://evil.example/u/eve"));
    assert_eq!(
        session.accept(&key, ExpectedType::PostOrComment, Fetched::Document(eve)),
        Err(ApubError::UnexpectedEntityType)
    );
}

#[test]
fn a_comment_is_content_too() {
    let store = Store::new();
    let mut session = Session::new(1);
    let key = key_of("https://remote.example/comment/9");
    let comment = Entity::Comment(Content { id: key.clone(), community: key_of("https://remote.example/c/main") });
    assert_eq!(
        session.resolve(&store, &key, ExpectedType::PostOrComment, Fetched::Document(comment.clone())),
        Ok(comment)
    );
    assert_eq!(session.budget(), 0);
}
