//! Resolution of references within one processing session: local entities
//! first, then what the session already fetched, then one network fetch
//! paid for from the session's budget.

use vstd::prelude::*;
use crate::error::ApubError;
use crate::iri::Iri;
use crate::objects::{find, lemma_table_keys, lemma_table_push, table_map, Entity, ExpectedType};
use crate::store::{Store, StoreView};

verus! {

/// What the remote peer answered to a fetch.
#[derive(Debug, PartialEq, Eq)]
pub enum Fetched {
    /// The peer's representation of the entity.
    Document(Entity),
    /// No answer: the peer failed, refused or timed out.
    Unreachable,
}

/// A fetch that the caller has to perform before processing can go on.
#[derive(Debug, PartialEq, Eq)]
pub struct FetchRequest {
    pub reference: Iri,
    pub expected: ExpectedType,
}

/// Where the resolution of one reference stands.
#[derive(Debug, PartialEq, Eq)]
pub enum Resolution {
    /// The entity is known; no fetch was needed.
    Found(Entity),
    /// The entity is unknown; one unit of budget was taken for the fetch.
    Fetch(FetchRequest),
    /// The reference cannot be resolved.
    Failed(ApubError),
}

/// `Resolution` over the model.
pub enum Lookup {
    Found(Entity),
    Fetch(Seq<char>, ExpectedType),
    Failed(ApubError),
}

impl View for Resolution {
    type V = Lookup;

    open spec fn view(&self) -> Lookup {
        match *self {
            Resolution::Found(entity) => Lookup::Found(entity),
            Resolution::Fetch(request) => Lookup::Fetch(request.reference@, request.expected),
            Resolution::Failed(e) => Lookup::Failed(e),
        }
    }
}

/// One session: the fetches it may still make and what it fetched so far.
pub struct Session {
    budget: u32,
    cache: Vec<Entity>,
}

/// A session as a number and a map.
#[verifier::ext_equal]
pub struct SessionView {
    pub budget: nat,
    pub cache: Map<Seq<char>, Entity>,
}

impl SessionView {
    /// Every fetched entity is kept under its own identifier.
    pub open spec fn keyed_by_identifier(self) -> bool {
        forall|key: Seq<char>| #[trigger] self.cache.contains_key(key) ==> self.cache[key].key() == key
    }

    /// The session after it paid for one fetch.
    pub open spec fn charged(self) -> SessionView {
        SessionView { budget: (self.budget - 1) as nat, ..self }
    }
}

impl View for Session {
    type V = SessionView;

    closed spec fn view(&self) -> SessionView {
        SessionView { budget: self.budget as nat, cache: table_map(self.cache@) }
    }
}

/// The entity known under `key`, locally or from this session's fetches.
pub open spec fn known(session: SessionView, store: StoreView, key: Seq<char>) -> Option<Entity> {
    if store.entities.contains_key(key) {
        Some(store.entities[key])
    } else if session.cache.contains_key(key) {
        Some(session.cache[key])
    } else {
        None
    }
}

/// The first step of resolving `key`: a known entity is checked against
/// `expected`; an unknown one needs a fetch, for which budget must be left.
pub open spec fn first_step(session: SessionView, store: StoreView, key: Seq<char>, expected: ExpectedType) -> Lookup {
    match known(session, store, key) {
        Some(entity) => if entity.has_type(expected) {
            Lookup::Found(entity)
        } else {
            Lookup::Failed(ApubError::UnexpectedEntityType)
        },
        None => if session.budget == 0 {
            Lookup::Failed(ApubError::BudgetExhausted)
        } else {
            Lookup::Fetch(key, expected)
        },
    }
}

/// What a fetched answer is worth: the document must have the expected
/// shape and carry the identifier that was requested.
pub open spec fn checked(key: Seq<char>, expected: ExpectedType, response: Fetched) -> Result<Entity, ApubError> {
    match response {
        Fetched::Unreachable => Err(ApubError::UnreachablePeer),
        Fetched::Document(entity) => if !entity.has_type(expected) {
            Err(ApubError::UnexpectedEntityType)
        } else if entity.key() != key {
            Err(ApubError::IdentityMismatch)
        } else {
            Ok(entity)
        },
    }
}

/// The session after `response` was taken in for `key`.
pub open spec fn after_accept(session: SessionView, key: Seq<char>, expected: ExpectedType, response: Fetched) -> SessionView {
    match checked(key, expected, response) {
        Ok(entity) => SessionView { cache: session.cache.insert(key, entity), ..session },
        Err(_) => session,
    }
}

/// Resolution as a whole, with `response` standing for what the peer would
/// answer if asked: the result, and the session afterwards.
pub open spec fn resolved(
    session: SessionView,
    store: StoreView,
    key: Seq<char>,
    expected: ExpectedType,
    response: Fetched,
) -> (Result<Entity, ApubError>, SessionView) {
    match first_step(session, store, key, expected) {
        Lookup::Found(entity) => (Ok(entity), session),
        Lookup::Failed(e) => (Err(e), session),
        Lookup::Fetch(_, _) => (
            checked(key, expected, response),
            after_accept(session.charged(), key, expected, response),
        ),
    }
}

/// Within one session a reference is paid for at most once: after a
/// resolution that succeeded, resolving the same reference again gives the
/// same entity and leaves the session as it is, whatever the peer would
/// answer now. Both resolutions together cost one unit of budget where the
/// entity was unknown at first, and none where it was known.
pub proof fn lemma_resolve_twice(
    session: Session,
    store: Store,
    key: Seq<char>,
    expected: ExpectedType,
    first: Fetched,
    second: Fetched,
)
    ensures
        ({
            let (entity, then) = resolved(session@, store@, key, expected, first);
            let (again, after) = resolved(then, store@, key, expected, second);
            entity is Ok ==> {
                &&& again == entity
                &&& after == then
                &&& after.budget == if known(session@, store@, key) is None {
                    session@.budget - 1
                } else {
                    session@.budget as int
                }
            }
        }),
{
}

impl Session {
    /// Whatever was done in a session, it keeps every fetched entity under
    /// the entity's own identifier.
    pub proof fn lemma_keyed_by_identifier(self)
        ensures
            self@.keyed_by_identifier(),
    {
        assert forall|key: Seq<char>| #[trigger] self@.cache.contains_key(key) implies self@.cache[key].key()
            == key by {
            lemma_table_keys(self.cache@, key);
        }
    }

    /// A session that may make `budget` fetches and has made none.
    pub fn new(budget: u32) -> (r: Session)
        ensures
            r@.budget == budget,
            r@.cache == Map::<Seq<char>, Entity>::empty(),
    {
        let r = Session { budget, cache: Vec::new() };
        assert(r@.cache =~= Map::<Seq<char>, Entity>::empty());
        r
    }

    /// The number of fetches the session may still make.
    pub fn budget(&self) -> (r: u32)
        ensures
            r == self@.budget,
    {
        self.budget
    }

    /// Takes the first step of resolving `reference`. A known entity is
    /// returned without touching the budget. For an unknown one the fetch is
    /// requested and paid for, or refused where no budget is left.
    pub fn begin(&mut self, store: &Store, reference: &Iri, expected: ExpectedType) -> (r: Resolution)
        ensures
            r@ == first_step(old(self)@, store@, reference@, expected),
            final(self)@ == if r is Fetch {
                old(self)@.charged()
            } else {
                old(self)@
            },
            r matches Resolution::Found(entity) ==> entity.key() == reference@ && entity.has_type(expected),
    {
        let hit = match store.entity(reference) {
            Some(e) => Some(e),
            None => find(&self.cache, reference),
        };
        match hit {
            Some(entity) => {
                if entity.is_a(expected) {
                    Resolution::Found(entity.clone())
                } else {
                    Resolution::Failed(ApubError::UnexpectedEntityType)
                }
            },
            None => {
                if self.budget == 0 {
                    Resolution::Failed(ApubError::BudgetExhausted)
                } else {
                    self.budget = self.budget - 1;
                    Resolution::Fetch(FetchRequest { reference: reference.clone(), expected })
                }
            },
        }
    }

    /// Takes in the peer's answer to a fetch of `reference`. A document
    /// that passes the checks is kept for the rest of the session.
    pub fn accept(&mut self, reference: &Iri, expected: ExpectedType, response: Fetched) -> (r: Result<
        Entity,
        ApubError,
    >)
        ensures
            r == checked(reference@, expected, response),
            final(self)@ == after_accept(old(self)@, reference@, expected, response),
    {
        match response {
            Fetched::Unreachable => Err(ApubError::UnreachablePeer),
            Fetched::Document(entity) => {
                if !entity.is_a(expected) {
                    Err(ApubError::UnexpectedEntityType)
                } else if !entity.id().same(reference) {
                    Err(ApubError::IdentityMismatch)
                } else {
                    proof {
                        lemma_table_push(self.cache@, entity);
                    }
                    self.cache.push(entity.clone());
                    Ok(entity)
                }
            },
        }
    }

    /// Resolves `reference` to an entity of shape `expected`, with
    /// `response` standing for what the peer answers if it is asked.
    pub fn resolve(&mut self, store: &Store, reference: &Iri, expected: ExpectedType, response: Fetched) -> (r:
        Result<Entity, ApubError>)
        ensures
            (r, final(self)@) == resolved(old(self)@, store@, reference@, expected, response),
    {
        match self.begin(store, reference, expected) {
            Resolution::Found(entity) => Ok(entity),
            Resolution::Failed(e) => Err(e),
            Resolution::Fetch(_) => self.accept(reference, expected, response),
        }
    }
}

} // verus!
