//! What the handlers of all activity kinds share: how far the handling of
//! an activity has come, and the checks that concern a person's standing
//! in a community.

use vstd::prelude::*;
use crate::error::ApubError;
use crate::iri::Iri;
use crate::objects::{Entity, ExpectedType};
use crate::resolver::{first_step, FetchRequest, Lookup, Resolution, Session, SessionView};
use crate::store::{Store, StoreView};

verus! {

/// How far the handling of an activity has come. Handling is restartable:
/// after the requested fetch was made and its answer taken into the
/// session, the same call goes further.
#[derive(Debug, PartialEq, Eq)]
pub enum Progress {
    /// Every step was taken.
    Complete,
    /// A reference must be fetched first; the budget was charged for it.
    Fetch(FetchRequest),
    /// The activity is refused; nothing was changed.
    Abort(ApubError),
}

/// `Progress` over the model.
pub enum Step {
    Complete,
    Fetch(Seq<char>, ExpectedType),
    Abort(ApubError),
}

impl View for Progress {
    type V = Step;

    open spec fn view(&self) -> Step {
        match *self {
            Progress::Complete => Step::Complete,
            Progress::Fetch(request) => Step::Fetch(request.reference@, request.expected),
            Progress::Abort(e) => Step::Abort(e),
        }
    }
}

impl Step {
    /// This step and, only once it is complete, the next.
    pub open spec fn followed_by(self, next: Step) -> Step {
        if self is Complete {
            next
        } else {
            self
        }
    }
}

/// A check that passes where `ok` holds and refuses with `e` where not.
pub open spec fn gate(ok: bool, e: ApubError) -> Step {
    if ok {
        Step::Complete
    } else {
        Step::Abort(e)
    }
}

/// The step that a lookup amounts to when only its success matters.
pub open spec fn step_of(lookup: Lookup) -> Step {
    match lookup {
        Lookup::Found(_) => Step::Complete,
        Lookup::Fetch(key, expected) => Step::Fetch(key, expected),
        Lookup::Failed(e) => Step::Abort(e),
    }
}

/// The step of making sure that `key` resolves to an entity of shape
/// `expected`.
pub open spec fn needs(session: SessionView, store: StoreView, key: Seq<char>, expected: ExpectedType) -> Step {
    step_of(first_step(session, store, key, expected))
}

/// The session after a step: charged for the fetch if one is requested.
pub open spec fn spent(session: SessionView, step: Step) -> SessionView {
    if step is Fetch {
        session.charged()
    } else {
        session
    }
}

/// The check that `actor` resolves to a person who holds membership in
/// `community`.
pub open spec fn person_in_community(
    session: SessionView,
    store: StoreView,
    actor: Seq<char>,
    community: Seq<char>,
) -> Step {
    match first_step(session, store, actor, ExpectedType::Person) {
        Lookup::Found(person) => gate(store.is_member(community, person.key()), ApubError::ActorNotInCommunity),
        other => step_of(other),
    }
}

/// The resolution of the community in which the post or comment `object`
/// was published: first the content, then the community it names.
pub open spec fn content_community(session: SessionView, store: StoreView, object: Seq<char>) -> Lookup {
    match first_step(session, store, object, ExpectedType::PostOrComment) {
        Lookup::Found(Entity::Post(content)) => first_step(
            session,
            store,
            content.community@,
            ExpectedType::Community,
        ),
        Lookup::Found(Entity::Comment(content)) => first_step(
            session,
            store,
            content.community@,
            ExpectedType::Community,
        ),
        Lookup::Found(_) => Lookup::Failed(ApubError::UnexpectedEntityType),
        other => other,
    }
}

/// Turns a resolution into progress, dropping the entity found.
pub fn progress_of(resolution: Resolution) -> (r: Progress)
    ensures
        r@ == step_of(resolution@),
{
    match resolution {
        Resolution::Found(_) => Progress::Complete,
        Resolution::Fetch(request) => Progress::Fetch(request),
        Resolution::Failed(e) => Progress::Abort(e),
    }
}

/// Makes sure that `reference` resolves to an entity of shape `expected`.
pub fn require(session: &mut Session, store: &Store, reference: &Iri, expected: ExpectedType) -> (r: Progress)
    ensures
        r@ == needs(old(session)@, store@, reference@, expected),
        final(session)@ == spent(old(session)@, r@),
{
    progress_of(session.begin(store, reference, expected))
}

/// Checks that `actor` resolves to a person who holds membership in
/// `community`.
pub fn verify_person_in_community(actor: &Iri, community: &Iri, session: &mut Session, store: &Store) -> (r:
    Progress)
    ensures
        r@ == person_in_community(old(session)@, store@, actor@, community@),
        final(session)@ == spent(old(session)@, r@),
{
    match session.begin(store, actor, ExpectedType::Person) {
        Resolution::Found(person) => {
            if store.is_member(community, person.id()) {
                Progress::Complete
            } else {
                Progress::Abort(ApubError::ActorNotInCommunity)
            }
        },
        Resolution::Fetch(request) => Progress::Fetch(request),
        Resolution::Failed(e) => Progress::Abort(e),
    }
}

/// Checks that `actor` is a moderator of `community`.
pub fn verify_mod_action(actor: &Iri, community: &Iri, store: &Store) -> (r: Result<(), ApubError>)
    ensures
        r == if store@.is_moderator(community@, actor@) {
            Ok::<(), ApubError>(())
        } else {
            Err::<(), ApubError>(ApubError::NotAuthorized)
        },
{
    if store.is_moderator(community, actor) {
        Ok(())
    } else {
        Err(ApubError::NotAuthorized)
    }
}

/// Resolves the community in which the post or comment `object` was
/// published.
pub fn resolve_content_community(object: &Iri, session: &mut Session, store: &Store) -> (r: Resolution)
    ensures
        r@ == content_community(old(session)@, store@, object@),
        final(session)@ == spent(old(session)@, step_of(r@)),
{
    match session.begin(store, object, ExpectedType::PostOrComment) {
        Resolution::Found(Entity::Post(content)) => session.begin(store, &content.community, ExpectedType::Community),
        Resolution::Found(Entity::Comment(content)) => session.begin(
            store,
            &content.community,
            ExpectedType::Community,
        ),
        Resolution::Found(_) => Resolution::Failed(ApubError::UnexpectedEntityType),
        other => other,
    }
}

} // verus!
