//! What holds of the handlers taken together: moderator changes that
//! cancel, votes that are retracted, budgets that run out, and moderation
//! by those who may not moderate.

use vstd::prelude::*;
use crate::activities::{content_community, person_in_community, Step};
use crate::error::ApubError;
use crate::iri::Iri;
use crate::moderation::{moderation_community, moderation_effect, moderation_verdict};
use crate::objects::ExpectedType;
use crate::policy::{is_public, moderated_community, SitePolicy};
use crate::protocol::{AddMod, AnnouncableActivities, RemoveMod, UndoVote, Vote};
use crate::resolver::{first_step, Lookup, Session, SessionView};
use crate::store::{Store, StoreView, VoteType};
use crate::voting::{vote_effect, voter_standing};

verus! {

/// The state after `activity` was applied once in each of `sessions`, in
/// their order. An application that does not complete changes nothing.
pub open spec fn delivered(activity: AnnouncableActivities, sessions: Seq<Session>, store: StoreView) -> StoreView
    decreases sessions.len(),
{
    if sessions.len() == 0 {
        store
    } else {
        activity.effect(sessions.last()@, delivered(activity, sessions.drop_last(), store)).1
    }
}

/// Applying an activity never changes which entities are known.
pub proof fn lemma_entities_stay(activity: AnnouncableActivities, session: SessionView, store: StoreView)
    ensures
        activity.effect(session, store).1.entities == store.entities,
{
}

/// However often an activity is delivered, the known entities stay.
pub proof fn lemma_delivered_entities(activity: AnnouncableActivities, sessions: Seq<Session>, store: StoreView)
    ensures
        delivered(activity, sessions, store).entities == store.entities,
    decreases sessions.len(),
{
    if sessions.len() > 0 {
        lemma_delivered_entities(activity, sessions.drop_last(), store);
        lemma_entities_stay(activity, sessions.last()@, delivered(activity, sessions.drop_last(), store));
    }
}

/// Granting moderator standing to a person who had none, and then revoking
/// it, leaves the moderator relation as it was before both. The two
/// activities name the same actor, person and community; each is applied in
/// a session of its own.
pub proof fn lemma_add_then_remove_mod(
    add: AddMod,
    remove: RemoveMod,
    add_session: Session,
    remove_session: Session,
    store: Store,
)
    requires
        add.actor@ == remove.actor@,
        add.object@ == remove.object@,
        add.target@ == remove.target@,
        moderated_community(add.target@) matches Ok(community) ==> !store@.is_moderator(community, add.object@),
    ensures
        ({
            let (added, between) = add.effect(add_session@, store@);
            let (removed, after) = remove.effect(remove_session@, between);
            added is Complete && removed is Complete ==> {
                &&& after.moderators == store@.moderators
                &&& after.members == store@.members
                &&& after.mod_log.len() == store@.mod_log.len() + 2
            }
        }),
{
    store.lemma_keyed_by_identifier();
    add_session.lemma_keyed_by_identifier();
    remove_session.lemma_keyed_by_identifier();
    let (added, between) = add.effect(add_session@, store@);
    let (removed, after) = remove.effect(remove_session@, between);
    if added is Complete && removed is Complete {
        assert(after.moderators =~= store@.moderators);
    }
}

/// A vote delivered twice counts once: the second application changes
/// nothing.
pub proof fn lemma_vote_twice(vote: Vote, first: Session, second: Session, store: Store)
    ensures
        ({
            let (cast, once) = vote.effect(first@, store@);
            let (again, twice) = vote.effect(second@, once);
            cast is Complete && again is Complete ==> twice == once
        }),
{
    store.lemma_keyed_by_identifier();
    first.lemma_keyed_by_identifier();
    second.lemma_keyed_by_identifier();
    let (cast, once) = vote.effect(first@, store@);
    let (again, twice) = vote.effect(second@, once);
    if cast is Complete && again is Complete {
        assert(twice.likes =~= once.likes);
        assert(twice.dislikes =~= once.dislikes);
        assert(twice =~= once);
    }
}

/// After a vote and its retraction, each delivered any number of times,
/// the voter has no vote on the content and contributes nothing to its
/// tally, provided that the last delivery of the retraction is applied.
/// The votes of others, and this voter's votes on other content, are as
/// they were.
pub proof fn lemma_vote_then_undo(
    vote: Vote,
    undo: UndoVote,
    vote_sessions: Seq<Session>,
    undo_sessions: Seq<Session>,
    store: Store,
)
    requires
        vote.actor@ == undo.actor@,
        vote.object@ == undo.object.object@,
        undo_sessions.len() >= 1,
        undo.effect(undo_sessions.last()@, store@).0 is Complete,
    ensures
        ({
            let voted = delivered(AnnouncableActivities::Vote(vote), vote_sessions, store@);
            let after = delivered(AnnouncableActivities::UndoVote(undo), undo_sessions, voted);
            &&& after.vote_of(vote.actor@, vote.object@) is None
            &&& after.score(vote.actor@, vote.object@) == 0
            &&& after.likes == store@.likes.remove((vote.actor@, vote.object@))
            &&& after.dislikes == store@.dislikes.remove((vote.actor@, vote.object@))
        }),
{
    let voting = AnnouncableActivities::Vote(vote);
    let undoing = AnnouncableActivities::UndoVote(undo);
    let voted = delivered(voting, vote_sessions, store@);
    let key = (vote.actor@, vote.object@);
    lemma_votes_touch_one_pair(vote, vote_sessions, store);
    lemma_delivered_entities(voting, vote_sessions, store@);
    lemma_undos_touch_one_pair(undo, undo_sessions.drop_last(), voted, store);
    let before_last = delivered(undoing, undo_sessions.drop_last(), voted);
    lemma_delivered_entities(undoing, undo_sessions.drop_last(), voted);
    store.lemma_keyed_by_identifier();
    undo_sessions.last().lemma_keyed_by_identifier();
    assert(before_last.entities == store@.entities);
    let after = delivered(undoing, undo_sessions, voted);
    assert(after == undo.effect(undo_sessions.last()@, before_last).1);
    assert(after.likes =~= store@.likes.remove(key));
    assert(after.dislikes =~= store@.dislikes.remove(key));
}

/// Deliveries of one vote change no vote but the voter's on the content.
proof fn lemma_votes_touch_one_pair(vote: Vote, sessions: Seq<Session>, store: Store)
    ensures
        ({
            let after = delivered(AnnouncableActivities::Vote(vote), sessions, store@);
            let key = (vote.actor@, vote.object@);
            &&& after.likes.remove(key) == store@.likes.remove(key)
            &&& after.dislikes.remove(key) == store@.dislikes.remove(key)
        }),
    decreases sessions.len(),
{
    let voting = AnnouncableActivities::Vote(vote);
    let key = (vote.actor@, vote.object@);
    if sessions.len() > 0 {
        lemma_votes_touch_one_pair(vote, sessions.drop_last(), store);
        let before = delivered(voting, sessions.drop_last(), store@);
        lemma_delivered_entities(voting, sessions.drop_last(), store@);
        store.lemma_keyed_by_identifier();
        sessions.last().lemma_keyed_by_identifier();
        let after = delivered(voting, sessions, store@);
        assert(after == vote.effect(sessions.last()@, before).1);
        assert(after.likes.remove(key) =~= before.likes.remove(key));
        assert(after.dislikes.remove(key) =~= before.dislikes.remove(key));
    } else {
        assert(delivered(voting, sessions, store@) == store@);
    }
}

/// Deliveries of one retraction change no vote but the actor's on the
/// content. `origin` is the store whose entities `store` still knows.
proof fn lemma_undos_touch_one_pair(undo: UndoVote, sessions: Seq<Session>, store: StoreView, origin: Store)
    requires
        store.entities == origin@.entities,
    ensures
        ({
            let after = delivered(AnnouncableActivities::UndoVote(undo), sessions, store);
            let key = (undo.actor@, undo.object.object@);
            &&& after.likes.remove(key) == store.likes.remove(key)
            &&& after.dislikes.remove(key) == store.dislikes.remove(key)
        }),
    decreases sessions.len(),
{
    let undoing = AnnouncableActivities::UndoVote(undo);
    let key = (undo.actor@, undo.object.object@);
    if sessions.len() > 0 {
        lemma_undos_touch_one_pair(undo, sessions.drop_last(), store, origin);
        let before = delivered(undoing, sessions.drop_last(), store);
        lemma_delivered_entities(undoing, sessions.drop_last(), store);
        origin.lemma_keyed_by_identifier();
        sessions.last().lemma_keyed_by_identifier();
        let after = delivered(undoing, sessions, store);
        assert(after == undo.effect(sessions.last()@, before).1);
        assert(after.likes.remove(key) =~= before.likes.remove(key));
        assert(after.dislikes.remove(key) =~= before.dislikes.remove(key));
    } else {
        assert(delivered(undoing, sessions, store) == store);
    }
}

/// An activity that is not applied in full is not applied at all: short
/// of completion the state is the one before.
pub proof fn lemma_nothing_partial(activity: AnnouncableActivities, session: SessionView, store: StoreView, site: SitePolicy)
    ensures
        ({
            let (step, after) = activity.outcome(session, store, site);
            !(step is Complete) ==> after == store
        }),
{
}

/// What becomes of a step when the budget is gone: a request for a fetch
/// turns into a refusal, anything else stays.
spec fn starved(step: Step) -> Step {
    if step is Fetch {
        Step::Abort(ApubError::BudgetExhausted)
    } else {
        step
    }
}

/// The same for a lookup.
spec fn starved_lookup(lookup: Lookup) -> Lookup {
    if lookup is Fetch {
        Lookup::Failed(ApubError::BudgetExhausted)
    } else {
        lookup
    }
}

/// Two sessions that differ in nothing but that one has budget.
spec fn differ_in_budget(funded: SessionView, exhausted: SessionView) -> bool {
    funded.cache == exhausted.cache && funded.budget > 0 && exhausted.budget == 0
}

proof fn lemma_starved_person(
    funded: SessionView,
    exhausted: SessionView,
    store: StoreView,
    actor: Seq<char>,
    community: Seq<char>,
)
    requires
        differ_in_budget(funded, exhausted),
    ensures
        person_in_community(exhausted, store, actor, community) == starved(
            person_in_community(funded, store, actor, community),
        ),
{
}

proof fn lemma_starved_content_community(
    funded: SessionView,
    exhausted: SessionView,
    store: StoreView,
    object: Seq<char>,
)
    requires
        differ_in_budget(funded, exhausted),
    ensures
        content_community(exhausted, store, object) == starved_lookup(content_community(funded, store, object)),
{
}

proof fn lemma_starved_standing(
    funded: SessionView,
    exhausted: SessionView,
    store: StoreView,
    actor: Seq<char>,
    object: Seq<char>,
)
    requires
        differ_in_budget(funded, exhausted),
    ensures
        voter_standing(exhausted, store, actor, object) == starved(voter_standing(funded, store, actor, object)),
{
    lemma_starved_content_community(funded, exhausted, store, object);
    match content_community(funded, store, object) {
        Lookup::Found(community) => {
            lemma_starved_person(funded, exhausted, store, actor, community.key());
        },
        _ => {},
    }
}

proof fn lemma_starved_moderation_verdict(
    removing: bool,
    id: Iri,
    to: Seq<Iri>,
    cc: Seq<Iri>,
    actor: Seq<char>,
    object: Seq<char>,
    target: Seq<char>,
    funded: SessionView,
    exhausted: SessionView,
    store: StoreView,
    site: SitePolicy,
)
    requires
        differ_in_budget(funded, exhausted),
    ensures
        moderation_verdict(removing, id, to, cc, actor, object, target, exhausted, store, site) == starved(
            moderation_verdict(removing, id, to, cc, actor, object, target, funded, store, site),
        ),
{
    assert(moderation_community(target, exhausted, store) == starved_lookup(
        moderation_community(target, funded, store),
    ));
    match moderation_community(target, funded, store) {
        Lookup::Found(community) => {
            lemma_starved_person(funded, exhausted, store, actor, community.key());
        },
        _ => {},
    }
}

proof fn lemma_starved_moderation_effect(
    removing: bool,
    actor: Seq<char>,
    object: Seq<char>,
    target: Seq<char>,
    funded: SessionView,
    exhausted: SessionView,
    store: StoreView,
)
    requires
        differ_in_budget(funded, exhausted),
    ensures
        moderation_effect(removing, actor, object, target, exhausted, store) == (
            starved(moderation_effect(removing, actor, object, target, funded, store).0),
            moderation_effect(removing, actor, object, target, funded, store).1,
        ),
{
    assert(moderation_community(target, exhausted, store) == starved_lookup(
        moderation_community(target, funded, store),
    ));
}

proof fn lemma_starved_vote_effect(
    kind: Option<VoteType>,
    actor: Seq<char>,
    object: Seq<char>,
    funded: SessionView,
    exhausted: SessionView,
    store: StoreView,
)
    requires
        differ_in_budget(funded, exhausted),
    ensures
        vote_effect(kind, actor, object, exhausted, store) == (
            starved(vote_effect(kind, actor, object, funded, store).0),
            vote_effect(kind, actor, object, funded, store).1,
        ),
{
}

proof fn lemma_starved_verdict(
    activity: AnnouncableActivities,
    funded: SessionView,
    exhausted: SessionView,
    store: StoreView,
    site: SitePolicy,
)
    requires
        differ_in_budget(funded, exhausted),
    ensures
        activity.verdict(exhausted, store, site) == starved(activity.verdict(funded, store, site)),
{
    match activity {
        AnnouncableActivities::AddMod(a) => {
            lemma_starved_moderation_verdict(
                false,
                a.id,
                a.to@,
                a.cc@,
                a.actor@,
                a.object@,
                a.target@,
                funded,
                exhausted,
                store,
                site,
            );
        },
        AnnouncableActivities::RemoveMod(a) => {
            lemma_starved_moderation_verdict(
                true,
                a.id,
                a.to@,
                a.cc@,
                a.actor@,
                a.object@,
                a.target@,
                funded,
                exhausted,
                store,
                site,
            );
        },
        AnnouncableActivities::Vote(a) => {
            lemma_starved_standing(funded, exhausted, store, a.actor@, a.object@);
        },
        AnnouncableActivities::UndoVote(a) => {
            lemma_starved_standing(funded, exhausted, store, a.actor@, a.object.object@);
            lemma_starved_standing(funded, exhausted, store, a.object.actor@, a.object.object@);
        },
    }
}

proof fn lemma_starved_effect(
    activity: AnnouncableActivities,
    funded: SessionView,
    exhausted: SessionView,
    store: StoreView,
)
    requires
        differ_in_budget(funded, exhausted),
    ensures
        activity.effect(exhausted, store) == (
            starved(activity.effect(funded, store).0),
            activity.effect(funded, store).1,
        ),
{
    match activity {
        AnnouncableActivities::AddMod(a) => {
            lemma_starved_moderation_effect(false, a.actor@, a.object@, a.target@, funded, exhausted, store);
        },
        AnnouncableActivities::RemoveMod(a) => {
            lemma_starved_moderation_effect(true, a.actor@, a.object@, a.target@, funded, exhausted, store);
        },
        AnnouncableActivities::Vote(a) => {
            lemma_starved_vote_effect(Some(a.kind), a.actor@, a.object@, funded, exhausted, store);
        },
        AnnouncableActivities::UndoVote(a) => {
            lemma_starved_vote_effect(None, a.actor@, a.object.object@, funded, exhausted, store);
        },
    }
}

/// With no budget left no fetch is ever requested: where handling would
/// ask for a fetch had it budget, it fails with `BudgetExhausted` and
/// changes nothing; where it would not, it ends as it would with budget.
/// `funded` and `exhausted` are the same session but for the budget.
pub proof fn lemma_exhausted_budget(
    activity: AnnouncableActivities,
    funded: SessionView,
    exhausted: SessionView,
    store: StoreView,
    site: SitePolicy,
)
    requires
        funded.cache == exhausted.cache,
        funded.budget > 0,
        exhausted.budget == 0,
    ensures
        !(activity.outcome(exhausted, store, site).0 is Fetch),
        activity.outcome(funded, store, site).0 is Fetch ==> activity.outcome(exhausted, store, site) == (
            Step::Abort(ApubError::BudgetExhausted),
            store,
        ),
        !(activity.outcome(funded, store, site).0 is Fetch) ==> activity.outcome(exhausted, store, site)
            == activity.outcome(funded, store, site),
{
    lemma_starved_verdict(activity, funded, exhausted, store, site);
    lemma_starved_effect(activity, funded, exhausted, store);
    lemma_nothing_partial(activity, funded, store, site);
}

/// A remove-moderator activity whose actor is no moderator of the
/// community concerned is never applied: the state, and with it the
/// moderation log, stays as it is. Where the activity passes the checks
/// that come before the one on standing, the refusal is `NotAuthorized`.
pub proof fn lemma_remove_mod_needs_standing(remove: RemoveMod, session: Session, store: Store, site: SitePolicy)
    requires
        moderated_community(remove.target@) matches Ok(community) ==> !store@.is_moderator(
            community,
            remove.actor@,
        ),
    ensures
        ({
            let activity = AnnouncableActivities::RemoveMod(remove);
            let (step, after) = activity.outcome(session@, store@, site);
            &&& !(step is Complete)
            &&& after == store@
            &&& after.mod_log == store@.mod_log
            &&& (moderated_community(remove.target@) matches Ok(community) && site.admits(remove.id) && is_public(
                remove.to@,
                remove.cc@,
            ) && first_step(session@, store@, community, ExpectedType::Community) is Found
                && person_in_community(session@, store@, remove.actor@, community) is Complete) ==> step
                == Step::Abort(ApubError::NotAuthorized)
        }),
{
    store.lemma_keyed_by_identifier();
    session.lemma_keyed_by_identifier();
}

} // verus!
