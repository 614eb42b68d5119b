//! Votes on posts and comments, and their retraction.

use vstd::prelude::*;
use crate::activities::{
    content_community,
    gate,
    person_in_community,
    resolve_content_community,
    spent,
    step_of,
    verify_person_in_community,
    Progress,
    Step,
};
use crate::dispatch::{community_recipients, send_activity_in_community, Delivery, Outbound};
use crate::error::ApubError;
use crate::iri::{parsed_url, public_text, texts, Iri};
use crate::objects::{Actor, Content, ExpectedType};
use crate::policy::{
    check_apub_id_valid,
    generate_activity_id,
    is_public,
    public_address,
    verify_is_public,
    verify_urls_match,
    ActivityKind,
    SitePolicy,
};
use crate::protocol::{AnnouncableActivities, UndoVote, Vote};
use crate::resolver::{first_step, Lookup, Resolution, Session, SessionView};
use crate::store::{Store, StoreView, VoteType};

verus! {

/// The check that `actor` may vote on `object`: the community in which
/// `object` was published resolves, and `actor` resolves to a member of it.
pub open spec fn voter_standing(session: SessionView, store: StoreView, actor: Seq<char>, object: Seq<char>) -> Step {
    match content_community(session, store, object) {
        Lookup::Found(community) => person_in_community(session, store, actor, community.key()),
        other => step_of(other),
    }
}

/// The application of a vote (`kind` given) or of its retraction (no
/// `kind`): the voter and the content are resolved in this order; once
/// both are, the voter's vote on the content is set or taken away. Short
/// of that the state stays as it is.
pub open spec fn vote_effect(
    kind: Option<VoteType>,
    actor: Seq<char>,
    object: Seq<char>,
    session: SessionView,
    store: StoreView,
) -> (Step, StoreView) {
    match first_step(session, store, actor, ExpectedType::Person) {
        Lookup::Found(person) => match first_step(session, store, object, ExpectedType::PostOrComment) {
            Lookup::Found(content) => (
                Step::Complete,
                match kind {
                    Some(polarity) => store.with_vote(person.key(), content.key(), polarity),
                    None => store.without_vote(person.key(), content.key()),
                },
            ),
            other => (step_of(other), store),
        },
        other => (step_of(other), store),
    }
}

/// `vote` is the vote of polarity `kind` that `voter` casts on `object`
/// in `community`, with the identifier `id_text`: addressed to the public,
/// with the community in copy.
pub open spec fn vote_envelope(
    vote: Vote,
    object: Content,
    voter: Actor,
    community: Actor,
    kind: VoteType,
    id_text: Seq<char>,
) -> bool {
    &&& vote.actor == voter.id
    &&& texts(vote.to@) == seq![public_text()]
    &&& vote.object == object.id
    &&& texts(vote.cc@) == seq![community.id@]
    &&& vote.kind == kind
    &&& vote.id@ == id_text
    &&& vote.unparsed@.len() == 0
}

/// `undo` retracts a vote built as `vote_envelope` says, in the name of
/// the same person. Unlike the vote it is addressed to the community, with
/// the public in copy.
pub open spec fn undo_vote_envelope(
    undo: UndoVote,
    object: Content,
    voter: Actor,
    community: Actor,
    kind: VoteType,
    vote_id_text: Seq<char>,
    id_text: Seq<char>,
) -> bool {
    &&& undo.actor == voter.id
    &&& texts(undo.to@) == seq![community.id@]
    &&& vote_envelope(undo.object, object, voter, community, kind, vote_id_text)
    &&& texts(undo.cc@) == seq![public_text()]
    &&& undo.id@ == id_text
    &&& undo.unparsed@.len() == 0
}

/// `delivery` hands over, in the name of `voter` and for the community
/// alone, a vote built as `vote_envelope` says.
pub open spec fn vote_delivery(
    delivery: Delivery,
    object: Content,
    voter: Actor,
    community: Actor,
    kind: VoteType,
    id_text: Seq<char>,
) -> bool {
    &&& delivery.sender == voter.id
    &&& texts(delivery.inboxes@) == community_recipients(Seq::empty(), community)
    &&& match delivery.activity {
        Outbound::Activity(AnnouncableActivities::Vote(vote)) => vote_envelope(
            vote,
            object,
            voter,
            community,
            kind,
            id_text,
        ),
        _ => false,
    }
}

/// `delivery` hands over, in the name of `voter` and for the community
/// alone, a retraction built as `undo_vote_envelope` says.
pub open spec fn undo_vote_delivery(
    delivery: Delivery,
    object: Content,
    voter: Actor,
    community: Actor,
    kind: VoteType,
    vote_id_text: Seq<char>,
    id_text: Seq<char>,
) -> bool {
    &&& delivery.sender == voter.id
    &&& texts(delivery.inboxes@) == community_recipients(Seq::empty(), community)
    &&& match delivery.activity {
        Outbound::Activity(AnnouncableActivities::UndoVote(undo)) => undo_vote_envelope(
            undo,
            object,
            voter,
            community,
            kind,
            vote_id_text,
            id_text,
        ),
        _ => false,
    }
}

/// Checks the voter's standing.
fn verify_voter(actor: &Iri, object: &Iri, session: &mut Session, store: &Store) -> (r: Progress)
    ensures
        r@ == voter_standing(old(session)@, store@, actor@, object@),
        final(session)@ == spent(old(session)@, r@),
{
    match resolve_content_community(object, session, store) {
        Resolution::Found(community) => verify_person_in_community(actor, community.id(), session, store),
        Resolution::Fetch(request) => Progress::Fetch(request),
        Resolution::Failed(e) => Progress::Abort(e),
    }
}

/// Applies a vote or its retraction.
fn apply_vote(kind: Option<VoteType>, actor: &Iri, object: &Iri, session: &mut Session, store: &mut Store) -> (r:
    Progress)
    ensures
        (r@, final(store)@) == vote_effect(kind, actor@, object@, old(session)@, old(store)@),
        final(session)@ == spent(old(session)@, r@),
{
    let person = match session.begin(store, actor, ExpectedType::Person) {
        Resolution::Found(person) => person,
        Resolution::Fetch(request) => {
            return Progress::Fetch(request);
        },
        Resolution::Failed(e) => {
            return Progress::Abort(e);
        },
    };
    let content = match session.begin(store, object, ExpectedType::PostOrComment) {
        Resolution::Found(content) => content,
        Resolution::Fetch(request) => {
            return Progress::Fetch(request);
        },
        Resolution::Failed(e) => {
            return Progress::Abort(e);
        },
    };
    match kind {
        Some(polarity) => store.record_vote(person.id(), content.id(), polarity),
        None => store.remove_vote(person.id(), content.id()),
    }
    Progress::Complete
}

/// A list that holds `address` alone.
fn only(address: Iri) -> (r: Vec<Iri>)
    ensures
        texts(r@) == seq![address@],
{
    let mut list: Vec<Iri> = Vec::new();
    list.push(address);
    assert(texts(list@) =~= seq![address@]);
    list
}

impl Vote {
    /// The checks on a vote that stands alone, in order: the identifier is
    /// admitted by the site; the vote is addressed to the public; the voter
    /// has standing.
    pub open spec fn verdict(&self, session: SessionView, store: StoreView, site: SitePolicy) -> Step {
        gate(site.admits(self.id), ApubError::InvalidIdentity).followed_by(
            gate(is_public(self.to@, self.cc@), ApubError::AddressingPolicyViolation),
        ).followed_by(voter_standing(session, store, self.actor@, self.object@))
    }

    /// The checks on a vote that another activity wraps: as for one that
    /// stands alone, but its addressing is not looked at.
    pub open spec fn wrapped_verdict(&self, session: SessionView, store: StoreView, site: SitePolicy) -> Step {
        gate(site.admits(self.id), ApubError::InvalidIdentity).followed_by(
            voter_standing(session, store, self.actor@, self.object@),
        )
    }

    /// The application of the vote; see `vote_effect`.
    pub open spec fn effect(&self, session: SessionView, store: StoreView) -> (Step, StoreView) {
        vote_effect(Some(self.kind), self.actor@, self.object@, session, store)
    }

    /// The identifier that the authoring server gave the activity.
    pub fn id(&self) -> (r: &Iri)
        ensures
            *r == self.id,
    {
        &self.id
    }

    /// Who votes.
    pub fn actor(&self) -> (r: &Iri)
        ensures
            *r == self.actor,
    {
        &self.actor
    }

    /// Builds the vote of polarity `kind` that `actor` casts on `object`,
    /// which was published in `community`. `token` makes the identifier
    /// unique; the caller supplies a fresh one.
    pub fn new(object: &Content, actor: &Actor, community: &Actor, kind: VoteType, site: &SitePolicy, token: &str) -> (r:
        Result<Vote, ApubError>)
        ensures
            match parsed_url(site.activity_id_text(kind.tag(), token@)) {
                Some(id) => r matches Ok(vote) && vote_envelope(vote, *object, *actor, *community, kind, id.0),
                None => r == Err::<Vote, ApubError>(ApubError::MalformedEnvelope),
            },
    {
        let id = match generate_activity_id(kind.kind(), site, token) {
            Ok(id) => id,
            Err(e) => {
                return Err(e);
            },
        };
        Ok(
            Vote {
                actor: actor.actor_id(),
                to: only(public_address()),
                object: object.id.clone(),
                cc: only(community.actor_id()),
                kind,
                id,
                unparsed: Vec::new(),
            },
        )
    }

    /// Builds the vote as `new` does and says where it goes: into the
    /// community.
    pub fn send(object: &Content, actor: &Actor, community: &Actor, kind: VoteType, site: &SitePolicy, token: &str) -> (r:
        Result<Delivery, ApubError>)
        ensures
            match parsed_url(site.activity_id_text(kind.tag(), token@)) {
                Some(id) => r matches Ok(delivery) && vote_delivery(
                    delivery,
                    *object,
                    *actor,
                    *community,
                    kind,
                    id.0,
                ),
                None => r == Err::<Delivery, ApubError>(ApubError::MalformedEnvelope),
            },
    {
        let vote = match Vote::new(object, actor, community, kind, site, token) {
            Ok(vote) => vote,
            Err(e) => {
                return Err(e);
            },
        };
        let delivery = send_activity_in_community(AnnouncableActivities::Vote(vote), actor, community, Vec::new());
        assert(texts(Seq::<Iri>::empty()) =~= Seq::<Seq<char>>::empty());
        Ok(delivery)
    }

    /// Resolves the community in which the content voted on was published.
    pub fn get_community(&self, session: &mut Session, store: &Store) -> (r: Resolution)
        ensures
            r@ == content_community(old(session)@, store@, self.object@),
            final(session)@ == spent(old(session)@, step_of(r@)),
    {
        resolve_content_community(&self.object, session, store)
    }

    /// Decides whether the vote, standing alone, may be applied. Nothing
    /// but the session's budget changes.
    pub fn verify(&self, session: &mut Session, store: &Store, site: &SitePolicy) -> (r: Progress)
        ensures
            r@ == self.verdict(old(session)@, store@, *site),
            final(session)@ == spent(old(session)@, r@),
    {
        match check_apub_id_valid(&self.id, site) {
            Err(e) => {
                return Progress::Abort(e);
            },
            Ok(_) => {},
        }
        match verify_is_public(&self.to, &self.cc) {
            Err(e) => {
                return Progress::Abort(e);
            },
            Ok(_) => {},
        }
        verify_voter(&self.actor, &self.object, session, store)
    }

    /// Decides whether the vote is sound as the object of a wrapping
    /// activity. Nothing but the session's budget changes.
    pub fn verify_wrapped(&self, session: &mut Session, store: &Store, site: &SitePolicy) -> (r: Progress)
        ensures
            r@ == self.wrapped_verdict(old(session)@, store@, *site),
            final(session)@ == spent(old(session)@, r@),
    {
        match check_apub_id_valid(&self.id, site) {
            Err(e) => {
                return Progress::Abort(e);
            },
            Ok(_) => {},
        }
        verify_voter(&self.actor, &self.object, session, store)
    }

    /// Applies the vote: it becomes the voter's one vote on the content.
    /// The state changes only on completion.
    pub fn receive(&self, session: &mut Session, store: &mut Store) -> (r: Progress)
        ensures
            (r@, final(store)@) == self.effect(old(session)@, old(store)@),
            final(session)@ == spent(old(session)@, r@),
    {
        apply_vote(Some(self.kind), &self.actor, &self.object, session, store)
    }
}

impl UndoVote {
    /// The checks on a retraction, in order: the identifier is admitted by
    /// the site; the retraction itself is addressed to the public, whatever
    /// the addressing of the vote it wraps; the wrapped vote names the same
    /// actor; the actor has standing to vote on the content; the wrapped
    /// vote is sound as a wrapped activity.
    pub open spec fn verdict(&self, session: SessionView, store: StoreView, site: SitePolicy) -> Step {
        gate(site.admits(self.id), ApubError::InvalidIdentity).followed_by(
            gate(is_public(self.to@, self.cc@), ApubError::AddressingPolicyViolation),
        ).followed_by(gate(self.actor@ == self.object.actor@, ApubError::ActorMismatch)).followed_by(
            voter_standing(session, store, self.actor@, self.object.object@),
        ).followed_by(self.object.wrapped_verdict(session, store, site))
    }

    /// The application of the retraction; see `vote_effect`.
    pub open spec fn effect(&self, session: SessionView, store: StoreView) -> (Step, StoreView) {
        vote_effect(None, self.actor@, self.object.object@, session, store)
    }

    /// The identifier that the authoring server gave the activity.
    pub fn id(&self) -> (r: &Iri)
        ensures
            *r == self.id,
    {
        &self.id
    }

    /// Who retracts.
    pub fn actor(&self) -> (r: &Iri)
        ensures
            *r == self.actor,
    {
        &self.actor
    }

    /// Builds the activity by which `actor` retracts the vote of polarity
    /// `kind` on `object`, which was published in `community`, and says
    /// where it goes: into the community. The wrapped vote is built anew.
    /// The two tokens make the two identifiers unique; the caller supplies
    /// fresh ones.
    pub fn send(
        object: &Content,
        actor: &Actor,
        community: &Actor,
        kind: VoteType,
        site: &SitePolicy,
        vote_token: &str,
        token: &str,
    ) -> (r: Result<Delivery, ApubError>)
        ensures
            match (
                parsed_url(site.activity_id_text(kind.tag(), vote_token@)),
                parsed_url(site.activity_id_text(ActivityKind::Undo, token@)),
            ) {
                (Some(vote_id), Some(id)) => r matches Ok(delivery) && undo_vote_delivery(
                    delivery,
                    *object,
                    *actor,
                    *community,
                    kind,
                    vote_id.0,
                    id.0,
                ),
                _ => r == Err::<Delivery, ApubError>(ApubError::MalformedEnvelope),
            },
    {
        let vote = match Vote::new(object, actor, community, kind, site, vote_token) {
            Ok(vote) => vote,
            Err(e) => {
                return Err(e);
            },
        };
        let id = match generate_activity_id(ActivityKind::Undo, site, token) {
            Ok(id) => id,
            Err(e) => {
                return Err(e);
            },
        };
        let undo_vote = UndoVote {
            actor: actor.actor_id(),
            to: only(community.actor_id()),
            object: vote,
            cc: only(public_address()),
            id,
            unparsed: Vec::new(),
        };
        let delivery = send_activity_in_community(
            AnnouncableActivities::UndoVote(undo_vote),
            actor,
            community,
            Vec::new(),
        );
        assert(texts(Seq::<Iri>::empty()) =~= Seq::<Seq<char>>::empty());
        Ok(delivery)
    }

    /// Resolves the community in which the content of the wrapped vote was
    /// published.
    pub fn get_community(&self, session: &mut Session, store: &Store) -> (r: Resolution)
        ensures
            r@ == content_community(old(session)@, store@, self.object.object@),
            final(session)@ == spent(old(session)@, step_of(r@)),
    {
        self.object.get_community(session, store)
    }

    /// Decides whether the retraction may be applied. Nothing but the
    /// session's budget changes.
    pub fn verify(&self, session: &mut Session, store: &Store, site: &SitePolicy) -> (r: Progress)
        ensures
            r@ == self.verdict(old(session)@, store@, *site),
            final(session)@ == spent(old(session)@, r@),
    {
        match check_apub_id_valid(&self.id, site) {
            Err(e) => {
                return Progress::Abort(e);
            },
            Ok(_) => {},
        }
        match verify_is_public(&self.to, &self.cc) {
            Err(e) => {
                return Progress::Abort(e);
            },
            Ok(_) => {},
        }
        match verify_urls_match(&self.actor, &self.object.actor) {
            Err(e) => {
                return Progress::Abort(e);
            },
            Ok(_) => {},
        }
        match verify_voter(&self.actor, &self.object.object, session, store) {
            Progress::Complete => {},
            other => {
                return other;
            },
        }
        self.object.verify_wrapped(session, store, site)
    }

    /// Applies the retraction: the actor has no vote on the content any
    /// more. The state changes only on completion.
    pub fn receive(&self, session: &mut Session, store: &mut Store) -> (r: Progress)
        ensures
            (r@, final(store)@) == self.effect(old(session)@, old(store)@),
            final(session)@ == spent(old(session)@, r@),
    {
        apply_vote(None, &self.actor, &self.object.object, session, store)
    }
}

} // verus!
