//! The announce indirection: a community passes an activity of one of its
//! members on to its followers, unchanged, under its own name.

use vstd::prelude::*;
use crate::activities::{gate, spent, Progress, Step};
use crate::dispatch::{follower_inboxes, remote_inboxes, unique, Delivery, Outbound};
use crate::error::ApubError;
use crate::iri::{parsed_url, public_text, texts, Iri};
use crate::objects::Actor;
use crate::policy::{
    check_apub_id_valid,
    generate_activity_id,
    is_public,
    public_address,
    verify_is_public,
    ActivityKind,
    SitePolicy,
};
use crate::protocol::{AnnouncableActivities, AnnounceActivity};
use crate::resolver::{Session, SessionView};
use crate::store::{Store, StoreView};

verus! {

/// The path segment that follows a community's identifier in the
/// identifier of its follower list.
pub open spec fn followers_suffix() -> Seq<char> {
    "/followers"@
}

/// `delivery` hands over, in the name of `community` and for the inboxes
/// of its remote followers, an announce that wraps `object` unchanged: to
/// the public, with the community's follower list in copy.
pub open spec fn announce_delivery(
    delivery: Delivery,
    object: AnnouncableActivities,
    community: Actor,
    followers: Seq<Actor>,
    id_text: Seq<char>,
    followers_text: Seq<char>,
) -> bool {
    &&& delivery.sender == community.id
    &&& texts(delivery.inboxes@) == unique(remote_inboxes(followers))
    &&& match delivery.activity {
        Outbound::Announce(announce) => {
            &&& announce.actor == community.id
            &&& texts(announce.to@) == seq![public_text()]
            &&& announce.object == object
            &&& texts(announce.cc@) == seq![followers_text]
            &&& announce.id@ == id_text
            &&& announce.unparsed@.len() == 0
        },
        _ => false,
    }
}

impl AnnounceActivity {
    /// The checks on an announce, in order: the identifier is admitted by
    /// the site; the announce is addressed to the public; the wrapped
    /// activity passes its own checks.
    pub open spec fn verdict(&self, session: SessionView, store: StoreView, site: SitePolicy) -> Step {
        gate(site.admits(self.id), ApubError::InvalidIdentity).followed_by(
            gate(is_public(self.to@, self.cc@), ApubError::AddressingPolicyViolation),
        ).followed_by(self.object.verdict(session, store, site))
    }

    /// The application of an announce is that of the wrapped activity.
    pub open spec fn effect(&self, session: SessionView, store: StoreView) -> (Step, StoreView) {
        self.object.effect(session, store)
    }

    /// Checking and, where the checks pass, applying.
    pub open spec fn outcome(&self, session: SessionView, store: StoreView, site: SitePolicy) -> (Step, StoreView) {
        let verdict = self.verdict(session, store, site);
        if verdict is Complete {
            self.effect(session, store)
        } else {
            (verdict, store)
        }
    }

    /// The identifier that the announcing server gave the announce.
    pub fn id(&self) -> (r: &Iri)
        ensures
            *r == self.id,
    {
        &self.id
    }

    /// The announcing community.
    pub fn actor(&self) -> (r: &Iri)
        ensures
            *r == self.actor,
    {
        &self.actor
    }

    /// Wraps `object` in an announce of `community` and says where it
    /// goes: to the inboxes of the community's remote followers. `token`
    /// makes the identifier unique; the caller supplies a fresh one.
    pub fn send(
        object: AnnouncableActivities,
        community: &Actor,
        followers: &Vec<Actor>,
        site: &SitePolicy,
        token: &str,
    ) -> (r: Result<Delivery, ApubError>)
        ensures
            match (
                parsed_url(site.activity_id_text(ActivityKind::Announce, token@)),
                parsed_url(community.id@ + followers_suffix()),
            ) {
                (Some(id), Some(list)) => r matches Ok(delivery) && announce_delivery(
                    delivery,
                    object,
                    *community,
                    followers@,
                    id.0,
                    list.0,
                ),
                _ => r == Err::<Delivery, ApubError>(ApubError::MalformedEnvelope),
            },
    {
        let id = match generate_activity_id(ActivityKind::Announce, site, token) {
            Ok(id) => id,
            Err(e) => {
                return Err(e);
            },
        };
        let list = match community.id.join("/followers") {
            Ok(list) => list,
            Err(e) => {
                return Err(e);
            },
        };
        let mut to: Vec<Iri> = Vec::new();
        to.push(public_address());
        let mut cc: Vec<Iri> = Vec::new();
        cc.push(list);
        assert(texts(to@) =~= seq![public_text()]);
        assert(texts(cc@) =~= seq![list@]);
        let announce = AnnounceActivity { actor: community.actor_id(), to, object, cc, id, unparsed: Vec::new() };
        Ok(
            Delivery {
                activity: Outbound::Announce(announce),
                sender: community.actor_id(),
                inboxes: follower_inboxes(followers),
            },
        )
    }

    /// Decides whether the announce may be applied. Nothing but the
    /// session's budget changes.
    pub fn verify(&self, session: &mut Session, store: &Store, site: &SitePolicy) -> (r: Progress)
        ensures
            r@ == self.verdict(old(session)@, store@, *site),
            final(session)@ == spent(old(session)@, r@),
    {
        match check_apub_id_valid(&self.id, site) {
            Err(e) => {
                return Progress::Abort(e);
            },
            Ok(_) => {},
        }
        match verify_is_public(&self.to, &self.cc) {
            Err(e) => {
                return Progress::Abort(e);
            },
            Ok(_) => {},
        }
        self.object.verify(session, store, site)
    }

    /// Applies the wrapped activity. The state changes only on
    /// completion.
    pub fn receive(&self, session: &mut Session, store: &mut Store) -> (r: Progress)
        ensures
            (r@, final(store)@) == self.effect(old(session)@, old(store)@),
            final(session)@ == spent(old(session)@, r@),
    {
        self.object.receive(session, store)
    }

    /// Handles the announce as it comes in: applies it if and only if it
    /// passes every check. Short of completion the state stays as it is.
    pub fn handle(&self, session: &mut Session, store: &mut Store, site: &SitePolicy) -> (r: Progress)
        ensures
            (r@, final(store)@) == self.outcome(old(session)@, old(store)@, *site),
            final(session)@ == spent(old(session)@, r@),
    {
        match self.verify(session, store, site) {
            Progress::Complete => self.receive(session, store),
            other => other,
        }
    }
}

} // verus!
