//! Granting and revoking moderator standing: the add-moderator and
//! remove-moderator activities.

use vstd::prelude::*;
use crate::activities::{
    gate,
    person_in_community,
    spent,
    step_of,
    verify_mod_action,
    verify_person_in_community,
    Progress,
    Step,
};
use crate::dispatch::{community_recipients, send_activity_in_community, Delivery, Outbound};
use crate::error::ApubError;
use crate::iri::{parsed_url, public_text, texts, Iri};
use crate::objects::{Actor, ExpectedType};
use crate::policy::{
    check_apub_id_valid,
    community_of_moderators_url,
    generate_activity_id,
    generate_moderators_url,
    is_moderators_url_of,
    is_public,
    moderated_community,
    moderators_suffix,
    public_address,
    verify_add_remove_moderator_target,
    verify_is_public,
    ActivityKind,
    SitePolicy,
};
use crate::protocol::{AddMod, AnnouncableActivities, ExtraField, RemoveMod};
use crate::resolver::{first_step, Lookup, Resolution, Session, SessionView};
use crate::store::{ModLogEntry, ModLogView, Store, StoreView};

verus! {

/// The resolution of the community whose moderator list is `target`.
pub open spec fn moderation_community(target: Seq<char>, session: SessionView, store: StoreView) -> Lookup {
    match moderated_community(target) {
        Ok(community) => first_step(session, store, community, ExpectedType::Community),
        Err(e) => Lookup::Failed(e),
    }
}

/// The checks on a moderation activity, in order: the identifier is
/// admitted by the site; the activity is addressed to the public; the
/// community resolves; the actor resolves to a member of it; the actor is a
/// moderator of it; where standing is revoked, the subject has it; the
/// target is the community's moderator list.
pub open spec fn moderation_verdict(
    removing: bool,
    id: Iri,
    to: Seq<Iri>,
    cc: Seq<Iri>,
    actor: Seq<char>,
    object: Seq<char>,
    target: Seq<char>,
    session: SessionView,
    store: StoreView,
    site: SitePolicy,
) -> Step {
    gate(site.admits(id), ApubError::InvalidIdentity).followed_by(
        gate(is_public(to, cc), ApubError::AddressingPolicyViolation),
    ).followed_by(
        match moderation_community(target, session, store) {
            Lookup::Found(community) => person_in_community(session, store, actor, community.key()).followed_by(
                gate(store.is_moderator(community.key(), actor), ApubError::NotAuthorized),
            ).followed_by(gate(removing ==> store.is_moderator(community.key(), object), ApubError::NotAuthorized)).followed_by(
                gate(is_moderators_url_of(target, community.key()), ApubError::NotAuthorized),
            ),
            other => step_of(other),
        },
    )
}

/// The state after the change that a moderation activity asks for.
pub open spec fn moderated(
    removing: bool,
    store: StoreView,
    community: Seq<char>,
    person: Seq<char>,
    moderator: Seq<char>,
) -> StoreView {
    let line = ModLogView { mod_person: moderator, other_person: person, community, removed: removing };
    if removing {
        store.without_moderator(community, person).with_log(line)
    } else {
        store.with_moderator(community, person).with_log(line)
    }
}

/// The application of a moderation activity: community, subject and actor
/// are resolved in this order; once all three are, the moderator relation
/// is changed and one line is appended to the log. Short of that the state
/// stays as it is.
pub open spec fn moderation_effect(
    removing: bool,
    actor: Seq<char>,
    object: Seq<char>,
    target: Seq<char>,
    session: SessionView,
    store: StoreView,
) -> (Step, StoreView) {
    match moderation_community(target, session, store) {
        Lookup::Found(community) => match first_step(session, store, object, ExpectedType::Person) {
            Lookup::Found(person) => match first_step(session, store, actor, ExpectedType::Person) {
                Lookup::Found(moderator) => (
                    Step::Complete,
                    moderated(removing, store, community.key(), person.key(), moderator.key()),
                ),
                other => (step_of(other), store),
            },
            other => (step_of(other), store),
        },
        other => (step_of(other), store),
    }
}

/// The envelope fields of a moderation activity that `actor` sends about
/// `subject` in `community`, with identifier `id` and target `target`.
pub open spec fn moderation_envelope(
    actor: Iri,
    to: Seq<Iri>,
    object: Iri,
    target: Iri,
    cc: Seq<Iri>,
    id: Iri,
    unparsed: Seq<ExtraField>,
    community: Actor,
    subject: Actor,
    sender: Actor,
    id_text: Seq<char>,
    target_text: Seq<char>,
) -> bool {
    &&& actor == sender.id
    &&& texts(to) == seq![public_text()]
    &&& object == subject.id
    &&& target@ == target_text
    &&& texts(cc) == seq![community.id@]
    &&& id@ == id_text
    &&& unparsed.len() == 0
}

/// `delivery` is what sending a moderation activity about `subject` in
/// `community` in the name of `sender` hands over: the envelope, signed by
/// `sender`, for the subject's inbox and the community.
pub open spec fn moderation_delivery(
    removing: bool,
    delivery: Delivery,
    community: Actor,
    subject: Actor,
    sender: Actor,
    id_text: Seq<char>,
    target_text: Seq<char>,
) -> bool {
    &&& delivery.sender == sender.id
    &&& texts(delivery.inboxes@) == community_recipients(seq![subject.delivery_inbox()], community)
    &&& match delivery.activity {
        Outbound::Activity(AnnouncableActivities::RemoveMod(a)) => removing && moderation_envelope(
            a.actor,
            a.to@,
            a.object,
            a.target,
            a.cc@,
            a.id,
            a.unparsed@,
            community,
            subject,
            sender,
            id_text,
            target_text,
        ),
        Outbound::Activity(AnnouncableActivities::AddMod(a)) => !removing && moderation_envelope(
            a.actor,
            a.to@,
            a.object,
            a.target,
            a.cc@,
            a.id,
            a.unparsed@,
            community,
            subject,
            sender,
            id_text,
            target_text,
        ),
        _ => false,
    }
}

/// Resolves the community whose moderator list is `target`.
fn resolve_moderation_community(target: &Iri, session: &mut Session, store: &Store) -> (r: Resolution)
    ensures
        r@ == moderation_community(target@, old(session)@, store@),
        final(session)@ == spent(old(session)@, step_of(r@)),
        r matches Resolution::Found(entity) ==> entity.has_type(ExpectedType::Community),
{
    match community_of_moderators_url(target) {
        Ok(community) => session.begin(store, &community, ExpectedType::Community),
        Err(e) => Resolution::Failed(e),
    }
}

/// Runs the checks on a moderation activity.
fn verify_moderation(
    removing: bool,
    id: &Iri,
    to: &Vec<Iri>,
    cc: &Vec<Iri>,
    actor: &Iri,
    object: &Iri,
    target: &Iri,
    session: &mut Session,
    store: &Store,
    site: &SitePolicy,
) -> (r: Progress)
    ensures
        r@ == moderation_verdict(
            removing,
            *id,
            to@,
            cc@,
            actor@,
            object@,
            target@,
            old(session)@,
            store@,
            *site,
        ),
        final(session)@ == spent(old(session)@, r@),
{
    match check_apub_id_valid(id, site) {
        Err(e) => {
            return Progress::Abort(e);
        },
        Ok(_) => {},
    }
    match verify_is_public(to, cc) {
        Err(e) => {
            return Progress::Abort(e);
        },
        Ok(_) => {},
    }
    let community = match resolve_moderation_community(target, session, store) {
        Resolution::Found(community) => community,
        Resolution::Fetch(request) => {
            return Progress::Fetch(request);
        },
        Resolution::Failed(e) => {
            return Progress::Abort(e);
        },
    };
    match verify_person_in_community(actor, community.id(), session, store) {
        Progress::Complete => {},
        other => {
            return other;
        },
    }
    match verify_mod_action(actor, community.id(), store) {
        Err(e) => {
            return Progress::Abort(e);
        },
        Ok(_) => {},
    }
    if removing && !store.is_moderator(community.id(), object) {
        return Progress::Abort(ApubError::NotAuthorized);
    }
    match verify_add_remove_moderator_target(target, community.id()) {
        Err(e) => Progress::Abort(e),
        Ok(_) => Progress::Complete,
    }
}

/// Applies a moderation activity.
fn apply_moderation(
    removing: bool,
    actor: &Iri,
    object: &Iri,
    target: &Iri,
    session: &mut Session,
    store: &mut Store,
) -> (r: Progress)
    ensures
        (r@, final(store)@) == moderation_effect(
            removing,
            actor@,
            object@,
            target@,
            old(session)@,
            old(store)@,
        ),
        final(session)@ == spent(old(session)@, r@),
{
    let community = match resolve_moderation_community(target, session, store) {
        Resolution::Found(community) => community,
        Resolution::Fetch(request) => {
            return Progress::Fetch(request);
        },
        Resolution::Failed(e) => {
            return Progress::Abort(e);
        },
    };
    let person = match session.begin(store, object, ExpectedType::Person) {
        Resolution::Found(person) => person,
        Resolution::Fetch(request) => {
            return Progress::Fetch(request);
        },
        Resolution::Failed(e) => {
            return Progress::Abort(e);
        },
    };
    let moderator = match session.begin(store, actor, ExpectedType::Person) {
        Resolution::Found(moderator) => moderator,
        Resolution::Fetch(request) => {
            return Progress::Fetch(request);
        },
        Resolution::Failed(e) => {
            return Progress::Abort(e);
        },
    };
    if removing {
        store.leave_moderator(community.id(), person.id());
    } else {
        store.join_moderator(community.id(), person.id());
    }
    store.append_mod_log(
        ModLogEntry {
            mod_person: moderator.id().clone(),
            other_person: person.id().clone(),
            community: community.id().clone(),
            removed: removing,
        },
    );
    Progress::Complete
}

/// The addressing of a moderation activity: to the public, with the
/// community in copy.
fn moderation_addressing(community: &Actor) -> (r: (Vec<Iri>, Vec<Iri>))
    ensures
        texts(r.0@) == seq![public_text()],
        texts(r.1@) == seq![community.id@],
{
    let mut to: Vec<Iri> = Vec::new();
    to.push(public_address());
    let mut cc: Vec<Iri> = Vec::new();
    cc.push(community.actor_id());
    assert(texts(to@) =~= seq![public_text()]);
    assert(texts(cc@) =~= seq![community.id@]);
    (to, cc)
}

/// The one inbox of `subject`, as a list.
fn inbox_of(subject: &Actor) -> (r: Vec<Iri>)
    ensures
        texts(r@) == seq![subject.delivery_inbox()],
{
    let mut inboxes: Vec<Iri> = Vec::new();
    inboxes.push(subject.shared_inbox_or_inbox());
    assert(texts(inboxes@) =~= seq![subject.delivery_inbox()]);
    inboxes
}

impl RemoveMod {
    /// The checks on this activity; see `moderation_verdict`.
    pub open spec fn verdict(&self, session: SessionView, store: StoreView, site: SitePolicy) -> Step {
        moderation_verdict(
            true,
            self.id,
            self.to@,
            self.cc@,
            self.actor@,
            self.object@,
            self.target@,
            session,
            store,
            site,
        )
    }

    /// The application of this activity; see `moderation_effect`.
    pub open spec fn effect(&self, session: SessionView, store: StoreView) -> (Step, StoreView) {
        moderation_effect(true, self.actor@, self.object@, self.target@, session, store)
    }

    /// The identifier that the authoring server gave the activity.
    pub fn id(&self) -> (r: &Iri)
        ensures
            *r == self.id,
    {
        &self.id
    }

    /// Who revokes.
    pub fn actor(&self) -> (r: &Iri)
        ensures
            *r == self.actor,
    {
        &self.actor
    }

    /// Builds the activity by which `actor` ends the moderator standing of
    /// `removed_mod` in `community`, and says where it goes: to the inbox of
    /// `removed_mod` and into the community. `token` makes the identifier
    /// unique; the caller supplies a fresh one.
    pub fn send(community: &Actor, removed_mod: &Actor, actor: &Actor, site: &SitePolicy, token: &str) -> (r:
        Result<Delivery, ApubError>)
        ensures
            match (
                parsed_url(site.activity_id_text(ActivityKind::Remove, token@)),
                parsed_url(community.id@ + moderators_suffix()),
            ) {
                (Some(id), Some(target)) => r matches Ok(delivery) && moderation_delivery(
                    true,
                    delivery,
                    *community,
                    *removed_mod,
                    *actor,
                    id.0,
                    target.0,
                ),
                _ => r == Err::<Delivery, ApubError>(ApubError::MalformedEnvelope),
            },
    {
        let id = match generate_activity_id(ActivityKind::Remove, site, token) {
            Ok(id) => id,
            Err(e) => {
                return Err(e);
            },
        };
        let target = match generate_moderators_url(&community.id) {
            Ok(target) => target,
            Err(e) => {
                return Err(e);
            },
        };
        let (to, cc) = moderation_addressing(community);
        let remove = RemoveMod {
            actor: actor.actor_id(),
            to,
            object: removed_mod.actor_id(),
            target,
            cc,
            id,
            unparsed: Vec::new(),
        };
        let activity = AnnouncableActivities::RemoveMod(remove);
        Ok(send_activity_in_community(activity, actor, community, inbox_of(removed_mod)))
    }

    /// Resolves the community that the activity concerns.
    pub fn get_community(&self, session: &mut Session, store: &Store) -> (r: Resolution)
        ensures
            r@ == moderation_community(self.target@, old(session)@, store@),
            final(session)@ == spent(old(session)@, step_of(r@)),
    {
        resolve_moderation_community(&self.target, session, store)
    }

    /// Decides whether the activity may be applied. Nothing but the
    /// session's budget changes.
    pub fn verify(&self, session: &mut Session, store: &Store, site: &SitePolicy) -> (r: Progress)
        ensures
            r@ == self.verdict(old(session)@, store@, *site),
            final(session)@ == spent(old(session)@, r@),
    {
        verify_moderation(
            true,
            &self.id,
            &self.to,
            &self.cc,
            &self.actor,
            &self.object,
            &self.target,
            session,
            store,
            site,
        )
    }

    /// Applies the activity: the subject leaves the community's moderators
    /// and the log gains a line. The state changes only on completion.
    pub fn receive(&self, session: &mut Session, store: &mut Store) -> (r: Progress)
        ensures
            (r@, final(store)@) == self.effect(old(session)@, old(store)@),
            final(session)@ == spent(old(session)@, r@),
    {
        apply_moderation(true, &self.actor, &self.object, &self.target, session, store)
    }
}

impl AddMod {
    /// The checks on this activity; see `moderation_verdict`.
    pub open spec fn verdict(&self, session: SessionView, store: StoreView, site: SitePolicy) -> Step {
        moderation_verdict(
            false,
            self.id,
            self.to@,
            self.cc@,
            self.actor@,
            self.object@,
            self.target@,
            session,
            store,
            site,
        )
    }

    /// The application of this activity; see `moderation_effect`.
    pub open spec fn effect(&self, session: SessionView, store: StoreView) -> (Step, StoreView) {
        moderation_effect(false, self.actor@, self.object@, self.target@, session, store)
    }

    /// The identifier that the authoring server gave the activity.
    pub fn id(&self) -> (r: &Iri)
        ensures
            *r == self.id,
    {
        &self.id
    }

    /// Who grants.
    pub fn actor(&self) -> (r: &Iri)
        ensures
            *r == self.actor,
    {
        &self.actor
    }

    /// Builds the activity by which `actor` makes `added_mod` a moderator
    /// of `community`, and says where it goes: to the inbox of `added_mod`
    /// and into the community. `token` makes the identifier unique; the
    /// caller supplies a fresh one.
    pub fn send(community: &Actor, added_mod: &Actor, actor: &Actor, site: &SitePolicy, token: &str) -> (r:
        Result<Delivery, ApubError>)
        ensures
            match (
                parsed_url(site.activity_id_text(ActivityKind::Add, token@)),
                parsed_url(community.id@ + moderators_suffix()),
            ) {
                (Some(id), Some(target)) => r matches Ok(delivery) && moderation_delivery(
                    false,
                    delivery,
                    *community,
                    *added_mod,
                    *actor,
                    id.0,
                    target.0,
                ),
                _ => r == Err::<Delivery, ApubError>(ApubError::MalformedEnvelope),
            },
    {
        let id = match generate_activity_id(ActivityKind::Add, site, token) {
            Ok(id) => id,
            Err(e) => {
                return Err(e);
            },
        };
        let target = match generate_moderators_url(&community.id) {
            Ok(target) => target,
            Err(e) => {
                return Err(e);
            },
        };
        let (to, cc) = moderation_addressing(community);
        let add = AddMod {
            actor: actor.actor_id(),
            to,
            object: added_mod.actor_id(),
            target,
            cc,
            id,
            unparsed: Vec::new(),
        };
        let activity = AnnouncableActivities::AddMod(add);
        Ok(send_activity_in_community(activity, actor, community, inbox_of(added_mod)))
    }

    /// Resolves the community that the activity concerns.
    pub fn get_community(&self, session: &mut Session, store: &Store) -> (r: Resolution)
        ensures
            r@ == moderation_community(self.target@, old(session)@, store@),
            final(session)@ == spent(old(session)@, step_of(r@)),
    {
        resolve_moderation_community(&self.target, session, store)
    }

    /// Decides whether the activity may be applied. Nothing but the
    /// session's budget changes.
    pub fn verify(&self, session: &mut Session, store: &Store, site: &SitePolicy) -> (r: Progress)
        ensures
            r@ == self.verdict(old(session)@, store@, *site),
            final(session)@ == spent(old(session)@, r@),
    {
        verify_moderation(
            false,
            &self.id,
            &self.to,
            &self.cc,
            &self.actor,
            &self.object,
            &self.target,
            session,
            store,
            site,
        )
    }

    /// Applies the activity: the subject joins the community's moderators
    /// and the log gains a line. The state changes only on completion.
    pub fn receive(&self, session: &mut Session, store: &mut Store) -> (r: Progress)
        ensures
            (r@, final(store)@) == self.effect(old(session)@, old(store)@),
            final(session)@ == spent(old(session)@, r@),
    {
        apply_moderation(false, &self.actor, &self.object, &self.target, session, store)
    }
}

} // verus!
