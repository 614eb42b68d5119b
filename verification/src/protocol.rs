//! The envelopes of the activities that this server sends and accepts.

use vstd::prelude::*;
use crate::iri::Iri;
use crate::policy::ActivityKind;
use crate::store::VoteType;

verus! {

/// A field of an envelope that this server does not interpret, kept as it
/// came so that it can be passed on unchanged.
#[derive(Clone, Debug, PartialEq, Eq)]
pub struct ExtraField {
    pub name: String,
    pub value: String,
}

/// `actor` makes `object` a moderator of the community whose moderator
/// list is `target`.
#[derive(Clone, Debug, PartialEq, Eq)]
pub struct AddMod {
    pub actor: Iri,
    pub to: Vec<Iri>,
    pub object: Iri,
    pub target: Iri,
    pub cc: Vec<Iri>,
    pub id: Iri,
    pub unparsed: Vec<ExtraField>,
}

/// `actor` ends the moderator standing of `object` in the community whose
/// moderator list is `target`.
#[derive(Clone, Debug, PartialEq, Eq)]
pub struct RemoveMod {
    pub actor: Iri,
    pub to: Vec<Iri>,
    pub object: Iri,
    pub target: Iri,
    pub cc: Vec<Iri>,
    pub id: Iri,
    pub unparsed: Vec<ExtraField>,
}

/// `actor` likes or dislikes the post or comment `object`.
#[derive(Clone, Debug, PartialEq, Eq)]
pub struct Vote {
    pub actor: Iri,
    pub to: Vec<Iri>,
    pub object: Iri,
    pub cc: Vec<Iri>,
    pub kind: VoteType,
    pub id: Iri,
    pub unparsed: Vec<ExtraField>,
}

/// `actor` retracts the vote `object`.
#[derive(Clone, Debug, PartialEq, Eq)]
pub struct UndoVote {
    pub actor: Iri,
    pub to: Vec<Iri>,
    pub object: Vote,
    pub cc: Vec<Iri>,
    pub id: Iri,
    pub unparsed: Vec<ExtraField>,
}

/// The activities that a community passes on to its followers.
#[derive(Clone, Debug, PartialEq, Eq)]
pub enum AnnouncableActivities {
    AddMod(AddMod),
    RemoveMod(RemoveMod),
    Vote(Vote),
    UndoVote(UndoVote),
}

/// The community `actor` passes `object` on to its followers.
#[derive(Clone, Debug, PartialEq, Eq)]
pub struct AnnounceActivity {
    pub actor: Iri,
    pub to: Vec<Iri>,
    pub object: AnnouncableActivities,
    pub cc: Vec<Iri>,
    pub id: Iri,
    pub unparsed: Vec<ExtraField>,
}

impl VoteType {
    /// The tag of a vote of this polarity.
    pub open spec fn tag(self) -> ActivityKind {
        match self {
            VoteType::Like => ActivityKind::Like,
            VoteType::Dislike => ActivityKind::Dislike,
        }
    }

    /// The tag of a vote of this polarity.
    pub fn kind(self) -> (r: ActivityKind)
        ensures
            r == self.tag(),
    {
        match self {
            VoteType::Like => ActivityKind::Like,
            VoteType::Dislike => ActivityKind::Dislike,
        }
    }
}

impl AnnouncableActivities {
    /// The identifier of the activity, in the model.
    pub open spec fn id_key(self) -> Seq<char> {
        match self {
            AnnouncableActivities::AddMod(a) => a.id@,
            AnnouncableActivities::RemoveMod(a) => a.id@,
            AnnouncableActivities::Vote(a) => a.id@,
            AnnouncableActivities::UndoVote(a) => a.id@,
        }
    }

    /// The actor of the activity, in the model.
    pub open spec fn actor_key(self) -> Seq<char> {
        match self {
            AnnouncableActivities::AddMod(a) => a.actor@,
            AnnouncableActivities::RemoveMod(a) => a.actor@,
            AnnouncableActivities::Vote(a) => a.actor@,
            AnnouncableActivities::UndoVote(a) => a.actor@,
        }
    }

    /// The tag of the activity, in the model.
    pub open spec fn tag(self) -> ActivityKind {
        match self {
            AnnouncableActivities::AddMod(_) => ActivityKind::Add,
            AnnouncableActivities::RemoveMod(_) => ActivityKind::Remove,
            AnnouncableActivities::Vote(a) => a.kind.tag(),
            AnnouncableActivities::UndoVote(_) => ActivityKind::Undo,
        }
    }

    /// The identifier that the authoring server gave the activity.
    pub fn id(&self) -> (r: &Iri)
        ensures
            r@ == self.id_key(),
    {
        match self {
            AnnouncableActivities::AddMod(a) => &a.id,
            AnnouncableActivities::RemoveMod(a) => &a.id,
            AnnouncableActivities::Vote(a) => &a.id,
            AnnouncableActivities::UndoVote(a) => &a.id,
        }
    }

    /// Who acts.
    pub fn actor(&self) -> (r: &Iri)
        ensures
            r@ == self.actor_key(),
    {
        match self {
            AnnouncableActivities::AddMod(a) => &a.actor,
            AnnouncableActivities::RemoveMod(a) => &a.actor,
            AnnouncableActivities::Vote(a) => &a.actor,
            AnnouncableActivities::UndoVote(a) => &a.actor,
        }
    }

    /// The discriminant tag.
    pub fn kind(&self) -> (r: ActivityKind)
        ensures
            r == self.tag(),
    {
        match self {
            AnnouncableActivities::AddMod(_) => ActivityKind::Add,
            AnnouncableActivities::RemoveMod(_) => ActivityKind::Remove,
            AnnouncableActivities::Vote(a) => a.kind.kind(),
            AnnouncableActivities::UndoVote(_) => ActivityKind::Undo,
        }
    }
}

} // verus!
