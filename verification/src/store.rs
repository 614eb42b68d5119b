//! The local state that activities read and change: known entities,
//! community membership and moderation, votes, and the moderation log.

use vstd::prelude::*;
use crate::error::ApubError;
use crate::iri::Iri;
use crate::objects::{find, lemma_table_keys, lemma_table_push, table_map, Entity};
use crate::relation::Relation;

verus! {

/// The polarity of a vote.
#[derive(Clone, Copy, Debug, PartialEq, Eq, Structural)]
pub enum VoteType {
    Like,
    Dislike,
}

/// One line of the moderation log: who granted or revoked whose moderator
/// standing in which community.
#[derive(Debug, PartialEq, Eq)]
pub struct ModLogEntry {
    pub mod_person: Iri,
    pub other_person: Iri,
    pub community: Iri,
    pub removed: bool,
}

/// A moderation log line over serialisations.
pub struct ModLogView {
    pub mod_person: Seq<char>,
    pub other_person: Seq<char>,
    pub community: Seq<char>,
    pub removed: bool,
}

impl View for ModLogEntry {
    type V = ModLogView;

    open spec fn view(&self) -> ModLogView {
        ModLogView {
            mod_person: self.mod_person@,
            other_person: self.other_person@,
            community: self.community@,
            removed: self.removed,
        }
    }
}

impl Clone for ModLogEntry {
    fn clone(&self) -> (r: Self)
        ensures
            r == *self,
    {
        ModLogEntry {
            mod_person: self.mod_person.clone(),
            other_person: self.other_person.clone(),
            community: self.community.clone(),
            removed: self.removed,
        }
    }
}

/// The views of the lines of a log, in order.
pub open spec fn log_view(log: Seq<ModLogEntry>) -> Seq<ModLogView> {
    log.map_values(|e: ModLogEntry| e@)
}

/// The local state. Relations pair a community with a person, votes pair
/// the voting person with the content voted on.
pub struct Store {
    entities: Vec<Entity>,
    members: Relation,
    moderators: Relation,
    likes: Relation,
    dislikes: Relation,
    mod_log: Vec<ModLogEntry>,
}

/// The local state as maps, sets and a sequence.
#[verifier::ext_equal]
pub struct StoreView {
    pub entities: Map<Seq<char>, Entity>,
    pub members: Set<(Seq<char>, Seq<char>)>,
    pub moderators: Set<(Seq<char>, Seq<char>)>,
    pub likes: Set<(Seq<char>, Seq<char>)>,
    pub dislikes: Set<(Seq<char>, Seq<char>)>,
    pub mod_log: Seq<ModLogView>,
}

impl StoreView {
    /// Every known entity is known under its own identifier.
    pub open spec fn keyed_by_identifier(self) -> bool {
        forall|key: Seq<char>| #[trigger] self.entities.contains_key(key) ==> self.entities[key].key() == key
    }

    /// Moderators hold membership like any other member.
    pub open spec fn is_member(self, community: Seq<char>, person: Seq<char>) -> bool {
        self.members.contains((community, person)) || self.moderators.contains((community, person))
    }

    pub open spec fn is_moderator(self, community: Seq<char>, person: Seq<char>) -> bool {
        self.moderators.contains((community, person))
    }

    /// The vote that `actor` has on `content`, if any. A like takes
    /// precedence, though no operation leaves both in place.
    pub open spec fn vote_of(self, actor: Seq<char>, content: Seq<char>) -> Option<VoteType> {
        if self.likes.contains((actor, content)) {
            Some(VoteType::Like)
        } else if self.dislikes.contains((actor, content)) {
            Some(VoteType::Dislike)
        } else {
            None
        }
    }

    /// What `actor` contributes to the tally of `content`.
    pub open spec fn score(self, actor: Seq<char>, content: Seq<char>) -> int {
        match self.vote_of(actor, content) {
            Some(VoteType::Like) => 1,
            Some(VoteType::Dislike) => -1,
            None => 0,
        }
    }

    pub open spec fn with_entity(self, entity: Entity) -> StoreView {
        StoreView { entities: self.entities.insert(entity.key(), entity), ..self }
    }

    pub open spec fn with_member(self, community: Seq<char>, person: Seq<char>) -> StoreView {
        StoreView { members: self.members.insert((community, person)), ..self }
    }

    pub open spec fn with_moderator(self, community: Seq<char>, person: Seq<char>) -> StoreView {
        StoreView { moderators: self.moderators.insert((community, person)), ..self }
    }

    pub open spec fn without_moderator(self, community: Seq<char>, person: Seq<char>) -> StoreView {
        StoreView { moderators: self.moderators.remove((community, person)), ..self }
    }

    /// The state in which `actor`'s one vote on `content` is `kind`.
    pub open spec fn with_vote(self, actor: Seq<char>, content: Seq<char>, kind: VoteType) -> StoreView {
        match kind {
            VoteType::Like => StoreView {
                likes: self.likes.insert((actor, content)),
                dislikes: self.dislikes.remove((actor, content)),
                ..self
            },
            VoteType::Dislike => StoreView {
                likes: self.likes.remove((actor, content)),
                dislikes: self.dislikes.insert((actor, content)),
                ..self
            },
        }
    }

    pub open spec fn without_vote(self, actor: Seq<char>, content: Seq<char>) -> StoreView {
        StoreView {
            likes: self.likes.remove((actor, content)),
            dislikes: self.dislikes.remove((actor, content)),
            ..self
        }
    }

    pub open spec fn with_log(self, line: ModLogView) -> StoreView {
        StoreView { mod_log: self.mod_log.push(line), ..self }
    }
}

impl View for Store {
    type V = StoreView;

    closed spec fn view(&self) -> StoreView {
        StoreView {
            entities: table_map(self.entities@),
            members: self.members@,
            moderators: self.moderators@,
            likes: self.likes@,
            dislikes: self.dislikes@,
            mod_log: log_view(self.mod_log@),
        }
    }
}

impl Store {
    /// Whatever was done to a store, it knows every entity under the
    /// entity's own identifier.
    pub proof fn lemma_keyed_by_identifier(self)
        ensures
            self@.keyed_by_identifier(),
    {
        assert forall|key: Seq<char>| #[trigger] self@.entities.contains_key(key) implies self@.entities[key].key()
            == key by {
            lemma_table_keys(self.entities@, key);
        }
    }

    /// A state that knows nobody and records nothing.
    pub fn new() -> (r: Store)
        ensures
            r@.entities == Map::<Seq<char>, Entity>::empty(),
            r@.members == Set::<(Seq<char>, Seq<char>)>::empty(),
            r@.moderators == Set::<(Seq<char>, Seq<char>)>::empty(),
            r@.likes == Set::<(Seq<char>, Seq<char>)>::empty(),
            r@.dislikes == Set::<(Seq<char>, Seq<char>)>::empty(),
            r@.mod_log == Seq::<ModLogView>::empty(),
    {
        let r = Store {
            entities: Vec::new(),
            members: Relation::new(),
            moderators: Relation::new(),
            likes: Relation::new(),
            dislikes: Relation::new(),
            mod_log: Vec::new(),
        };
        assert(r@.entities =~= Map::<Seq<char>, Entity>::empty());
        assert(r@.mod_log =~= Seq::<ModLogView>::empty());
        r
    }

    /// Makes `entity` known locally under its identifier, in place of any
    /// entity known under it before.
    pub fn insert_entity(&mut self, entity: Entity)
        ensures
            final(self)@ == old(self)@.with_entity(entity),
    {
        proof {
            lemma_table_push(self.entities@, entity);
        }
        self.entities.push(entity);
    }

    /// The entity known locally under `key`.
    pub fn entity(&self, key: &Iri) -> (r: Option<&Entity>)
        ensures
            match r {
                Some(e) => self@.entities.contains_key(key@) && self@.entities[key@] == *e && e.key() == key@,
                None => !self@.entities.contains_key(key@),
            },
    {
        find(&self.entities, key)
    }

    /// Records that `person` is a member of `community`.
    pub fn add_member(&mut self, community: &Iri, person: &Iri)
        ensures
            final(self)@ == old(self)@.with_member(community@, person@),
    {
        self.members.insert(community, person);
    }

    /// Whether `person` holds membership in `community`.
    pub fn is_member(&self, community: &Iri, person: &Iri) -> (r: bool)
        ensures
            r == self@.is_member(community@, person@),
    {
        self.members.contains(community, person) || self.moderators.contains(community, person)
    }

    /// Whether `person` is a moderator of `community`.
    pub fn is_moderator(&self, community: &Iri, person: &Iri) -> (r: bool)
        ensures
            r == self@.is_moderator(community@, person@),
    {
        self.moderators.contains(community, person)
    }

    /// Makes `person` a moderator of `community`; no change if it is one.
    pub fn join_moderator(&mut self, community: &Iri, person: &Iri)
        ensures
            final(self)@ == old(self)@.with_moderator(community@, person@),
    {
        self.moderators.insert(community, person);
    }

    /// Ends `person`'s moderator standing in `community`; no change if it
    /// has none.
    pub fn leave_moderator(&mut self, community: &Iri, person: &Iri)
        ensures
            final(self)@ == old(self)@.without_moderator(community@, person@),
    {
        self.moderators.remove(community, person);
    }

    /// Records `kind` as the one vote of `actor` on `content`.
    pub fn record_vote(&mut self, actor: &Iri, content: &Iri, kind: VoteType)
        ensures
            final(self)@ == old(self)@.with_vote(actor@, content@, kind),
    {
        match kind {
            VoteType::Like => {
                self.likes.insert(actor, content);
                self.dislikes.remove(actor, content);
            },
            VoteType::Dislike => {
                self.likes.remove(actor, content);
                self.dislikes.insert(actor, content);
            },
        }
    }

    /// Retracts whatever vote `actor` has on `content`.
    pub fn remove_vote(&mut self, actor: &Iri, content: &Iri)
        ensures
            final(self)@ == old(self)@.without_vote(actor@, content@),
    {
        self.likes.remove(actor, content);
        self.dislikes.remove(actor, content);
    }

    /// The vote that `actor` has on `content`, if any.
    pub fn vote_of(&self, actor: &Iri, content: &Iri) -> (r: Option<VoteType>)
        ensures
            r == self@.vote_of(actor@, content@),
    {
        if self.likes.contains(actor, content) {
            Some(VoteType::Like)
        } else if self.dislikes.contains(actor, content) {
            Some(VoteType::Dislike)
        } else {
            None
        }
    }

    /// What `actor` contributes to the tally of `content`: 1, -1 or 0.
    pub fn score(&self, actor: &Iri, content: &Iri) -> (r: i8)
        ensures
            r == self@.score(actor@, content@),
    {
        match self.vote_of(actor, content) {
            Some(VoteType::Like) => 1,
            Some(VoteType::Dislike) => -1,
            None => 0,
        }
    }

    /// Appends a line to the moderation log.
    pub fn append_mod_log(&mut self, line: ModLogEntry)
        ensures
            final(self)@ == old(self)@.with_log(line@),
    {
        self.mod_log.push(line);
        assert(log_view(self.mod_log@) =~= log_view(old(self).mod_log@).push(line@));
    }

    /// Ends a transaction. `staged` is a copy of this state to which an
    /// activity was applied, and `persisted` says whether the persistent
    /// store took the change. If it did, `staged` becomes the state; if
    /// not, the state stays as it was and the failure is reported.
    pub fn commit(&mut self, staged: Store, persisted: bool) -> (r: Result<(), ApubError>)
        ensures
            persisted ==> r == Ok::<(), ApubError>(()) && final(self)@ == staged@,
            !persisted ==> r == Err::<(), ApubError>(ApubError::ApplyFailure) && final(self)@ == old(self)@,
    {
        if persisted {
            *self = staged;
            Ok(())
        } else {
            Err(ApubError::ApplyFailure)
        }
    }

    /// The moderation log, oldest line first.
    pub fn mod_log(&self) -> (r: &Vec<ModLogEntry>)
        ensures
            log_view(r@) == self@.mod_log,
    {
        &self.mod_log
    }
}

impl Clone for Store {
    fn clone(&self) -> (r: Self)
        ensures
            r@ == self@,
    {
        let mut entities: Vec<Entity> = Vec::new();
        let mut i: usize = 0;
        while i < self.entities.len()
            invariant
                i <= self.entities.len(),
                entities@ == self.entities@.subrange(0, i as int),
            decreases self.entities.len() - i,
        {
            entities.push(self.entities[i].clone());
            assert(entities@ =~= self.entities@.subrange(0, i + 1));
            i += 1;
        }
        assert(entities@ =~= self.entities@);
        let mut mod_log: Vec<ModLogEntry> = Vec::new();
        let mut j: usize = 0;
        while j < self.mod_log.len()
            invariant
                j <= self.mod_log.len(),
                mod_log@ == self.mod_log@.subrange(0, j as int),
            decreases self.mod_log.len() - j,
        {
            mod_log.push(self.mod_log[j].clone());
            assert(mod_log@ =~= self.mod_log@.subrange(0, j + 1));
            j += 1;
        }
        assert(mod_log@ =~= self.mod_log@);
        Store {
            entities,
            members: self.members.clone(),
            moderators: self.moderators.clone(),
            likes: self.likes.clone(),
            dislikes: self.dislikes.clone(),
            mod_log,
        }
    }
}

} // verus!
