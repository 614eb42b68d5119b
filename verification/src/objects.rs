//! Actors and content as this server knows them, and tables of them keyed
//! by identifier.

use vstd::prelude::*;
use crate::iri::Iri;

verus! {

/// A person or a community: who it is, where it receives activities, and
/// the key with which its signatures are checked.
#[derive(Debug, PartialEq, Eq)]
pub struct Actor {
    pub id: Iri,
    pub inbox: Iri,
    pub shared_inbox: Option<Iri>,
    pub public_key: String,
    pub local: bool,
}

/// A post or a comment, with the community in which it was published.
#[derive(Debug, PartialEq, Eq)]
pub struct Content {
    pub id: Iri,
    pub community: Iri,
}

/// Anything a reference can resolve to.
#[derive(Debug, PartialEq, Eq)]
pub enum Entity {
    Person(Actor),
    Community(Actor),
    Post(Content),
    Comment(Content),
}

/// The shape that the holder of a reference expects behind it.
#[derive(Clone, Copy, Debug, PartialEq, Eq, Structural)]
pub enum ExpectedType {
    Person,
    Community,
    PostOrComment,
}

impl Actor {
    /// The inbox to deliver to, in the model: the shared one where the
    /// actor's server offers one.
    pub open spec fn delivery_inbox(&self) -> Seq<char> {
        match self.shared_inbox {
            Some(shared) => shared@,
            None => self.inbox@,
        }
    }

    /// The identifier of that inbox.
    pub open spec fn delivery_iri(&self) -> Iri {
        match self.shared_inbox {
            Some(shared) => shared,
            None => self.inbox,
        }
    }

    /// The actor's identifier.
    pub fn actor_id(&self) -> (r: Iri)
        ensures
            r == self.id,
    {
        self.id.clone()
    }

    /// The shared inbox of the actor's server if it has one, else the
    /// actor's own inbox.
    pub fn shared_inbox_or_inbox(&self) -> (r: Iri)
        ensures
            r == self.delivery_iri(),
            r@ == self.delivery_inbox(),
    {
        match &self.shared_inbox {
            Some(shared) => shared.clone(),
            None => self.inbox.clone(),
        }
    }
}

impl Clone for Actor {
    fn clone(&self) -> (r: Self)
        ensures
            r == *self,
    {
        let shared_inbox = match &self.shared_inbox {
            Some(shared) => Some(shared.clone()),
            None => None,
        };
        Actor {
            id: self.id.clone(),
            inbox: self.inbox.clone(),
            shared_inbox,
            public_key: self.public_key.clone(),
            local: self.local,
        }
    }
}

impl Clone for Content {
    fn clone(&self) -> (r: Self)
        ensures
            r == *self,
    {
        Content { id: self.id.clone(), community: self.community.clone() }
    }
}

impl Entity {
    /// The identifier, in the model.
    pub open spec fn key(&self) -> Seq<char> {
        match *self {
            Entity::Person(a) => a.id@,
            Entity::Community(a) => a.id@,
            Entity::Post(c) => c.id@,
            Entity::Comment(c) => c.id@,
        }
    }

    /// Whether the entity has the shape `expected`.
    pub open spec fn has_type(&self, expected: ExpectedType) -> bool {
        match expected {
            ExpectedType::Person => *self is Person,
            ExpectedType::Community => *self is Community,
            ExpectedType::PostOrComment => *self is Post || *self is Comment,
        }
    }

    /// The identifier under which the entity is known.
    pub fn id(&self) -> (r: &Iri)
        ensures
            r@ == self.key(),
    {
        match self {
            Entity::Person(a) => &a.id,
            Entity::Community(a) => &a.id,
            Entity::Post(c) => &c.id,
            Entity::Comment(c) => &c.id,
        }
    }

    /// Whether the entity has the shape `expected`.
    pub fn is_a(&self, expected: ExpectedType) -> (r: bool)
        ensures
            r == self.has_type(expected),
    {
        match expected {
            ExpectedType::Person => match self {
                Entity::Person(_) => true,
                _ => false,
            },
            ExpectedType::Community => match self {
                Entity::Community(_) => true,
                _ => false,
            },
            ExpectedType::PostOrComment => match self {
                Entity::Post(_) => true,
                Entity::Comment(_) => true,
                _ => false,
            },
        }
    }
}

impl Clone for Entity {
    fn clone(&self) -> (r: Self)
        ensures
            r == *self,
    {
        match self {
            Entity::Person(a) => Entity::Person(a.clone()),
            Entity::Community(a) => Entity::Community(a.clone()),
            Entity::Post(c) => Entity::Post(c.clone()),
            Entity::Comment(c) => Entity::Comment(c.clone()),
        }
    }
}

/// The entity that a table holds under `key`: the one added last.
pub open spec fn lookup(table: Seq<Entity>, key: Seq<char>) -> Option<Entity>
    decreases table.len(),
{
    if table.len() == 0 {
        None
    } else if table.last().key() == key {
        Some(table.last())
    } else {
        lookup(table.drop_last(), key)
    }
}

/// The table as a map from identifier to entity.
pub open spec fn table_map(table: Seq<Entity>) -> Map<Seq<char>, Entity> {
    Map::new(|key: Seq<char>| lookup(table, key) is Some, |key: Seq<char>| lookup(table, key)->0)
}

/// Adding an entity to a table binds its identifier to it and changes no
/// other binding.
pub proof fn lemma_table_push(table: Seq<Entity>, entity: Entity)
    ensures
        table_map(table.push(entity)) == table_map(table).insert(entity.key(), entity),
{
    let grown = table.push(entity);
    assert(grown.drop_last() =~= table);
    assert(grown.last() == entity);
    assert forall|key: Seq<char>| #[trigger] lookup(grown, key) == (if entity.key() == key {
        Some(entity)
    } else {
        lookup(table, key)
    }) by {}
    assert(table_map(grown) =~= table_map(table).insert(entity.key(), entity));
}

/// A table holds every entity under the entity's own identifier.
pub proof fn lemma_table_keys(table: Seq<Entity>, key: Seq<char>)
    ensures
        lookup(table, key) matches Some(entity) ==> entity.key() == key,
    decreases table.len(),
{
    if table.len() > 0 && table.last().key() != key {
        lemma_table_keys(table.drop_last(), key);
    }
}

/// Finds the entity that `table` holds under `key`.
pub fn find<'a>(table: &'a Vec<Entity>, key: &Iri) -> (r: Option<&'a Entity>)
    ensures
        match r {
            Some(e) => lookup(table@, key@) == Some(*e) && e.key() == key@,
            None => lookup(table@, key@) is None,
        },
{
    let mut i: usize = table.len();
    assert(table@.subrange(0, i as int) =~= table@);
    while i > 0
        invariant
            i <= table.len(),
            lookup(table@, key@) == lookup(table@.subrange(0, i as int), key@),
        decreases i,
    {
        let ghost prefix = table@.subrange(0, i as int);
        assert(prefix.last() == table@[i - 1]);
        assert(prefix.drop_last() =~= table@.subrange(0, i - 1));
        if table[i - 1].id().same(key) {
            return Some(&table[i - 1]);
        }
        i -= 1;
    }
    assert(table@.subrange(0, 0).len() == 0);
    None
}

} // verus!
