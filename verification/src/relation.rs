//! A finite binary relation between identifiers, such as "is moderator of".

use vstd::prelude::*;
use crate::iri::Iri;

verus! {

/// The pair of serialisations that stands for a stored pair.
pub open spec fn pair_view(p: (Iri, Iri)) -> (Seq<char>, Seq<char>) {
    (p.0@, p.1@)
}

/// The pairs that occur in `s`.
pub open spec fn pair_set(s: Seq<(Iri, Iri)>) -> Set<(Seq<char>, Seq<char>)> {
    Set::new(|p: (Seq<char>, Seq<char>)| exists|i: int| 0 <= i < s.len() && #[trigger] pair_view(s[i]) == p)
}

/// A set of (left, right) pairs of identifiers.
pub struct Relation {
    pairs: Vec<(Iri, Iri)>,
}

impl View for Relation {
    type V = Set<(Seq<char>, Seq<char>)>;

    closed spec fn view(&self) -> Set<(Seq<char>, Seq<char>)> {
        pair_set(self.pairs@)
    }
}

impl Relation {
    /// The empty relation.
    pub fn new() -> (r: Relation)
        ensures
            r@ == Set::<(Seq<char>, Seq<char>)>::empty(),
    {
        let r = Relation { pairs: Vec::new() };
        assert(r@ =~= Set::<(Seq<char>, Seq<char>)>::empty());
        r
    }

    /// Whether `left` stands in the relation to `right`.
    pub fn contains(&self, left: &Iri, right: &Iri) -> (r: bool)
        ensures
            r == self@.contains((left@, right@)),
    {
        let mut i: usize = 0;
        while i < self.pairs.len()
            invariant
                i <= self.pairs.len(),
                forall|j: int| 0 <= j < i ==> #[trigger] pair_view(self.pairs@[j]) != (left@, right@),
            decreases self.pairs.len() - i,
        {
            if self.pairs[i].0.same(left) && self.pairs[i].1.same(right) {
                assert(pair_view(self.pairs@[i as int]) == (left@, right@));
                return true;
            }
            i += 1;
        }
        false
    }

    /// Adds the pair; a pair already present stays as it is.
    pub fn insert(&mut self, left: &Iri, right: &Iri)
        ensures
            final(self)@ == old(self)@.insert((left@, right@)),
    {
        if !self.contains(left, right) {
            let ghost before = self.pairs@;
            self.pairs.push((left.clone(), right.clone()));
            assert(self.pairs@[before.len() as int] == (*left, *right));
            assert forall|p: (Seq<char>, Seq<char>)|
                pair_set(self.pairs@).contains(p) <==> pair_set(before).insert((left@, right@)).contains(p) by {
                if pair_set(self.pairs@).contains(p) {
                    let i = choose|i: int| 0 <= i < self.pairs@.len() && #[trigger] pair_view(self.pairs@[i]) == p;
                    if i < before.len() {
                        assert(pair_view(before[i]) == p);
                    }
                }
                if pair_set(before).contains(p) {
                    let i = choose|i: int| 0 <= i < before.len() && #[trigger] pair_view(before[i]) == p;
                    assert(pair_view(self.pairs@[i]) == p);
                }
                if p == (left@, right@) {
                    assert(pair_view(self.pairs@[before.len() as int]) == p);
                }
            }
            assert(self@ =~= old(self)@.insert((left@, right@)));
        } else {
            assert(self@ =~= old(self)@.insert((left@, right@)));
        }
    }

    /// Takes the pair out; a pair that is absent leaves the relation as it is.
    pub fn remove(&mut self, left: &Iri, right: &Iri)
        ensures
            final(self)@ == old(self)@.remove((left@, right@)),
    {
        let mut kept: Vec<(Iri, Iri)> = Vec::new();
        let mut i: usize = 0;
        while i < self.pairs.len()
            invariant
                i <= self.pairs.len(),
                forall|j: int| 0 <= j < kept@.len() ==> #[trigger] pair_view(kept@[j]) != (left@, right@),
                forall|j: int|
                    0 <= j < kept@.len() ==> pair_set(self.pairs@).contains(#[trigger] pair_view(kept@[j])),
                forall|j: int|
                    0 <= j < i && pair_view(self.pairs@[j]) != (left@, right@) ==> pair_set(kept@).contains(
                        #[trigger] pair_view(self.pairs@[j]),
                    ),
            decreases self.pairs.len() - i,
        {
            let ghost prev = kept@;
            if !(self.pairs[i].0.same(left) && self.pairs[i].1.same(right)) {
                kept.push((self.pairs[i].0.clone(), self.pairs[i].1.clone()));
                assert(pair_view(kept@[prev.len() as int]) == pair_view(self.pairs@[i as int]));
                assert forall|j: int|
                    0 <= j < i + 1 && pair_view(self.pairs@[j]) != (left@, right@) implies pair_set(
                    kept@,
                ).contains(#[trigger] pair_view(self.pairs@[j])) by {
                    if j < i {
                        let k = choose|k: int|
                            0 <= k < prev.len() && #[trigger] pair_view(prev[k]) == pair_view(self.pairs@[j]);
                        assert(pair_view(kept@[k]) == pair_view(self.pairs@[j]));
                    } else {
                        assert(pair_view(kept@[prev.len() as int]) == pair_view(self.pairs@[j]));
                    }
                }
            }
            i += 1;
        }
        let ghost before = self.pairs@;
        self.pairs = kept;
        assert forall|p: (Seq<char>, Seq<char>)|
            pair_set(self.pairs@).contains(p) <==> pair_set(before).remove((left@, right@)).contains(p) by {
            if pair_set(self.pairs@).contains(p) {
                let k = choose|k: int| 0 <= k < self.pairs@.len() && #[trigger] pair_view(self.pairs@[k]) == p;
                assert(pair_view(self.pairs@[k]) != (left@, right@));
            }
            if pair_set(before).remove((left@, right@)).contains(p) {
                let j = choose|j: int| 0 <= j < before.len() && #[trigger] pair_view(before[j]) == p;
                assert(pair_set(self.pairs@).contains(pair_view(before[j])));
            }
        }
        assert(self@ =~= old(self)@.remove((left@, right@)));
    }
}

impl Clone for Relation {
    fn clone(&self) -> (r: Self)
        ensures
            r@ == self@,
    {
        let mut pairs: Vec<(Iri, Iri)> = Vec::new();
        let mut i: usize = 0;
        while i < self.pairs.len()
            invariant
                i <= self.pairs.len(),
                pairs@ == self.pairs@.subrange(0, i as int),
            decreases self.pairs.len() - i,
        {
            pairs.push((self.pairs[i].0.clone(), self.pairs[i].1.clone()));
            assert(pairs@ =~= self.pairs@.subrange(0, i + 1));
            i += 1;
        }
        assert(pairs@ =~= self.pairs@);
        Relation { pairs }
    }
}

} // verus!
