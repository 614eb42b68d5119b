//! The outbound side: which envelope goes from whom to which inboxes.

use vstd::prelude::*;
use crate::iri::{texts, Iri};
use crate::objects::Actor;
use crate::policy::contains_iri;
use crate::protocol::{AnnouncableActivities, AnnounceActivity};

verus! {

/// An envelope on its way out.
#[derive(Clone, Debug, PartialEq, Eq)]
pub enum Outbound {
    Activity(AnnouncableActivities),
    Announce(AnnounceActivity),
}

/// What the delivery transport is handed: the envelope, the actor in whose
/// name it is signed, and the inboxes to deliver it to.
#[derive(Clone, Debug, PartialEq, Eq)]
pub struct Delivery {
    pub activity: Outbound,
    pub sender: Iri,
    pub inboxes: Vec<Iri>,
}

/// `s` without repetitions: of equal elements the first stays.
pub open spec fn unique(s: Seq<Seq<char>>) -> Seq<Seq<char>>
    decreases s.len(),
{
    if s.len() == 0 {
        s
    } else if unique(s.drop_last()).contains(s.last()) {
        unique(s.drop_last())
    } else {
        unique(s.drop_last()).push(s.last())
    }
}

/// The inboxes through which the remote actors among `followers` are
/// reached, in their order. Local ones need no delivery.
pub open spec fn remote_inboxes(followers: Seq<Actor>) -> Seq<Seq<char>>
    decreases followers.len(),
{
    if followers.len() == 0 {
        Seq::empty()
    } else if followers.last().local {
        remote_inboxes(followers.drop_last())
    } else {
        remote_inboxes(followers.drop_last()).push(followers.last().delivery_inbox())
    }
}

/// The inboxes of an activity sent within `community`: those given, and
/// the community's own unless the community lives on this server.
pub open spec fn community_recipients(extra: Seq<Seq<char>>, community: Actor) -> Seq<Seq<char>> {
    if community.local {
        unique(extra)
    } else {
        unique(extra.push(community.delivery_inbox()))
    }
}

/// `unique` keeps every element and keeps none twice.
pub proof fn lemma_unique(s: Seq<Seq<char>>)
    ensures
        unique(s).no_duplicates(),
        forall|x: Seq<char>| unique(s).contains(x) <==> s.contains(x),
    decreases s.len(),
{
    if s.len() > 0 {
        let rest = s.drop_last();
        lemma_unique(rest);
        assert forall|x: Seq<char>| unique(s).contains(x) <==> s.contains(x) by {
            if s.contains(x) {
                let i = choose|i: int| 0 <= i < s.len() && s[i] == x;
                if i < rest.len() {
                    assert(rest[i] == x);
                    assert(rest.contains(x));
                }
            }
            if rest.contains(x) {
                let i = choose|i: int| 0 <= i < rest.len() && rest[i] == x;
                assert(s[i] == x);
            }
            if unique(s).contains(x) && !unique(rest).contains(x) {
                let i = choose|i: int| 0 <= i < unique(s).len() && unique(s)[i] == x;
                assert(i == unique(rest).len());
                assert(s[s.len() - 1] == x);
            }
            if unique(rest).contains(x) {
                let i = choose|i: int| 0 <= i < unique(rest).len() && unique(rest)[i] == x;
                assert(unique(s)[i] == x);
            }
            if x == s.last() && !unique(rest).contains(x) {
                assert(unique(s)[unique(rest).len() as int] == x);
            }
        }
    }
}

/// The inboxes of `candidates` with repetitions left out.
pub fn unique_inboxes(candidates: &Vec<Iri>) -> (r: Vec<Iri>)
    ensures
        texts(r@) == unique(texts(candidates@)),
{
    let mut kept: Vec<Iri> = Vec::new();
    let mut i: usize = 0;
    assert(texts(candidates@).subrange(0, 0) =~= Seq::<Seq<char>>::empty());
    assert(texts(kept@) =~= Seq::<Seq<char>>::empty());
    while i < candidates.len()
        invariant
            i <= candidates.len(),
            texts(kept@) == unique(texts(candidates@).subrange(0, i as int)),
        decreases candidates.len() - i,
    {
        let ghost prefix = texts(candidates@).subrange(0, i + 1);
        let ghost before = kept@;
        assert(prefix.drop_last() =~= texts(candidates@).subrange(0, i as int));
        assert(prefix.last() == candidates@[i as int]@);
        let seen = contains_iri(&kept, &candidates[i]);
        proof {
            if seen {
                let j = choose|j: int| 0 <= j < before.len() && #[trigger] before[j]@ == candidates@[i as int]@;
                assert(texts(before)[j] == candidates@[i as int]@);
            }
            if texts(before).contains(candidates@[i as int]@) {
                let j = choose|j: int| 0 <= j < texts(before).len() && texts(before)[j] == candidates@[i as int]@;
                assert(before[j]@ == candidates@[i as int]@);
            }
        }
        if !seen {
            kept.push(candidates[i].clone());
            assert(texts(kept@) =~= texts(before).push(candidates@[i as int]@));
        }
        i += 1;
    }
    assert(texts(candidates@).subrange(0, i as int) =~= texts(candidates@));
    kept
}

/// The inboxes through which the remote actors among `followers` are
/// reached, each once.
pub fn follower_inboxes(followers: &Vec<Actor>) -> (r: Vec<Iri>)
    ensures
        texts(r@) == unique(remote_inboxes(followers@)),
{
    let mut candidates: Vec<Iri> = Vec::new();
    let mut i: usize = 0;
    assert(followers@.subrange(0, 0) =~= Seq::<Actor>::empty());
    assert(texts(candidates@) =~= Seq::<Seq<char>>::empty());
    while i < followers.len()
        invariant
            i <= followers.len(),
            texts(candidates@) == remote_inboxes(followers@.subrange(0, i as int)),
        decreases followers.len() - i,
    {
        let ghost prefix = followers@.subrange(0, i + 1);
        let ghost before = candidates@;
        assert(prefix.drop_last() =~= followers@.subrange(0, i as int));
        assert(prefix.last() == followers@[i as int]);
        if !followers[i].local {
            candidates.push(followers[i].shared_inbox_or_inbox());
            assert(texts(candidates@) =~= texts(before).push(followers@[i as int].delivery_inbox()));
        }
        i += 1;
    }
    assert(followers@.subrange(0, i as int) =~= followers@);
    unique_inboxes(&candidates)
}

/// Sends `activity`, authored by `actor`, within `community`: to the
/// inboxes given and, for a community on another server, to the
/// community's inbox, from where it is passed on.
pub fn send_activity_in_community(
    activity: AnnouncableActivities,
    actor: &Actor,
    community: &Actor,
    extra_inboxes: Vec<Iri>,
) -> (r: Delivery)
    ensures
        r.activity == Outbound::Activity(activity),
        r.sender == actor.id,
        texts(r.inboxes@) == community_recipients(texts(extra_inboxes@), *community),
{
    let mut candidates = extra_inboxes;
    if !community.local {
        candidates.push(community.shared_inbox_or_inbox());
        assert(texts(candidates@) =~= texts(extra_inboxes@).push(community.delivery_inbox()));
    }
    Delivery { activity: Outbound::Activity(activity), sender: actor.actor_id(), inboxes: unique_inboxes(&candidates) }
}

} // verus!
