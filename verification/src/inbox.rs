//! Inbound handling of the activities that communities pass on: checks
//! first, application only after every check has passed.

use vstd::prelude::*;
use crate::activities::{spent, Progress, Step};
use crate::policy::SitePolicy;
use crate::protocol::AnnouncableActivities;
use crate::resolver::{Session, SessionView};
use crate::store::{Store, StoreView};

verus! {

impl AnnouncableActivities {
    /// The checks that the activity's kind prescribes.
    pub open spec fn verdict(&self, session: SessionView, store: StoreView, site: SitePolicy) -> Step {
        match *self {
            AnnouncableActivities::AddMod(a) => a.verdict(session, store, site),
            AnnouncableActivities::RemoveMod(a) => a.verdict(session, store, site),
            AnnouncableActivities::Vote(a) => a.verdict(session, store, site),
            AnnouncableActivities::UndoVote(a) => a.verdict(session, store, site),
        }
    }

    /// The application that the activity's kind prescribes.
    pub open spec fn effect(&self, session: SessionView, store: StoreView) -> (Step, StoreView) {
        match *self {
            AnnouncableActivities::AddMod(a) => a.effect(session, store),
            AnnouncableActivities::RemoveMod(a) => a.effect(session, store),
            AnnouncableActivities::Vote(a) => a.effect(session, store),
            AnnouncableActivities::UndoVote(a) => a.effect(session, store),
        }
    }

    /// Checking and, where the checks pass, applying.
    pub open spec fn outcome(&self, session: SessionView, store: StoreView, site: SitePolicy) -> (Step, StoreView) {
        let verdict = self.verdict(session, store, site);
        if verdict is Complete {
            self.effect(session, store)
        } else {
            (verdict, store)
        }
    }

    /// Decides whether the activity may be applied. Nothing but the
    /// session's budget changes.
    pub fn verify(&self, session: &mut Session, store: &Store, site: &SitePolicy) -> (r: Progress)
        ensures
            r@ == self.verdict(old(session)@, store@, *site),
            final(session)@ == spent(old(session)@, r@),
    {
        match self {
            AnnouncableActivities::AddMod(a) => a.verify(session, store, site),
            AnnouncableActivities::RemoveMod(a) => a.verify(session, store, site),
            AnnouncableActivities::Vote(a) => a.verify(session, store, site),
            AnnouncableActivities::UndoVote(a) => a.verify(session, store, site),
        }
    }

    /// Applies the activity. The state changes only on completion.
    pub fn receive(&self, session: &mut Session, store: &mut Store) -> (r: Progress)
        ensures
            (r@, final(store)@) == self.effect(old(session)@, old(store)@),
            final(session)@ == spent(old(session)@, r@),
    {
        match self {
            AnnouncableActivities::AddMod(a) => a.receive(session, store),
            AnnouncableActivities::RemoveMod(a) => a.receive(session, store),
            AnnouncableActivities::Vote(a) => a.receive(session, store),
            AnnouncableActivities::UndoVote(a) => a.receive(session, store),
        }
    }

    /// Handles the activity as it comes in: applies it if and only if it
    /// passes every check. Short of completion the state stays as it is.
    pub fn handle(&self, session: &mut Session, store: &mut Store, site: &SitePolicy) -> (r: Progress)
        ensures
            (r@, final(store)@) == self.outcome(old(session)@, old(store)@, *site),
            final(session)@ == spent(old(session)@, r@),
    {
        match self.verify(session, store, site) {
            Progress::Complete => self.receive(session, store),
            other => other,
        }
    }
}

} // verus!
