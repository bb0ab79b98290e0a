//! The engine: it owns the records and the log of events, and changes a
//! record only through one of the named operations.

use vstd::prelude::*;
use crate::decision::{decide_creation, decide_transition};
use crate::error::SubscriptionError;
use crate::model::{event_views, Ledger};
use crate::store::SubscriptionStore;
use crate::subscription::{on_record_view, outcome_view, StateChangeEvent, Subscription};
use crate::transition::Transition;

verus! {

/// The subscription engine. Each operation reads the record of one
/// identifier, judges the request, and on success stores the new record and
/// appends the event that reports it. The caller supplies the time.
pub struct SubscriptionStateMachine {
    store: SubscriptionStore,
    events: Vec<StateChangeEvent>,
}

impl View for SubscriptionStateMachine {
    type V = Ledger;

    closed spec fn view(&self) -> Ledger {
        Ledger { records: self.store@, events: event_views(self.events@) }
    }
}

impl SubscriptionStateMachine {
    /// An engine with nothing on record.
    pub fn new() -> (machine: Self)
        ensures
            machine@ == Ledger::empty(),
    {
        let machine = SubscriptionStateMachine { store: SubscriptionStore::new(), events: Vec::new() };
        assert(machine@.events =~= Seq::empty());
        machine
    }

    /// Creates the subscription `subscription_id`, `Active` since `now`, and
    /// announces it. An identifier that is on record already is refused with
    /// `AlreadyExists`, and nothing changes.
    pub fn create_subscription(&mut self, subscription_id: String, now: u64) -> (result: Result<
        Subscription,
        SubscriptionError,
    >)
        ensures
            (final(self)@, outcome_view(result)) == old(self)@.create(subscription_id@, now),
            final(self)@.well_formed(),
    {
        let on_record = self.store.has(&subscription_id);
        match decide_creation(on_record, subscription_id, now) {
            Err(refusal) => Err(refusal),
            Ok((subscription, event)) => {
                self.store.put(subscription.clone());
                self.announce(event);
                Ok(subscription)
            },
        }
    }

    /// The record of `subscription_id`, or `None` where there is none.
    pub fn get_subscription(&self, subscription_id: String) -> (found: Option<Subscription>)
        ensures
            on_record_view(found) == self@.lookup(subscription_id@),
            self@.well_formed(),
    {
        self.store.get(&subscription_id)
    }

    /// Starts a renewal: `Active -> PendingRenewal`.
    pub fn transition_to_pending_renewal(&mut self, subscription_id: String, now: u64) -> (result:
        Result<Subscription, SubscriptionError>)
        ensures
            (final(self)@, outcome_view(result)) == old(self)@.transition(
                subscription_id@,
                Transition::ToPendingRenewal,
                now,
            ),
            final(self)@.well_formed(),
    {
        self.transition_state(subscription_id, Transition::ToPendingRenewal, now)
    }

    /// Pauses: `Active -> Paused` or `PendingRenewal -> Paused`.
    pub fn transition_to_paused(&mut self, subscription_id: String, now: u64) -> (result: Result<
        Subscription,
        SubscriptionError,
    >)
        ensures
            (final(self)@, outcome_view(result)) == old(self)@.transition(
                subscription_id@,
                Transition::ToPaused,
                now,
            ),
            final(self)@.well_formed(),
    {
        self.transition_state(subscription_id, Transition::ToPaused, now)
    }

    /// Records that the renewal failed: `PendingRenewal -> Failed`.
    pub fn transition_to_failed(&mut self, subscription_id: String, now: u64) -> (result: Result<
        Subscription,
        SubscriptionError,
    >)
        ensures
            (final(self)@, outcome_view(result)) == old(self)@.transition(
                subscription_id@,
                Transition::ToFailed,
                now,
            ),
            final(self)@.well_formed(),
    {
        self.transition_state(subscription_id, Transition::ToFailed, now)
    }

    /// Cancels, from any state but `Canceled` itself. Nothing can follow.
    pub fn transition_to_canceled(&mut self, subscription_id: String, now: u64) -> (result: Result<
        Subscription,
        SubscriptionError,
    >)
        ensures
            (final(self)@, outcome_view(result)) == old(self)@.transition(
                subscription_id@,
                Transition::ToCanceled,
                now,
            ),
            final(self)@.well_formed(),
    {
        self.transition_state(subscription_id, Transition::ToCanceled, now)
    }

    /// Resumes: `Paused -> Active`.
    pub fn resume_from_paused(&mut self, subscription_id: String, now: u64) -> (result: Result<
        Subscription,
        SubscriptionError,
    >)
        ensures
            (final(self)@, outcome_view(result)) == old(self)@.transition(
                subscription_id@,
                Transition::ResumeFromPaused,
                now,
            ),
            final(self)@.well_formed(),
    {
        self.transition_state(subscription_id, Transition::ResumeFromPaused, now)
    }

    /// Tries the renewal again: `Failed -> PendingRenewal`.
    pub fn retry_from_failed(&mut self, subscription_id: String, now: u64) -> (result: Result<
        Subscription,
        SubscriptionError,
    >)
        ensures
            (final(self)@, outcome_view(result)) == old(self)@.transition(
                subscription_id@,
                Transition::RetryFromFailed,
                now,
            ),
            final(self)@.well_formed(),
    {
        self.transition_state(subscription_id, Transition::RetryFromFailed, now)
    }

    /// Completes the renewal: `PendingRenewal -> Active`.
    pub fn complete_renewal(&mut self, subscription_id: String, now: u64) -> (result: Result<
        Subscription,
        SubscriptionError,
    >)
        ensures
            (final(self)@, outcome_view(result)) == old(self)@.transition(
                subscription_id@,
                Transition::CompleteRenewal,
                now,
            ),
            final(self)@.well_formed(),
    {
        self.transition_state(subscription_id, Transition::CompleteRenewal, now)
    }

    /// The events announced so far, oldest first.
    pub fn events(&self) -> (log: &[StateChangeEvent])
        ensures
            event_views(log@) == self@.events,
    {
        self.events.as_slice()
    }

    /// The step behind every named operation: load the record, judge the
    /// request, and on success store the new record and announce the change.
    fn transition_state(&mut self, subscription_id: String, transition: Transition, now: u64) -> (result:
        Result<Subscription, SubscriptionError>)
        ensures
            (final(self)@, outcome_view(result)) == old(self)@.transition(
                subscription_id@,
                transition,
                now,
            ),
            final(self)@.well_formed(),
    {
        let on_record = self.store.get(&subscription_id);
        match decide_transition(on_record, transition, now) {
            Err(refusal) => Err(refusal),
            Ok((subscription, event)) => {
                self.store.put(subscription.clone());
                self.announce(event);
                Ok(subscription)
            },
        }
    }

    /// Appends `event` to the log.
    fn announce(&mut self, event: StateChangeEvent)
        ensures
            final(self)@ == (Ledger {
                records: old(self)@.records,
                events: old(self)@.events.push(event@),
            }),
    {
        self.events.push(event);
        assert(event_views(self.events@) =~= event_views(old(self).events@).push(event@));
    }
}

} // verus!
