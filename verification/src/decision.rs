//! The engine's decisions, as functions from what is on record and what is
//! asked to what is to be stored and announced. They touch no store and read
//! no clock: whoever keeps the records hands both in.

use vstd::prelude::*;
use crate::error::SubscriptionError;
use crate::state::SubscriptionState;
use crate::subscription::{
    decision_view, on_record_view, Decision, DecisionView, StateChangeEvent,
    StateChangeEventView, Subscription, SubscriptionView,
};
use crate::transition::{validate, verdict, Transition};

verus! {

/// What applying `transition` at time `now` makes of a record: the updated
/// record and the event that reports the change, or the refusal.
pub open spec fn applied(
    current: SubscriptionView,
    transition: Transition,
    now: u64,
) -> DecisionView {
    match verdict(current.state, transition.target(), transition.sources()) {
        Err(refusal) => Err(refusal),
        Ok(_) => Ok(
            (
                SubscriptionView {
                    id: current.id,
                    state: transition.target(),
                    created_at: current.created_at,
                    updated_at: now,
                },
                StateChangeEventView {
                    subscription_id: current.id,
                    old_state: current.state,
                    new_state: transition.target(),
                    timestamp: now,
                },
            ),
        ),
    }
}

/// The record of a subscription created at time `now`.
pub open spec fn created(id: Seq<char>, now: u64) -> SubscriptionView {
    SubscriptionView { id, state: SubscriptionState::Active, created_at: now, updated_at: now }
}

/// The event that reports the creation of a subscription at time `now`.
pub open spec fn creation_event(id: Seq<char>, now: u64) -> StateChangeEventView {
    StateChangeEventView {
        subscription_id: id,
        old_state: SubscriptionState::Active,
        new_state: SubscriptionState::Active,
        timestamp: now,
    }
}

/// The decision on a request to create `id` at time `now`: refused where the
/// identifier is on record already, else the new record and its event.
pub open spec fn creation_decision(on_record: bool, id: Seq<char>, now: u64) -> DecisionView {
    if on_record {
        Err(SubscriptionError::AlreadyExists)
    } else {
        Ok((created(id, now), creation_event(id, now)))
    }
}

/// The decision on a request to apply `transition` at time `now` to what is
/// on record: refused where nothing is, else as the record and the operation
/// have it.
pub open spec fn transition_decision(
    on_record: Option<SubscriptionView>,
    transition: Transition,
    now: u64,
) -> DecisionView {
    match on_record {
        None => Err(SubscriptionError::NotFound),
        Some(current) => applied(current, transition, now),
    }
}

impl Subscription {
    /// Builds the record of a new subscription, `Active` since `now`, and the
    /// event that reports its creation.
    pub fn create(id: String, now: u64) -> (made: (Subscription, StateChangeEvent))
        ensures
            made.0@ == created(id@, now),
            made.1@ == creation_event(id@, now),
    {
        let event = StateChangeEvent {
            subscription_id: id.clone(),
            old_state: SubscriptionState::Active,
            new_state: SubscriptionState::Active,
            timestamp: now,
        };
        let record = Subscription {
            id,
            state: SubscriptionState::Active,
            created_at: now,
            updated_at: now,
        };
        (record, event)
    }

    /// Applies `transition` at time `now`. On success the result is the
    /// updated record, in the target state and with `updated_at` set to `now`,
    /// together with the event that reports the change. The record itself is
    /// left as it is.
    pub fn apply(&self, transition: Transition, now: u64) -> (decision: Decision)
        ensures
            decision_view(decision) == applied(self@, transition, now),
    {
        let new_state = transition.target_state();
        let valid_from_states = transition.allowed_sources();
        let old_state = self.state;
        match validate(old_state, new_state, valid_from_states) {
            Err(refusal) => Err(refusal),
            Ok(_) => {
                let next = Subscription {
                    id: self.id.clone(),
                    state: new_state,
                    created_at: self.created_at,
                    updated_at: now,
                };
                let event = StateChangeEvent {
                    subscription_id: self.id.clone(),
                    old_state,
                    new_state,
                    timestamp: now,
                };
                Ok((next, event))
            },
        }
    }
}

/// Decides on a request to create `subscription_id` at time `now`, where
/// `on_record` tells whether the identifier has a record already. Then the
/// request is refused with `AlreadyExists`; else the decision holds the new
/// record, to be stored, and the event that reports it.
pub fn decide_creation(on_record: bool, subscription_id: String, now: u64) -> (decision: Decision)
    ensures
        decision_view(decision) == creation_decision(on_record, subscription_id@, now),
{
    if on_record {
        return Err(SubscriptionError::AlreadyExists);
    }
    Ok(Subscription::create(subscription_id, now))
}

/// Decides on a request to apply `transition` at time `now`, where
/// `on_record` is the record of the identifier, if it has one. Without a
/// record the request is refused with `NotFound`; else the record and the
/// operation decide, and on success the decision holds the updated record,
/// to be stored in place of the old one, and the event that reports the
/// change.
pub fn decide_transition(on_record: Option<Subscription>, transition: Transition, now: u64) -> (decision:
    Decision)
    ensures
        decision_view(decision) == transition_decision(on_record_view(on_record), transition, now),
{
    match on_record {
        None => Err(SubscriptionError::NotFound),
        Some(subscription) => subscription.apply(transition, now),
    }
}

} // verus!
