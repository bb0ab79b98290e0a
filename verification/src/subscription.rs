//! The subscription record, the event that reports a change of state, and the
//! mathematical view of each.

use vstd::prelude::*;
use crate::error::SubscriptionError;
use crate::state::SubscriptionState;

verus! {

/// One subscription's record.
#[derive(Debug, PartialEq, Eq)]
pub struct Subscription {
    /// The caller's identifier; it never changes and is the record's key.
    pub id: String,
    pub state: SubscriptionState,
    /// The time of creation; it never changes.
    pub created_at: u64,
    /// The time of the latest accepted transition, or of creation.
    pub updated_at: u64,
}

/// What a [`Subscription`] is, as a plain mathematical value.
pub struct SubscriptionView {
    pub id: Seq<char>,
    pub state: SubscriptionState,
    pub created_at: u64,
    pub updated_at: u64,
}

impl View for Subscription {
    type V = SubscriptionView;

    open spec fn view(&self) -> SubscriptionView {
        SubscriptionView {
            id: self.id@,
            state: self.state,
            created_at: self.created_at,
            updated_at: self.updated_at,
        }
    }
}

impl Clone for Subscription {
    fn clone(&self) -> (copy: Self)
        ensures
            copy == *self,
    {
        Subscription {
            id: self.id.clone(),
            state: self.state,
            created_at: self.created_at,
            updated_at: self.updated_at,
        }
    }
}

/// The notice of one accepted change of state. Creation is reported too, with
/// `Active` as both the old and the new state.
#[derive(Debug, PartialEq, Eq)]
pub struct StateChangeEvent {
    pub subscription_id: String,
    pub old_state: SubscriptionState,
    pub new_state: SubscriptionState,
    pub timestamp: u64,
}

/// What a [`StateChangeEvent`] is, as a plain mathematical value.
pub struct StateChangeEventView {
    pub subscription_id: Seq<char>,
    pub old_state: SubscriptionState,
    pub new_state: SubscriptionState,
    pub timestamp: u64,
}

impl View for StateChangeEvent {
    type V = StateChangeEventView;

    open spec fn view(&self) -> StateChangeEventView {
        StateChangeEventView {
            subscription_id: self.subscription_id@,
            old_state: self.old_state,
            new_state: self.new_state,
            timestamp: self.timestamp,
        }
    }
}

impl Clone for StateChangeEvent {
    fn clone(&self) -> (copy: Self)
        ensures
            copy == *self,
    {
        StateChangeEvent {
            subscription_id: self.subscription_id.clone(),
            old_state: self.old_state,
            new_state: self.new_state,
            timestamp: self.timestamp,
        }
    }
}

/// What is decided on a request: the record to store and the event to
/// announce, or the refusal.
pub type Decision = Result<(Subscription, StateChangeEvent), SubscriptionError>;

/// What a [`Decision`] is, as a plain mathematical value.
pub type DecisionView = Result<(SubscriptionView, StateChangeEventView), SubscriptionError>;

/// The view of a decision: the views of record and event, or the refusal.
pub open spec fn decision_view(decision: Decision) -> DecisionView {
    match decision {
        Ok((record, event)) => Ok((record@, event@)),
        Err(refusal) => Err(refusal),
    }
}

/// The view of what is on record under an identifier: the record's view, if
/// there is a record.
pub open spec fn on_record_view(on_record: Option<Subscription>) -> Option<SubscriptionView> {
    match on_record {
        Some(record) => Some(record@),
        None => None,
    }
}

/// The view of what an operation hands back: the record's view on success,
/// the refusal otherwise.
pub open spec fn outcome_view(outcome: Result<Subscription, SubscriptionError>) -> Result<
    SubscriptionView,
    SubscriptionError,
> {
    match outcome {
        Ok(record) => Ok(record@),
        Err(refusal) => Err(refusal),
    }
}

} // verus!
