//! The ways in which a request can be refused.

use vstd::prelude::*;

verus! {

/// Why a request was refused. A refused request changes nothing.
#[derive(Clone, Copy, Debug, PartialEq, Eq, Structural)]
pub enum SubscriptionError {
    /// Creation was requested for an identifier that already has a record.
    AlreadyExists,
    /// A transition was requested for an identifier that has no record.
    NotFound,
    /// A transition was requested for a record that is already `Canceled`.
    TerminalState,
    /// The requested target state is the record's current state.
    NoOpTransition,
    /// The requested operation may not start from the record's current state.
    IllegalTransition,
}

impl SubscriptionError {
    /// The text that describes each kind of refusal.
    pub open spec fn description(self) -> Seq<char> {
        match self {
            SubscriptionError::AlreadyExists => "Subscription already exists"@,
            SubscriptionError::NotFound => "Subscription not found"@,
            SubscriptionError::TerminalState => "Cannot transition from CANCELED state"@,
            SubscriptionError::NoOpTransition => "Already in target state"@,
            SubscriptionError::IllegalTransition => "Invalid state transition"@,
        }
    }

    /// A short human-readable description of the refusal.
    pub fn message(self) -> (text: &'static str)
        ensures
            text@ == self.description(),
    {
        match self {
            SubscriptionError::AlreadyExists => "Subscription already exists",
            SubscriptionError::NotFound => "Subscription not found",
            SubscriptionError::TerminalState => "Cannot transition from CANCELED state",
            SubscriptionError::NoOpTransition => "Already in target state",
            SubscriptionError::IllegalTransition => "Invalid state transition",
        }
    }
}

} // verus!
