//! The lifecycle states and the table of legal edges between them.

use vstd::prelude::*;

verus! {

/// The lifecycle state of a subscription. `Canceled` is terminal.
#[derive(Clone, Copy, Debug, PartialEq, Eq, Structural)]
pub enum SubscriptionState {
    Active,
    PendingRenewal,
    Paused,
    Failed,
    Canceled,
}

/// The legality table: `true` exactly for the edges `from -> to` that a
/// subscription may take.
pub open spec fn legal_edge(from: SubscriptionState, to: SubscriptionState) -> bool {
    match to {
        SubscriptionState::PendingRenewal => from is Active || from is Failed,
        SubscriptionState::Paused => from is Active || from is PendingRenewal,
        SubscriptionState::Failed => from is PendingRenewal,
        SubscriptionState::Canceled => from is Active || from is PendingRenewal || from is Paused
            || from is Failed,
        SubscriptionState::Active => from is PendingRenewal || from is Paused,
    }
}

impl SubscriptionState {
    /// A terminal state has no outgoing edge.
    pub open spec fn is_terminal(self) -> bool {
        self is Canceled
    }

    /// Tells whether no transition may ever leave this state.
    pub fn terminal(self) -> (t: bool)
        ensures
            t == self.is_terminal(),
            t == (forall|to: SubscriptionState| !legal_edge(self, to)),
    {
        proof {
            if !(self is Canceled) {
                assert(legal_edge(self, SubscriptionState::Canceled));
            }
        }
        self == SubscriptionState::Canceled
    }
}

} // verus!
