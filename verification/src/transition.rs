//! The named operations, each with its target state and its fixed list of
//! states it may start from, and the judgement of a request against them.

use vstd::prelude::*;
use crate::error::SubscriptionError;
use crate::state::SubscriptionState;

verus! {

/// The operations that can be requested on an existing subscription. No other
/// change of state can be asked for.
#[derive(Clone, Copy, Debug, PartialEq, Eq, Structural)]
pub enum Transition {
    /// `Active -> PendingRenewal`: a renewal starts.
    ToPendingRenewal,
    /// `Active | PendingRenewal -> Paused`.
    ToPaused,
    /// `PendingRenewal -> Failed`.
    ToFailed,
    /// Any state but `Canceled` itself `-> Canceled`.
    ToCanceled,
    /// `Paused -> Active`.
    ResumeFromPaused,
    /// `Failed -> PendingRenewal`: the renewal is tried again.
    RetryFromFailed,
    /// `PendingRenewal -> Active`: the renewal succeeded.
    CompleteRenewal,
}

impl Transition {
    /// The state that the operation leads to.
    pub open spec fn target(self) -> SubscriptionState {
        match self {
            Transition::ToPendingRenewal => SubscriptionState::PendingRenewal,
            Transition::ToPaused => SubscriptionState::Paused,
            Transition::ToFailed => SubscriptionState::Failed,
            Transition::ToCanceled => SubscriptionState::Canceled,
            Transition::ResumeFromPaused => SubscriptionState::Active,
            Transition::RetryFromFailed => SubscriptionState::PendingRenewal,
            Transition::CompleteRenewal => SubscriptionState::Active,
        }
    }

    /// The states that the operation may start from.
    pub open spec fn sources(self) -> Seq<SubscriptionState> {
        match self {
            Transition::ToPendingRenewal => seq![SubscriptionState::Active],
            Transition::ToPaused => seq![
                SubscriptionState::Active,
                SubscriptionState::PendingRenewal,
            ],
            Transition::ToFailed => seq![SubscriptionState::PendingRenewal],
            Transition::ToCanceled => seq![
                SubscriptionState::Active,
                SubscriptionState::PendingRenewal,
                SubscriptionState::Paused,
                SubscriptionState::Failed,
            ],
            Transition::ResumeFromPaused => seq![SubscriptionState::Paused],
            Transition::RetryFromFailed => seq![SubscriptionState::Failed],
            Transition::CompleteRenewal => seq![SubscriptionState::PendingRenewal],
        }
    }

    /// Whether the operation may start from `from`.
    pub open spec fn permits(self, from: SubscriptionState) -> bool {
        self.sources().contains(from)
    }

    /// The state that the operation leads to.
    pub fn target_state(self) -> (target: SubscriptionState)
        ensures
            target == self.target(),
    {
        match self {
            Transition::ToPendingRenewal => SubscriptionState::PendingRenewal,
            Transition::ToPaused => SubscriptionState::Paused,
            Transition::ToFailed => SubscriptionState::Failed,
            Transition::ToCanceled => SubscriptionState::Canceled,
            Transition::ResumeFromPaused => SubscriptionState::Active,
            Transition::RetryFromFailed => SubscriptionState::PendingRenewal,
            Transition::CompleteRenewal => SubscriptionState::Active,
        }
    }

    /// The states that the operation may start from, in the order of the
    /// lifecycle.
    pub fn allowed_sources(self) -> (list: &'static [SubscriptionState])
        ensures
            list@ == self.sources(),
    {
        match self {
            Transition::ToPendingRenewal => &[SubscriptionState::Active],
            Transition::ToPaused => &[SubscriptionState::Active, SubscriptionState::PendingRenewal],
            Transition::ToFailed => &[SubscriptionState::PendingRenewal],
            Transition::ToCanceled => &[
                SubscriptionState::Active,
                SubscriptionState::PendingRenewal,
                SubscriptionState::Paused,
                SubscriptionState::Failed,
            ],
            Transition::ResumeFromPaused => &[SubscriptionState::Paused],
            Transition::RetryFromFailed => &[SubscriptionState::Failed],
            Transition::CompleteRenewal => &[SubscriptionState::PendingRenewal],
        }
    }
}

/// The verdict on a request to move from `current` to `target`, where
/// `allowed` lists the states the request may start from: the first of the
/// three refusals that applies, or `Ok`.
pub open spec fn verdict(
    current: SubscriptionState,
    target: SubscriptionState,
    allowed: Seq<SubscriptionState>,
) -> Result<(), SubscriptionError> {
    if current.is_terminal() {
        Err(SubscriptionError::TerminalState)
    } else if current == target {
        Err(SubscriptionError::NoOpTransition)
    } else if !allowed.contains(current) {
        Err(SubscriptionError::IllegalTransition)
    } else {
        Ok(())
    }
}

/// Tells whether `state` occurs in `list`.
pub fn listed(list: &[SubscriptionState], state: SubscriptionState) -> (found: bool)
    ensures
        found == list@.contains(state),
{
    let mut i: usize = 0;
    while i < list.len()
        invariant
            i <= list.len(),
            forall|j: int| 0 <= j < i ==> list@[j] != state,
        decreases list.len() - i,
    {
        if list[i] == state {
            return true;
        }
        i += 1;
    }
    false
}

/// Judges a request to move from `current` to `target` against the list of
/// states it may start from. A canceled record refuses everything; a request
/// for the state the record is in is refused next; then the list decides.
pub fn validate(
    current: SubscriptionState,
    target: SubscriptionState,
    valid_from_states: &[SubscriptionState],
) -> (checked: Result<(), SubscriptionError>)
    ensures
        checked == verdict(current, target, valid_from_states@),
{
    if current.terminal() {
        return Err(SubscriptionError::TerminalState);
    }
    if current == target {
        return Err(SubscriptionError::NoOpTransition);
    }
    if !listed(valid_from_states, current) {
        return Err(SubscriptionError::IllegalTransition);
    }
    Ok(())
}

} // verus!
