//! The operations, their targets and allow-lists, and the verdict on every
//! pair of state and operation.

use subscription_state_machine::transition::{listed, validate};
use subscription_state_machine::SubscriptionError::{
    IllegalTransition, NoOpTransition, TerminalState,
};
use subscription_state_machine::SubscriptionState::{
    Active, Canceled, Failed, Paused, PendingRenewal,
};
use subscription_state_machine::{Subscription, SubscriptionError, SubscriptionState, Transition};

const STATES: [SubscriptionState; 5] = [
    SubscriptionState::Active,
    SubscriptionState::PendingRenewal,
    SubscriptionState::Paused,
    SubscriptionState::Failed,
    SubscriptionState::Canceled,
];

const OPERATIONS: [Transition; 7] = [
    Transition::ToPendingRenewal,
    Transition::ToPaused,
    Transition::ToFailed,
    Transition::ToCanceled,
    Transition::ResumeFromPaused,
    Transition::RetryFromFailed,
    Transition::CompleteRenewal,
];

fn record_in(state: SubscriptionState) -> Subscription {
    Subscription { id: String::from("sub_001"), state, created_at: 10, updated_at: 20 }
}

#[test]
fn each_operation_leads_to_its_target() {
    assert_eq!(Transition::ToPendingRenewal.target_state(), SubscriptionState::PendingRenewal);
    assert_eq!(Transition::ToPaused.target_state(), SubscriptionState::Paused);
    assert_eq!(Transition::ToFailed.target_state(), SubscriptionState::Failed);
    assert_eq!(Transition::ToCanceled.target_state(), SubscriptionState::Canceled);
    assert_eq!(Transition::ResumeFromPaused.target_state(), SubscriptionState::Active);
    assert_eq!(Transition::RetryFromFailed.target_state(), SubscriptionState::PendingRenewal);
    assert_eq!(Transition::CompleteRenewal.target_state(), SubscriptionState::Active);
}

#[test]
fn each_operation_has_its_allow_list() {
    assert_eq!(Transition::ToPendingRenewal.allowed_sources(), vec![SubscriptionState::Active]);
    assert_eq!(
        Transition::ToPaused.allowed_sources(),
        vec![SubscriptionState::Active, SubscriptionState::PendingRenewal]
    );
    assert_eq!(Transition::ToFailed.allowed_sources(), vec![SubscriptionState::PendingRenewal]);
    assert_eq!(
        Transition::ToCanceled.allowed_sources(),
        vec![
            SubscriptionState::Active,
            SubscriptionState::PendingRenewal,
            SubscriptionState::Paused,
            SubscriptionState::Failed,
        ]
    );
    assert_eq!(Transition::ResumeFromPaused.allowed_sources(), vec![SubscriptionState::Paused]);
    assert_eq!(Transition::RetryFromFailed.allowed_sources(), vec![SubscriptionState::Failed]);
    assert_eq!(
        Transition::CompleteRenewal.allowed_sources(),
        vec![SubscriptionState::PendingRenewal]
    );
}

#[test]
fn only_canceled_is_terminal() {
    assert!(!SubscriptionState::Active.terminal());
    assert!(!SubscriptionState::PendingRenewal.terminal());
    assert!(!SubscriptionState::Paused.terminal());
    assert!(!SubscriptionState::Failed.terminal());
    assert!(SubscriptionState::Canceled.terminal());
}

#[test]
fn listed_tells_members_from_others() {
    let list = vec![SubscriptionState::Active, SubscriptionState::PendingRenewal];
    assert!(listed(&list, SubscriptionState::Active));
    assert!(listed(&list, SubscriptionState::PendingRenewal));
    assert!(!listed(&list, SubscriptionState::Paused));
    assert!(!listed(&list, SubscriptionState::Failed));
    assert!(!listed(&list, SubscriptionState::Canceled));
    assert!(!listed(&Vec::new(), SubscriptionState::Active));
}

#[test]
fn validate_accepts_a_listed_state() {
    let list = vec![SubscriptionState::Active, SubscriptionState::PendingRenewal];
    assert_eq!(validate(SubscriptionState::Active, SubscriptionState::Paused, &list), Ok(()));
    assert_eq!(
        validate(SubscriptionState::PendingRenewal, SubscriptionState::Paused, &list),
        Ok(())
    );
}

#[test]
fn validate_refuses_an_unlisted_state() {
    let list = vec![SubscriptionState::PendingRenewal];
    assert_eq!(
        validate(SubscriptionState::Active, SubscriptionState::Failed, &list),
        Err(SubscriptionError::IllegalTransition)
    );
    assert_eq!(
        validate(SubscriptionState::Active, SubscriptionState::Failed, &Vec::new()),
        Err(SubscriptionError::IllegalTransition)
    );
}

#[test]
fn validate_refuses_the_same_state_even_where_listed() {
    let list = vec![SubscriptionState::Active, SubscriptionState::Paused];
    assert_eq!(
        validate(SubscriptionState::Paused, SubscriptionState::Paused, &list),
        Err(SubscriptionError::NoOpTransition)
    );
    assert_eq!(
        validate(SubscriptionState::Failed, SubscriptionState::Failed, &list),
        Err(SubscriptionError::NoOpTransition)
    );
}

#[test]
fn validate_refuses_canceled_before_anything_else() {
    let every = vec![
        SubscriptionState::Active,
        SubscriptionState::PendingRenewal,
        SubscriptionState::Paused,
        SubscriptionState::Failed,
        SubscriptionState::Canceled,
    ];
    for target in STATES {
        assert_eq!(
            validate(SubscriptionState::Canceled, target, &every),
            Err(SubscriptionError::TerminalState)
        );
    }
}

/// The verdict that the table gives on `operation` requested in `state`.
fn expected(
    state: SubscriptionState,
    operation: Transition,
) -> Result<SubscriptionState, SubscriptionError> {
    match (state, operation) {
        (Canceled, _) => Err(TerminalState),

        (Active, Transition::ToPendingRenewal) => Ok(PendingRenewal),
        (Active, Transition::ToPaused) => Ok(Paused),
        (Active, Transition::ToFailed) => Err(IllegalTransition),
        (Active, Transition::ToCanceled) => Ok(Canceled),
        (Active, Transition::ResumeFromPaused) => Err(NoOpTransition),
        (Active, Transition::RetryFromFailed) => Err(IllegalTransition),
        (Active, Transition::CompleteRenewal) => Err(NoOpTransition),

        (PendingRenewal, Transition::ToPendingRenewal) => Err(NoOpTransition),
        (PendingRenewal, Transition::ToPaused) => Ok(Paused),
        (PendingRenewal, Transition::ToFailed) => Ok(Failed),
        (PendingRenewal, Transition::ToCanceled) => Ok(Canceled),
        (PendingRenewal, Transition::ResumeFromPaused) => Err(IllegalTransition),
        (PendingRenewal, Transition::RetryFromFailed) => Err(NoOpTransition),
        (PendingRenewal, Transition::CompleteRenewal) => Ok(Active),

        (Paused, Transition::ToPendingRenewal) => Err(IllegalTransition),
        (Paused, Transition::ToPaused) => Err(NoOpTransition),
        (Paused, Transition::ToFailed) => Err(IllegalTransition),
        (Paused, Transition::ToCanceled) => Ok(Canceled),
        (Paused, Transition::ResumeFromPaused) => Ok(Active),
        (Paused, Transition::RetryFromFailed) => Err(IllegalTransition),
        (Paused, Transition::CompleteRenewal) => Err(IllegalTransition),

        (Failed, Transition::ToPendingRenewal) => Err(IllegalTransition),
        (Failed, Transition::ToPaused) => Err(IllegalTransition),
        (Failed, Transition::ToFailed) => Err(NoOpTransition),
        (Failed, Transition::ToCanceled) => Ok(Canceled),
        (Failed, Transition::ResumeFromPaused) => Err(IllegalTransition),
        (Failed, Transition::RetryFromFailed) => Ok(PendingRenewal),
        (Failed, Transition::CompleteRenewal) => Err(IllegalTransition),
    }
}

#[test]
fn apply_gives_the_tables_verdict_on_every_pair() {
    for state in STATES {
        for operation in OPERATIONS {
            let outcome = record_in(state).apply(operation, 30).map(|(next, _)| next.state);
            assert_eq!(outcome, expected(state, operation), "{state:?} under {operation:?}");
        }
    }
}

#[test]
fn the_accepted_pairs_are_the_eleven_edges_of_the_table() {
    let mut edges = Vec::new();
    for state in STATES {
        for operation in OPERATIONS {
            if let Ok((next, _)) = record_in(state).apply(operation, 30) {
                edges.push((state, next.state));
            }
        }
    }
    assert_eq!(
        edges,
        vec![
            (Active, PendingRenewal),
            (Active, Paused),
            (Active, Canceled),
            (PendingRenewal, Paused),
            (PendingRenewal, Failed),
            (PendingRenewal, Canceled),
            (PendingRenewal, Active),
            (Paused, Canceled),
            (Paused, Active),
            (Failed, Canceled),
            (Failed, PendingRenewal),
        ]
    );
}

#[test]
fn apply_sets_state_and_time_of_update_and_keeps_the_rest() {
    let record = record_in(SubscriptionState::PendingRenewal);
    let (next, event) = record.apply(Transition::ToFailed, 35).unwrap();

    assert_eq!(
        next,
        Subscription {
            id: String::from("sub_001"),
            state: SubscriptionState::Failed,
            created_at: 10,
            updated_at: 35,
        }
    );
    assert_eq!(event.subscription_id, "sub_001");
    assert_eq!(event.old_state, SubscriptionState::PendingRenewal);
    assert_eq!(event.new_state, SubscriptionState::Failed);
    assert_eq!(event.timestamp, 35);

    // The record that was applied to is as it was.
    assert_eq!(record, record_in(SubscriptionState::PendingRenewal));
}

#[test]
fn apply_takes_the_time_as_given_even_where_it_is_earlier() {
    let record = record_in(SubscriptionState::Active);
    let (next, event) = record.apply(Transition::ToPaused, 5).unwrap();
    assert_eq!(next.created_at, 10);
    assert_eq!(next.updated_at, 5);
    assert_eq!(event.timestamp, 5);
}

#[test]
fn create_makes_an_active_record_and_its_event() {
    let (record, event) = Subscription::create(String::from("sub_042"), 77);
    assert_eq!(
        record,
        Subscription {
            id: String::from("sub_042"),
            state: SubscriptionState::Active,
            created_at: 77,
            updated_at: 77,
        }
    );
    assert_eq!(event.subscription_id, "sub_042");
    assert_eq!(event.old_state, SubscriptionState::Active);
    assert_eq!(event.new_state, SubscriptionState::Active);
    assert_eq!(event.timestamp, 77);
}

#[test]
fn clones_are_equal_to_what_they_were_made_of() {
    let (record, event) = Subscription::create(String::from("sub_042"), u64::MAX);
    assert_eq!(record.clone(), record);
    assert_eq!(event.clone(), event);
}

#[test]
fn each_refusal_has_its_message() {
    assert_eq!(SubscriptionError::AlreadyExists.message(), "Subscription already exists");
    assert_eq!(SubscriptionError::NotFound.message(), "Subscription not found");
    assert_eq!(SubscriptionError::TerminalState.message(), "Cannot transition from CANCELED state");
    assert_eq!(SubscriptionError::NoOpTransition.message(), "Already in target state");
    assert_eq!(SubscriptionError::IllegalTransition.message(), "Invalid state transition");
}
