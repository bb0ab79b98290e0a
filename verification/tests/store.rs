//! The keyed store on its own.

use subscription_state_machine::{Subscription, SubscriptionError, SubscriptionState, SubscriptionStore};

fn record(id: &str, state: SubscriptionState, created_at: u64, updated_at: u64) -> Subscription {
    Subscription { id: String::from(id), state, created_at, updated_at }
}

#[test]
fn a_new_store_holds_nothing() {
    let store = SubscriptionStore::new();
    assert!(!store.has(&String::from("sub_001")));
    assert_eq!(store.get(&String::from("sub_001")), None);
    assert!(!store.has(&String::new()));
}

#[test]
fn create_stores_a_record_under_its_identifier() {
    let mut store = SubscriptionStore::new();
    assert_eq!(store.create(record("sub_001", SubscriptionState::Active, 1, 1)), Ok(()));

    assert!(store.has(&String::from("sub_001")));
    assert_eq!(
        store.get(&String::from("sub_001")),
        Some(record("sub_001", SubscriptionState::Active, 1, 1))
    );
    assert!(!store.has(&String::from("sub_002")));
    assert_eq!(store.get(&String::from("sub_002")), None);
}

#[test]
fn create_never_overwrites() {
    let mut store = SubscriptionStore::new();
    store.create(record("sub_001", SubscriptionState::Active, 1, 1)).unwrap();

    assert_eq!(
        store.create(record("sub_001", SubscriptionState::Paused, 5, 6)),
        Err(SubscriptionError::AlreadyExists)
    );
    assert_eq!(
        store.get(&String::from("sub_001")),
        Some(record("sub_001", SubscriptionState::Active, 1, 1))
    );
}

#[test]
fn put_overwrites_the_record_of_its_identifier_only() {
    let mut store = SubscriptionStore::new();
    store.create(record("sub_001", SubscriptionState::Active, 1, 1)).unwrap();
    store.create(record("sub_002", SubscriptionState::Active, 2, 2)).unwrap();
    store.create(record("sub_003", SubscriptionState::Active, 3, 3)).unwrap();

    store.put(record("sub_002", SubscriptionState::Paused, 2, 9));

    assert_eq!(
        store.get(&String::from("sub_001")),
        Some(record("sub_001", SubscriptionState::Active, 1, 1))
    );
    assert_eq!(
        store.get(&String::from("sub_002")),
        Some(record("sub_002", SubscriptionState::Paused, 2, 9))
    );
    assert_eq!(
        store.get(&String::from("sub_003")),
        Some(record("sub_003", SubscriptionState::Active, 3, 3))
    );
}

#[test]
fn put_stores_a_record_that_was_not_there() {
    let mut store = SubscriptionStore::new();
    store.put(record("sub_007", SubscriptionState::Failed, 4, 8));
    assert!(store.has(&String::from("sub_007")));
    assert_eq!(
        store.get(&String::from("sub_007")),
        Some(record("sub_007", SubscriptionState::Failed, 4, 8))
    );
    // And a creation under that identifier is refused from then on.
    assert_eq!(
        store.create(record("sub_007", SubscriptionState::Active, 9, 9)),
        Err(SubscriptionError::AlreadyExists)
    );
}

#[test]
fn get_changes_nothing() {
    let mut store = SubscriptionStore::new();
    store.create(record("sub_001", SubscriptionState::Active, 1, 1)).unwrap();
    let first = store.get(&String::from("sub_001"));
    let second = store.get(&String::from("sub_001"));
    assert_eq!(first, second);
}

#[test]
fn identifiers_are_told_apart_exactly() {
    let mut store = SubscriptionStore::new();
    store.create(record("", SubscriptionState::Active, 1, 1)).unwrap();
    store.create(record("sub", SubscriptionState::Paused, 2, 2)).unwrap();
    store.create(record("SUB", SubscriptionState::Failed, 3, 3)).unwrap();
    store.create(record("sub ", SubscriptionState::Canceled, 4, 4)).unwrap();

    assert_eq!(store.get(&String::new()).unwrap().state, SubscriptionState::Active);
    assert_eq!(store.get(&String::from("sub")).unwrap().state, SubscriptionState::Paused);
    assert_eq!(store.get(&String::from("SUB")).unwrap().state, SubscriptionState::Failed);
    assert_eq!(store.get(&String::from("sub ")).unwrap().state, SubscriptionState::Canceled);
    assert_eq!(store.get(&String::from("su")), None);
}
