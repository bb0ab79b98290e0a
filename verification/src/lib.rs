//! A subscription lifecycle engine.
//!
//! A subscription is in one of five states, and moves between them only by
//! one of seven named operations, each of which may start from a fixed list
//! of states. `Canceled` is the end: nothing leaves it.
//!
//! - [`state`] holds the states and the table of legal edges.
//! - [`transition`] holds the operations and the judgement of a request.
//! - [`subscription`] holds the record, the event, and their views.
//! - [`decision`] turns what is on record and what is asked into what is to
//!   be stored and announced. It keeps nothing itself, so that the records
//!   may live wherever the caller keeps them.
//! - [`store`] keeps one record per identifier in memory.
//! - [`machine`] is the engine over such a store, with a log of the events.
//! - [`model`] says what the engine does, as mathematics, and
//!   [`guarantees`] proves what follows for every sequence of requests.
//!
//! The engine reads no clock: every operation takes the time as an argument.

pub mod decision;
pub mod error;
pub mod guarantees;
pub mod machine;
pub mod model;
pub mod state;
pub mod store;
pub mod subscription;
pub mod transition;

pub use decision::{decide_creation, decide_transition};
pub use error::SubscriptionError;
pub use machine::SubscriptionStateMachine;
pub use state::SubscriptionState;
pub use store::SubscriptionStore;
pub use subscription::{Decision, StateChangeEvent, Subscription};
pub use transition::Transition;
