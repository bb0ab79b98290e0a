//! The engine as mathematics: what is on record, what has been announced, and
//! what each request makes of both.

use vstd::prelude::*;
use crate::decision::{creation_decision, transition_decision};
use crate::error::SubscriptionError;
use crate::store::keyed_by_id;
use crate::subscription::{DecisionView, StateChangeEvent, StateChangeEventView, SubscriptionView};
use crate::transition::Transition;

verus! {

/// The views of a sequence of events, in the same order.
pub open spec fn event_views(events: Seq<StateChangeEvent>) -> Seq<StateChangeEventView> {
    Seq::new(events.len(), |i: int| events[i]@)
}

/// All that the engine keeps: the records by identifier and the events
/// announced so far, oldest first.
pub struct Ledger {
    pub records: Map<Seq<char>, SubscriptionView>,
    pub events: Seq<StateChangeEventView>,
}

/// What can be asked of the engine about one identifier.
pub enum Request {
    Create,
    Apply(Transition),
}

/// One request, with the identifier it is about and the time at which it is
/// made.
pub struct Call {
    pub id: Seq<char>,
    pub request: Request,
    pub now: u64,
}

impl Ledger {
    /// Nothing on record, nothing announced.
    pub open spec fn empty() -> Ledger {
        Ledger { records: Map::empty(), events: Seq::empty() }
    }

    /// Every record stands under its own identifier.
    pub open spec fn well_formed(self) -> bool {
        keyed_by_id(self.records)
    }

    /// The record of `id`, if there is one.
    pub open spec fn lookup(self, id: Seq<char>) -> Option<SubscriptionView> {
        if self.records.contains_key(id) {
            Some(self.records[id])
        } else {
            None
        }
    }

    /// The ledger after a decision about `id` is carried out, and the answer
    /// to the request. A refusal changes nothing; else the record is stored
    /// under `id` and the event joins the others.
    pub open spec fn carry_out(self, id: Seq<char>, decision: DecisionView) -> (
        Ledger,
        Result<SubscriptionView, SubscriptionError>,
    ) {
        match decision {
            Err(refusal) => (self, Err(refusal)),
            Ok((record, event)) => (
                Ledger { records: self.records.insert(id, record), events: self.events.push(event) },
                Ok(record),
            ),
        }
    }

    /// A request to create `id` at time `now`: the ledger afterwards and the
    /// answer.
    pub open spec fn create(self, id: Seq<char>, now: u64) -> (
        Ledger,
        Result<SubscriptionView, SubscriptionError>,
    ) {
        self.carry_out(id, creation_decision(self.records.contains_key(id), id, now))
    }

    /// A request to apply `transition` to `id` at time `now`: the ledger
    /// afterwards and the answer.
    pub open spec fn transition(self, id: Seq<char>, transition: Transition, now: u64) -> (
        Ledger,
        Result<SubscriptionView, SubscriptionError>,
    ) {
        self.carry_out(id, transition_decision(self.lookup(id), transition, now))
    }

    /// The ledger after `call` and the answer to it.
    pub open spec fn answer(self, call: Call) -> (
        Ledger,
        Result<SubscriptionView, SubscriptionError>,
    ) {
        match call.request {
            Request::Create => self.create(call.id, call.now),
            Request::Apply(transition) => self.transition(call.id, transition, call.now),
        }
    }

    /// The ledger after `calls`, made one after the other.
    pub open spec fn after(self, calls: Seq<Call>) -> Ledger
        decreases calls.len(),
    {
        if calls.len() == 0 {
            self
        } else {
            self.after(calls.drop_last()).answer(calls.last()).0
        }
    }

    /// The record that the latest accepted call about `id` among `calls`
    /// handed back, if any call about `id` was accepted.
    pub open spec fn latest_accepted(self, calls: Seq<Call>, id: Seq<char>) -> Option<
        SubscriptionView,
    >
        decreases calls.len(),
    {
        if calls.len() == 0 {
            None
        } else {
            match self.after(calls.drop_last()).answer(calls.last()).1 {
                Ok(record) if calls.last().id == id => Some(record),
                _ => self.latest_accepted(calls.drop_last(), id),
            }
        }
    }
}

} // verus!
