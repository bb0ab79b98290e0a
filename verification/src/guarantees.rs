//! What holds of the engine whatever is asked of it, proved over the model
//! that the operations' contracts are stated in.

use vstd::prelude::*;
use crate::decision::{applied, created};
use crate::error::SubscriptionError;
use crate::model::{Call, Ledger, Request};
use crate::state::{legal_edge, SubscriptionState};
use crate::subscription::SubscriptionView;
use crate::transition::Transition;

verus! {

/// The time of each call is at least that of the call before it.
pub open spec fn in_time_order(calls: Seq<Call>) -> bool {
    forall|i: int, j: int| 0 <= i <= j < calls.len() ==> calls[i].now <= calls[j].now
}

/// No record of the ledger was created after it was last updated, or updated
/// after `time`.
pub open spec fn settled_by(ledger: Ledger, time: u64) -> bool {
    forall|id: Seq<char>| #[trigger]
        ledger.records.contains_key(id) ==> ledger.records[id].created_at
            <= ledger.records[id].updated_at <= time
}

/// A refused call leaves the ledger as it was: no record changes and no event
/// is announced.
pub proof fn refusal_changes_nothing(ledger: Ledger, call: Call)
    ensures
        ledger.answer(call).1 is Err ==> ledger.answer(call).0 == ledger,
{
}

/// An accepted call announces itself: it appends one event to the log, with
/// the record's identifier, the state the record was in (`Active` for a
/// creation), the state it is in now, and the time of the call.
pub proof fn every_accepted_call_is_announced(ledger: Ledger, call: Call)
    ensures
        ledger.answer(call).1 matches Ok(record) ==> {
            let announced = ledger.answer(call).0.events;
            &&& announced.drop_last() == ledger.events
            &&& announced.last().subscription_id == record.id
            &&& announced.last().old_state == match call.request {
                Request::Create => SubscriptionState::Active,
                Request::Apply(_) => ledger.records[call.id].state,
            }
            &&& announced.last().new_state == record.state
            &&& announced.last().timestamp == call.now
            &&& record.updated_at == call.now
        },
{
    if ledger.answer(call).1 is Ok {
        assert(ledger.answer(call).0.events.drop_last() =~= ledger.events);
    }
}

/// The log only grows: what was announced stays announced, in its place.
pub proof fn the_log_only_grows(ledger: Ledger, calls: Seq<Call>)
    ensures
        ledger.events.is_prefix_of(ledger.after(calls).events),
    decreases calls.len(),
{
    if calls.len() > 0 {
        the_log_only_grows(ledger, calls.drop_last());
    }
}

/// Every call keeps each record under its own identifier, and the engine
/// starts out that way.
pub proof fn calls_keep_the_ledger_well_formed(ledger: Ledger, calls: Seq<Call>)
    requires
        ledger.well_formed(),
    ensures
        Ledger::empty().well_formed(),
        ledger.after(calls).well_formed(),
    decreases calls.len(),
{
    if calls.len() > 0 {
        calls_keep_the_ledger_well_formed(ledger, calls.drop_last());
    }
}

/// A record, once made, stays on record with the same identifier and the
/// same time of creation, whatever is asked afterwards.
pub proof fn records_are_never_dropped(ledger: Ledger, calls: Seq<Call>, id: Seq<char>)
    requires
        ledger.records.contains_key(id),
    ensures
        ledger.after(calls).records.contains_key(id),
        ledger.after(calls).records[id].id == ledger.records[id].id,
        ledger.after(calls).records[id].created_at == ledger.records[id].created_at,
    decreases calls.len(),
{
    if calls.len() > 0 {
        records_are_never_dropped(ledger, calls.drop_last(), id);
    }
}

/// Creation succeeds exactly when the identifier is not on record. Once it is
/// on record, every later request to create it is refused with
/// `AlreadyExists` and changes nothing, whatever was asked in between.
pub proof fn creation_succeeds_once(
    ledger: Ledger,
    id: Seq<char>,
    now: u64,
    calls: Seq<Call>,
    later: u64,
)
    ensures
        ledger.create(id, now).1 is Ok <==> !ledger.records.contains_key(id),
        !ledger.records.contains_key(id) ==> ledger.create(id, now).1 == Ok::<
            SubscriptionView,
            SubscriptionError,
        >(created(id, now)),
        ledger.records.contains_key(id) ==> ledger.create(id, now) == (
            ledger,
            Err::<SubscriptionView, SubscriptionError>(SubscriptionError::AlreadyExists),
        ),
        ledger.create(id, now).0.after(calls).create(id, later) == (
            ledger.create(id, now).0.after(calls),
            Err::<SubscriptionView, SubscriptionError>(SubscriptionError::AlreadyExists),
        ),
{
    records_are_never_dropped(ledger.create(id, now).0, calls, id);
}

/// A new record carries the time of its creation as both of its times.
pub proof fn creation_stamps_both_times(id: Seq<char>, now: u64)
    ensures
        created(id, now).created_at == now,
        created(id, now).updated_at == now,
        created(id, now).state == SubscriptionState::Active,
{
}

/// An accepted transition made no earlier than the record's last update
/// keeps the time of creation, does not move the time of update back, and
/// keeps the one no later than the other.
pub proof fn accepted_transition_keeps_time_order(
    record: SubscriptionView,
    transition: Transition,
    now: u64,
)
    requires
        record.updated_at <= now,
    ensures
        applied(record, transition, now) matches Ok((next, _)) ==> {
            &&& next.id == record.id
            &&& next.created_at == record.created_at
            &&& next.updated_at == now
            &&& record.updated_at <= next.updated_at
            &&& record.created_at <= record.updated_at ==> next.created_at <= next.updated_at
        },
{
}

/// Where the calls come in order of time, and none is earlier than any
/// update on record, every record stays created no later than updated, and
/// no record's time of update ever moves back.
pub proof fn updates_never_move_back(ledger: Ledger, calls: Seq<Call>, start: u64)
    requires
        settled_by(ledger, start),
        in_time_order(calls),
        calls.len() > 0 ==> start <= calls[0].now,
    ensures
        settled_by(
            ledger.after(calls),
            if calls.len() > 0 {
                calls.last().now
            } else {
                start
            },
        ),
        forall|id: Seq<char>| #[trigger]
            ledger.records.contains_key(id) ==> ledger.after(calls).records.contains_key(id)
                && ledger.records[id].updated_at <= ledger.after(calls).records[id].updated_at,
    decreases calls.len(),
{
    if calls.len() > 0 {
        let earlier = calls.drop_last();
        assert forall|i: int| 0 <= i < earlier.len() implies #[trigger] earlier[i] == calls[i] by {}
        assert(in_time_order(earlier));
        updates_never_move_back(ledger, earlier, start);
        // Whatever stood on record before the last call was updated no
        // later than that call is made.
        assert(settled_by(ledger.after(earlier), calls.last().now));
    }
}

/// An operation starts only from states from which the legality table holds
/// an edge to the operation's target.
pub proof fn operations_follow_the_table(transition: Transition, from: SubscriptionState)
    requires
        transition.permits(from),
    ensures
        legal_edge(from, transition.target()),
{
    let sources = transition.sources();
    let at = choose|i: int| 0 <= i < sources.len() && sources[i] == from;
    assert(legal_edge(sources[at], transition.target()));
}

/// The operations offer exactly the edges of the legality table: each edge
/// that an operation permits is in the table, and each edge of the table is
/// permitted by some operation.
pub proof fn operations_are_the_legal_edges(from: SubscriptionState, to: SubscriptionState)
    ensures
        legal_edge(from, to) <==> exists|transition: Transition|
            transition.target() == to && #[trigger] transition.permits(from),
{
    if legal_edge(from, to) {
        let offered = match to {
            SubscriptionState::PendingRenewal => if from is Active {
                Transition::ToPendingRenewal
            } else {
                Transition::RetryFromFailed
            },
            SubscriptionState::Paused => Transition::ToPaused,
            SubscriptionState::Failed => Transition::ToFailed,
            SubscriptionState::Canceled => Transition::ToCanceled,
            SubscriptionState::Active => if from is Paused {
                Transition::ResumeFromPaused
            } else {
                Transition::CompleteRenewal
            },
        };
        let sources = offered.sources();
        assert(exists|i: int| 0 <= i < sources.len() && sources[i] == from) by {
            if sources[0] == from {
            } else if sources.len() > 1 && sources[1] == from {
            } else if sources.len() > 2 && sources[2] == from {
            } else if sources.len() > 3 && sources[3] == from {
            }
        }
        assert(offered.target() == to && offered.permits(from));
    } else {
        assert forall|transition: Transition|
            transition.target() == to implies !#[trigger] transition.permits(from) by {
            if transition.permits(from) {
                operations_follow_the_table(transition, from);
            }
        }
    }
}

/// A request for the state that the record is in is refused with
/// `NoOpTransition`, unless that state is `Canceled`.
pub proof fn same_state_is_refused(ledger: Ledger, id: Seq<char>, transition: Transition, now: u64)
    requires
        ledger.records.contains_key(id),
        ledger.records[id].state == transition.target(),
        ledger.records[id].state != SubscriptionState::Canceled,
    ensures
        ledger.transition(id, transition, now) == (
            ledger,
            Err::<SubscriptionView, SubscriptionError>(SubscriptionError::NoOpTransition),
        ),
{
}

/// A canceled record refuses every request with `TerminalState`, whatever
/// its target.
pub proof fn canceled_refuses_everything(
    ledger: Ledger,
    id: Seq<char>,
    transition: Transition,
    now: u64,
)
    requires
        ledger.records.contains_key(id),
        ledger.records[id].state == SubscriptionState::Canceled,
    ensures
        ledger.transition(id, transition, now) == (
            ledger,
            Err::<SubscriptionView, SubscriptionError>(SubscriptionError::TerminalState),
        ),
{
}

/// A request for an edge that the legality table does not hold is refused
/// with `IllegalTransition`, where the record is not canceled and not in the
/// target state already: those two are refused for their own reasons first.
pub proof fn edges_outside_the_table_are_refused(
    ledger: Ledger,
    id: Seq<char>,
    transition: Transition,
    now: u64,
)
    requires
        ledger.records.contains_key(id),
        ledger.records[id].state != SubscriptionState::Canceled,
        ledger.records[id].state != transition.target(),
        !legal_edge(ledger.records[id].state, transition.target()),
    ensures
        ledger.transition(id, transition, now) == (
            ledger,
            Err::<SubscriptionView, SubscriptionError>(SubscriptionError::IllegalTransition),
        ),
{
    if transition.permits(ledger.records[id].state) {
        operations_follow_the_table(transition, ledger.records[id].state);
    }
}

/// An accepted transition follows an edge of the legality table, puts the
/// record in the target state, and is what a lookup then finds.
pub proof fn accepted_transition_follows_the_table(
    ledger: Ledger,
    id: Seq<char>,
    transition: Transition,
    now: u64,
)
    ensures
        ledger.transition(id, transition, now).1 matches Ok(next) ==> {
            &&& ledger.records.contains_key(id)
            &&& legal_edge(ledger.records[id].state, transition.target())
            &&& next.state == transition.target()
            &&& ledger.transition(id, transition, now).0.lookup(id) == Some(next)
        },
{
    if ledger.records.contains_key(id) && transition.permits(ledger.records[id].state) {
        operations_follow_the_table(transition, ledger.records[id].state);
    }
}

/// After any calls, a lookup finds the record that the latest accepted call
/// about that identifier handed back; where no call about it was accepted, it
/// finds what it found before the calls.
pub proof fn lookup_finds_the_latest_accepted(ledger: Ledger, calls: Seq<Call>, id: Seq<char>)
    ensures
        ledger.after(calls).lookup(id) == match ledger.latest_accepted(calls, id) {
            Some(record) => Some(record),
            None => ledger.lookup(id),
        },
    decreases calls.len(),
{
    if calls.len() > 0 {
        lookup_finds_the_latest_accepted(ledger, calls.drop_last(), id);
    }
}

} // verus!
