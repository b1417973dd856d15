//! What holds of the polling loop over whole runs.
//!
//! A run is the sequence of events a loop was given since it started. The
//! lemmas here speak of the state such a run ends in, whatever the events
//! were and whether or not the loop waited for each of them.

use vstd::prelude::*;
use crate::config::ConfigView;
use crate::poller::{ActionView, EventView, PhaseView, PollerState, POLL_INTERVAL_SECS};
use crate::request::update_request;
use crate::response::FailureView;

verus! {

/// The state a loop that started in `state` is in after `events`, in order.
pub open spec fn run(state: PollerState, events: Seq<EventView>) -> PollerState
    decreases events.len(),
{
    if events.len() == 0 {
        state
    } else {
        run(state, events.drop_last()).after(events.last())
    }
}

/// The state a loop started with `config` is in after `history`.
pub open spec fn reached(config: ConfigView, history: Seq<EventView>) -> PollerState {
    run(PollerState::initial(config), history)
}

/// A loop holds on to an address only while that address differs from the
/// last known one.
pub open spec fn consistent(state: PollerState) -> bool {
    state.phase matches PhaseView::Comparing(address) ==> address != state.last_ip
}

/// Whether the event at `index` of `history` is the provider's confirmation
/// of an update that the loop was waiting on.
pub open spec fn confirmed_at(config: ConfigView, history: Seq<EventView>, index: int) -> bool {
    &&& 0 <= index < history.len()
    &&& reached(config, history.take(index)).phase is Comparing
    &&& history[index] matches EventView::UpdateAnswered(response)
    &&& response.success
}

/// The address whose update the event at `index` of `history` answers.
pub open spec fn address_at(config: ConfigView, history: Seq<EventView>, index: int) -> Seq<char> {
    reached(config, history.take(index)).phase->Comparing_0
}

/// Every state a loop can reach is consistent and still has the settings it
/// was started with.
pub proof fn lemma_reached_is_consistent(config: ConfigView, history: Seq<EventView>)
    ensures
        consistent(reached(config, history)),
        reached(config, history).config == config,
    decreases history.len(),
{
    if history.len() > 0 {
        lemma_reached_is_consistent(config, history.drop_last());
    }
}

/// An update is sent if and only if the resolved address differs from the
/// last known one.
///
/// After any history, the answer to an event is an update exactly when the
/// loop is idle, the event is a resolved address, and that address is not
/// the last known one. The request is then the one for that address under
/// the settings the loop was started with, and in every other case the loop
/// waited for, the answer is the sleep that ends the tick.
pub proof fn lemma_update_iff_address_differs(
    config: ConfigView,
    history: Seq<EventView>,
    event: EventView,
)
    ensures
        ({
            let state = reached(config, history);
            let answer = state.answer(event);
            &&& (answer is Some && answer->Some_0.action is Update) <==> state.issues_update(event)
            &&& state.issues_update(event) ==> answer->Some_0.action == ActionView::Update(
                update_request(config, event->Resolved_0),
            )
            &&& state.accepts(event) && !state.issues_update(event) ==> answer->Some_0.action
                == ActionView::Sleep(POLL_INTERVAL_SECS)
            &&& state.phase is Idle && event is Resolved ==> (state.issues_update(event) <==> event->Resolved_0
                != state.last_ip)
        }),
{
    lemma_reached_is_consistent(config, history);
}

/// The first address a loop learns of is always pushed, unless it is empty:
/// a loop starts with no address known.
pub proof fn lemma_first_address_is_pushed(config: ConfigView, address: Seq<char>)
    requires
        address.len() > 0,
    ensures
        PollerState::initial(config).issues_update(EventView::Resolved(address)),
{
}

/// A failure to resolve the address sends no update and changes nothing.
pub proof fn lemma_resolve_failure_changes_nothing(state: PollerState, failure: FailureView)
    ensures
        state.after(EventView::ResolveFailed(failure)) == state,
        !state.issues_update(EventView::ResolveFailed(failure)),
        state.answer(EventView::ResolveFailed(failure)) matches Some(step) ==> step.action
            == ActionView::Sleep(POLL_INTERVAL_SECS),
{
}

/// An event the loop does not wait for has no answer and changes nothing,
/// and every other event has an answer.
pub proof fn lemma_unexpected_event_is_ignored(state: PollerState, event: EventView)
    ensures
        state.answer(event) is Some <==> state.accepts(event),
        !state.accepts(event) ==> state.after(event) == state,
{
}

/// The last known address moves only when the provider confirms an update,
/// and then to the address of that update.
pub proof fn lemma_last_known_moves_on_confirmation_only(state: PollerState, event: EventView)
    requires
        state.after(event).last_ip != state.last_ip,
    ensures
        state.phase is Comparing,
        event is UpdateAnswered,
        event->UpdateAnswered_0.success,
        state.after(event).last_ip == state.phase->Comparing_0,
{
}

/// A tick ends with the loop idle: the answer to an event the loop waited
/// for is a sleep exactly when the loop is idle afterwards, and an update
/// exactly when it then holds on to the address of that update.
pub proof fn lemma_sleeps_when_idle_again(state: PollerState, event: EventView)
    requires
        state.accepts(event),
    ensures
        state.answer(event)->Some_0.action is Sleep <==> state.after(event).phase is Idle,
        state.answer(event)->Some_0.action is Update <==> state.after(event).phase
            == PhaseView::Comparing(event->Resolved_0),
        state.phase is Comparing ==> state.after(event).phase is Idle,
{
}

/// An update that was not confirmed is tried again: when the call fails or
/// the provider refuses, the last known address stays as it was, and the
/// same address, resolved again, makes the loop send the update again.
pub proof fn lemma_unconfirmed_update_is_retried(
    config: ConfigView,
    history: Seq<EventView>,
    outcome: EventView,
)
    requires
        reached(config, history).phase is Comparing,
        outcome is UpdateFailed || (outcome is UpdateAnswered
            && !outcome->UpdateAnswered_0.success),
    ensures
        ({
            let before = reached(config, history);
            let after = before.after(outcome);
            &&& after.last_ip == before.last_ip
            &&& after.phase is Idle
            &&& after.issues_update(EventView::Resolved(before.phase->Comparing_0))
        }),
{
    lemma_reached_is_consistent(config, history);
}

/// Whether an event is a confirmation, and of which address, depends only
/// on the events before it: dropping the last event of a history changes
/// neither for any earlier event.
proof fn lemma_earlier_events_agree(config: ConfigView, history: Seq<EventView>, index: int)
    requires
        0 <= index < history.len() - 1,
    ensures
        confirmed_at(config, history.drop_last(), index) == confirmed_at(config, history, index),
        address_at(config, history.drop_last(), index) == address_at(config, history, index),
{
    assert(history.drop_last().take(index) =~= history.take(index));
}

/// Until the provider confirms an update, no address is known.
pub proof fn lemma_last_known_empty_until_confirmed(config: ConfigView, history: Seq<EventView>)
    requires
        forall|i: int| 0 <= i < history.len() ==> !confirmed_at(config, history, i),
    ensures
        reached(config, history).last_ip == Seq::<char>::empty(),
    decreases history.len(),
{
    if history.len() > 0 {
        let earlier = history.drop_last();
        let last = history.len() - 1;
        assert forall|i: int| 0 <= i < earlier.len() implies !confirmed_at(
            config,
            earlier,
            i,
        ) by {
            lemma_earlier_events_agree(config, history, i);
        }
        lemma_last_known_empty_until_confirmed(config, earlier);
        assert(history.take(last) =~= earlier);
        assert(!confirmed_at(config, history, last));
    }
}

/// The last known address is the address last pushed with success: where
/// the event at `index` is the latest confirmation in `history`, it is the
/// address of the update that this event confirms.
pub proof fn lemma_last_known_is_latest_confirmed(
    config: ConfigView,
    history: Seq<EventView>,
    index: int,
)
    requires
        confirmed_at(config, history, index),
        forall|j: int| index < j < history.len() ==> !confirmed_at(config, history, j),
    ensures
        reached(config, history).last_ip == address_at(config, history, index),
    decreases history.len(),
{
    let earlier = history.drop_last();
    let last = history.len() - 1;
    assert(history.take(last) =~= earlier);
    if index < last {
        assert(!confirmed_at(config, history, last));
        lemma_earlier_events_agree(config, history, index);
        assert forall|j: int| index < j < earlier.len() implies !confirmed_at(
            config,
            earlier,
            j,
        ) by {
            lemma_earlier_events_agree(config, history, j);
        }
        lemma_last_known_is_latest_confirmed(config, earlier, index);
    }
}

} // verus!
