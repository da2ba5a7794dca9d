//! What holds of every session, whatever events reach it.

use vstd::prelude::*;
use vstd::utf8::encode_utf8;
use crate::bridge::teardown_steps;
use crate::bridge::ActionModel;
use crate::bridge::EventModel;
use crate::bridge::Phase;
use crate::bridge::SessionBridge;
use crate::bridge::TeardownStep;
use crate::message::code_payload;
use crate::message::lemma_binary_code_is_text_code;
use crate::message::ClientMessageModel;

verus! {

/// The session after a sequence of events.
pub open spec fn run(state: SessionBridge, events: Seq<EventModel>) -> SessionBridge
    decreases events.len(),
{
    if events.len() == 0 {
        state
    } else {
        run(state.transition(events[0]).0, events.drop_first())
    }
}

/// The actions that a sequence of events draws, one for each event.
pub open spec fn trace(state: SessionBridge, events: Seq<EventModel>) -> Seq<ActionModel>
    decreases events.len(),
{
    if events.len() == 0 {
        Seq::<ActionModel>::empty()
    } else {
        seq![state.transition(events[0]).1] + trace(
            state.transition(events[0]).0,
            events.drop_first(),
        )
    }
}

/// The events that end a session in whatever phase they arrive: failures of
/// the transport, of setup and of the process's streams, the end of the
/// process's output, the end of the client's stream and of all sources.
pub open spec fn ends_session(event: EventModel) -> bool {
    event is ClientError || event is ClientEnded || event is SendFailed
        || event is ProvisionFailed || event is OutputEnded || event is OutputError
        || event is InputFailed || event is Exhausted
}

/// The times at which frames are sent to the client in the course of a
/// sequence of events.
pub open spec fn send_times(state: SessionBridge, events: Seq<EventModel>) -> Seq<u64>
    decreases events.len(),
{
    if events.len() == 0 {
        Seq::<u64>::empty()
    } else {
        let step = state.transition(events[0]);
        let later = send_times(step.0, events.drop_first());
        match (events[0], step.1) {
            (EventModel::Frame { frame, now_us }, ActionModel::SendBinary(_)) => seq![now_us]
                + later,
            _ => later,
        }
    }
}

/// The clock readings in a sequence of events never go back, starting from
/// the reading `from`.
pub open spec fn clock_ordered(from: u64, events: Seq<EventModel>) -> bool
    decreases events.len(),
{
    if events.len() == 0 {
        true
    } else {
        match events[0] {
            EventModel::Frame { frame, now_us } => from <= now_us && clock_ordered(
                now_us,
                events.drop_first(),
            ),
            EventModel::Provisioned { now_us } => from <= now_us && clock_ordered(
                now_us,
                events.drop_first(),
            ),
            _ => clock_ordered(from, events.drop_first()),
        }
    }
}

/// A session leaves its active phases only for `Closing`, and exactly then
/// is teardown ordered: no event takes a session to `Closed` past teardown,
/// and none orders teardown while the session goes on.
pub proof fn lemma_exit_orders_teardown(state: SessionBridge, event: EventModel)
    requires
        state.active(),
    ensures
        state.transition(event).0.active() || state.transition(event).0.phase is Closing,
        state.transition(event).0.phase is Closing <==> state.transition(event).1 is Teardown,
        state.transition(event).0.phase is Closing ==> state.transition(event).0.reason is Some,
{
}

/// Transport errors, the end of the process, failures of its streams and
/// setup failures all end in `Closing` with teardown ordered, in every
/// active phase.
pub proof fn lemma_every_failure_closes(state: SessionBridge, event: EventModel)
    requires
        state.active(),
        ends_session(event),
    ensures
        state.transition(event).0.phase is Closing,
        state.transition(event).1 is Teardown,
{
}

/// While a session is closing, teardown stays ordered until it is reported
/// done; that report closes the session, and a closed session stays closed.
pub proof fn lemma_closing_ends_closed(state: SessionBridge, event: EventModel)
    ensures
        state.phase is Closing && event is TornDown ==> state.transition(event).0.phase is Closed
            && state.transition(event).1 is Finished,
        state.phase is Closing && !(event is TornDown) ==> state.transition(event) == (
            state,
            ActionModel::Teardown,
        ),
        state.phase is Closed ==> state.transition(event) == (state, ActionModel::Finished),
{
}

/// Teardown terminates the process, releases the region and stops the
/// sandbox: all three, every time.
pub proof fn lemma_teardown_is_complete()
    ensures
        teardown_steps().len() == 3,
        teardown_steps().contains(TeardownStep::TerminateProcess),
        teardown_steps().contains(TeardownStep::ReleaseRegion),
        teardown_steps().contains(TeardownStep::StopSandbox),
{
    let steps = teardown_steps();
    assert(steps[0] == TeardownStep::TerminateProcess);
    assert(steps[1] == TeardownStep::ReleaseRegion);
    assert(steps[2] == TeardownStep::StopSandbox);
}

/// No session is ever closed without teardown: whatever the events that took
/// an active session to `Closed`, one of them drew the order to tear down.
pub proof fn lemma_closed_only_through_teardown(state: SessionBridge, events: Seq<EventModel>)
    requires
        state.active(),
        run(state, events).phase is Closed,
    ensures
        exists|i: int| 0 <= i < events.len() && (#[trigger] trace(state, events)[i]) is Teardown,
        trace(state, events).len() == events.len(),
    decreases events.len(),
{
    lemma_trace_len(state, events);
    if events.len() > 0 {
        let next = state.transition(events[0]).0;
        let rest = events.drop_first();
        let all = trace(state, events);
        lemma_exit_orders_teardown(state, events[0]);
        if next.active() {
            lemma_closed_only_through_teardown(next, rest);
            let i = choose|i: int| 0 <= i < rest.len() && (#[trigger] trace(next, rest)[i])
                is Teardown;
            assert(all[i + 1] == trace(next, rest)[i]);
        } else {
            assert(all[0] is Teardown);
        }
    }
}

/// Each event draws one action.
pub proof fn lemma_trace_len(state: SessionBridge, events: Seq<EventModel>)
    ensures
        trace(state, events).len() == events.len(),
    decreases events.len(),
{
    if events.len() > 0 {
        lemma_trace_len(state.transition(events[0]).0, events.drop_first());
    }
}

/// A binary first message is treated as the text message with the same
/// bytes: both start provisioning with the same code.
pub proof fn lemma_binary_first_message_as_text(state: SessionBridge, text: Seq<char>)
    requires
        state.phase is AwaitingCode,
    ensures
        state.transition(EventModel::Client(ClientMessageModel::Binary(encode_utf8(text))))
            == state.transition(EventModel::Client(ClientMessageModel::Text(text))),
        state.transition(EventModel::Client(ClientMessageModel::Text(text))) == (
            state.in_phase(Phase::Provisioning),
            ActionModel::Provision { code: text },
        ),
{
    lemma_binary_code_is_text_code(text);
}

/// A session that is closing or closed sends no more frames.
pub proof fn lemma_no_sends_after_exit(state: SessionBridge, events: Seq<EventModel>)
    requires
        !state.active(),
    ensures
        send_times(state, events).len() == 0,
    decreases events.len(),
{
    if events.len() > 0 {
        lemma_no_sends_after_exit(state.transition(events[0]).0, events.drop_first());
    }
}

/// Frames reach the client no faster than the configured rate, however fast
/// they arrive: on a clock that never goes back, the first frame of the loop
/// is sent a full interval after the loop started, and any two frames sent
/// in a row are a full interval apart.
pub proof fn lemma_sends_keep_interval(state: SessionBridge, events: Seq<EventModel>, from: u64)
    requires
        clock_ordered(from, events),
        state.phase is Running ==> state.pacer.last_us <= from,
    ensures
        state.phase is Running ==> forall|i: int|
            0 <= i < send_times(state, events).len() ==> state.pacer.last_us
                + state.pacer.interval_us <= #[trigger] send_times(state, events)[i],
        forall|i: int|
            0 <= i && i + 1 < send_times(state, events).len() ==> #[trigger] send_times(
                state,
                events,
            )[i] + state.pacer.interval_us <= send_times(state, events)[i + 1],
    decreases events.len(),
{
    if events.len() > 0 {
        let step = state.transition(events[0]);
        let next = step.0;
        let rest = events.drop_first();
        let later = send_times(next, rest);
        let all = send_times(state, events);
        let from_next = match events[0] {
            EventModel::Frame { frame, now_us } => now_us,
            EventModel::Provisioned { now_us } => now_us,
            _ => from,
        };
        assert(next.pacer.interval_us == state.pacer.interval_us);
        if next.active() {
            lemma_sends_keep_interval(next, rest, from_next);
        } else {
            lemma_no_sends_after_exit(next, rest);
        }
        match (events[0], step.1) {
            (EventModel::Frame { frame, now_us }, ActionModel::SendBinary(_)) => {
                assert(all == seq![now_us] + later);
                assert(state.phase is Running);
                assert forall|i: int| 0 <= i < all.len() implies state.pacer.last_us
                    + state.pacer.interval_us <= #[trigger] all[i] by {
                    if i > 0 {
                        assert(all[i] == later[i - 1]);
                    }
                }
                assert forall|i: int| 0 <= i && i + 1 < all.len() implies #[trigger] all[i]
                    + state.pacer.interval_us <= all[i + 1] by {
                    assert(all[i + 1] == later[i]);
                    if i > 0 {
                        assert(all[i] == later[i - 1]);
                    }
                }
            },
            _ => {
                assert(all == later);
            },
        }
    }
}

/// The closing reason is set exactly when the session has left its active
/// phases.
pub open spec fn coherent(state: SessionBridge) -> bool {
    state.reason is Some <==> !state.active()
}

/// A step keeps the state coherent, never changes the pacing interval, and
/// never replaces a closing reason once given.
pub proof fn lemma_step_keeps_shape(state: SessionBridge, event: EventModel)
    requires
        coherent(state),
    ensures
        coherent(state.transition(event).0),
        state.transition(event).0.pacer.interval_us == state.pacer.interval_us,
        state.reason is Some ==> state.transition(event).0.reason == state.reason,
{
}

/// Provisioning is ordered only for a first message that carries code, so no
/// process is started for a session whose first message carries none.
pub proof fn lemma_provision_needs_code(state: SessionBridge, event: EventModel)
    requires
        state.transition(event).1 is Provision,
    ensures
        state.phase is AwaitingCode,
        state.transition(event).0.phase is Provisioning,
        event matches EventModel::Client(message) && code_payload(message) == Some(
            state.transition(event).1->code,
        ),
{
}

/// Frames, output lines and client input move only while the loop runs.
pub proof fn lemma_traffic_only_while_running(state: SessionBridge, event: EventModel)
    requires
        state.transition(event).1 is SendBinary || state.transition(event).1 is SendText
            || state.transition(event).1 is WriteInput,
    ensures
        state.phase is Running,
        state.transition(event).0.phase is Running,
{
}

} // verus!
