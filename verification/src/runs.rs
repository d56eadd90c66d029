//! Whole runs: what holds of a session after any sequence of outcomes.

use crate::capture::{keeps_capturing, keys_of, observation, Observed};
use crate::helper::{selection, HelperOutput, SelectionError};
use crate::keys::{KeyEvent, ServerEvent, STOP_KEY};
use crate::replay::{injection_of, replay_of, Injection};
use crate::session::{Action, Failure, Outcome, Phase, SessionState};
use vstd::prelude::*;

verus! {

/// The state that a run reaches from `state` when its actions have
/// `outcomes`, one after the other.
pub open spec fn run(state: SessionState, outcomes: Seq<Outcome>) -> SessionState
    decreases outcomes.len(),
{
    if outcomes.len() == 0 {
        state
    } else {
        run(state, outcomes.drop_last()).next(outcomes.last())
    }
}

/// The outcomes that report the events of `stream`, one for each event.
pub open spec fn delivered(stream: Seq<ServerEvent>) -> Seq<Outcome> {
    Seq::new(stream.len(), |i: int| Outcome::Event(stream[i]))
}

/// `count` reports that an injection request went out.
pub open spec fn all_sent(count: nat) -> Seq<Outcome> {
    Seq::new(count, |i: int| Outcome::Sent(true))
}

/// The injection requests that went out in a run from `state` with
/// `outcomes`, oldest first: each request that the session asked for and
/// that was then reported as sent.
pub open spec fn requests_issued(state: SessionState, outcomes: Seq<Outcome>) -> Seq<Injection>
    decreases outcomes.len(),
{
    if outcomes.len() == 0 {
        Seq::empty()
    } else {
        let earlier = requests_issued(state, outcomes.drop_last());
        match (run(state, outcomes.drop_last()).pending(), outcomes.last()) {
            (Action::Inject(request), Outcome::Sent(true)) => earlier.push(request),
            _ => earlier,
        }
    }
}

/// Whether `outcome` reports a release of the stop key.
pub open spec fn is_stop_release(outcome: Outcome) -> bool {
    outcome matches Outcome::Event(ServerEvent::KeyRelease(key)) && key.detail == STOP_KEY
}

/// Whether no event on record has the key code of the stop key.
pub open spec fn free_of_stop_key(events: Seq<KeyEvent>) -> bool {
    forall|i: int| 0 <= i < events.len() ==> (#[trigger] events[i]).detail != STOP_KEY
}

/// Whether `later` is `earlier` itself, the phase that follows it in a run
/// without failures, or a final phase that `earlier` can end in.
pub open spec fn follows(earlier: Phase, later: Phase) -> bool {
    match earlier {
        Phase::SelectingWindow => later == Phase::SelectingWindow || later
            == Phase::CapturingKeys || later is Aborted,
        Phase::CapturingKeys => later == Phase::CapturingKeys || later == Phase::Activating
            || later is Aborted,
        Phase::Activating => later == Phase::Activating || later == Phase::Replaying || later
            == Phase::Done || later is Aborted,
        Phase::Replaying => later == Phase::Replaying || later == Phase::Done
            || later is Aborted,
        Phase::Done => later == Phase::Done,
        Phase::Aborted(_) => later == earlier,
    }
}

/// A run starts in a well-formed state.
pub proof fn lemma_start_is_well_formed(delay: u32)
    ensures
        SessionState::start(delay).wf(),
{
}

/// Every step leaves a well-formed state well-formed, keeps the delay, and
/// moves the phase forward or not at all: no phase is entered twice, and the
/// destination, once selected, stays.
pub proof fn lemma_step_moves_forward(state: SessionState, outcome: Outcome)
    requires
        state.wf(),
    ensures
        state.next(outcome).wf(),
        state.next(outcome).delay == state.delay,
        follows(state.phase, state.next(outcome).phase),
        state.phase != Phase::SelectingWindow ==> state.next(outcome).destination
            == state.destination,
{
}

/// Every state of a run is well-formed and carries the delay that the run
/// was started with. In particular no acknowledgement is awaited before
/// every request went out, and a run that is `Done` has issued a request for
/// every recorded event and had each of them acknowledged.
pub proof fn lemma_runs_stay_well_formed(delay: u32, outcomes: Seq<Outcome>)
    ensures
        run(SessionState::start(delay), outcomes).wf(),
        run(SessionState::start(delay), outcomes).delay == delay,
        run(SessionState::start(delay), outcomes).phase == Phase::Done ==> {
            let done = run(SessionState::start(delay), outcomes);
            done.sent == done.events.len() && done.acknowledged == done.events.len()
        },
    decreases outcomes.len(),
{
    if outcomes.len() > 0 {
        lemma_runs_stay_well_formed(delay, outcomes.drop_last());
        lemma_step_moves_forward(
            run(SessionState::start(delay), outcomes.drop_last()),
            outcomes.last(),
        );
    }
}

/// The window that a run works on is the one that the selection helper
/// named: once a window is selected, the destination stays, and it is the
/// window that the session asks to activate.
pub proof fn lemma_destination_is_the_selection(
    delay: u32,
    output: HelperOutput,
    window: u32,
    outcomes: Seq<Outcome>,
)
    requires
        selection(output) == Ok::<u32, SelectionError>(window),
    ensures
        ({
            let selected = SessionState::start(delay).next(Outcome::Helper(output));
            let reached = run(selected, outcomes);
            &&& selected.phase == Phase::CapturingKeys
            &&& reached.phase != Phase::SelectingWindow
            &&& reached.wf()
            &&& reached.destination == window
            &&& reached.phase == Phase::Activating ==> reached.pending() == Action::Activate(
                window,
            )
        }),
    decreases outcomes.len(),
{
    if outcomes.len() > 0 {
        let selected = SessionState::start(delay).next(Outcome::Helper(output));
        lemma_destination_is_the_selection(delay, output, window, outcomes.drop_last());
        lemma_step_moves_forward(run(selected, outcomes.drop_last()), outcomes.last());
    }
}

/// `Done` and `Aborted` are final: whatever is reported afterwards, the
/// state stays as it is, and the session never asks for anything but to
/// finish or to give up.
pub proof fn lemma_final_phases_stay(state: SessionState, outcomes: Seq<Outcome>)
    requires
        state.phase == Phase::Done || state.phase is Aborted,
    ensures
        run(state, outcomes) == state,
        state.phase == Phase::Done ==> run(state, outcomes).pending() == Action::Finish,
        state.phase matches Phase::Aborted(failure) ==> run(state, outcomes).pending()
            == Action::Abort(failure),
    decreases outcomes.len(),
{
    if outcomes.len() > 0 {
        lemma_final_phases_stay(state, outcomes.drop_last());
    }
}

/// While a capture goes on, the events that come in are put on record in
/// the order in which they come, behind what was recorded before, and
/// nothing else about the session changes.
pub proof fn lemma_capture_records_in_order(state: SessionState, stream: Seq<ServerEvent>)
    requires
        state.phase == Phase::CapturingKeys,
        state.surface_open,
        keeps_capturing(stream),
    ensures
        run(state, delivered(stream)) == (SessionState {
            events: state.events + keys_of(stream),
            ..state
        }),
    decreases stream.len(),
{
    if stream.len() == 0 {
        assert(state.events + keys_of(stream) =~= state.events);
    } else {
        let earlier = stream.drop_last();
        let event = stream.last();
        assert(delivered(stream).drop_last() =~= delivered(earlier));
        assert(delivered(stream).last() == Outcome::Event(event));
        lemma_capture_records_in_order(state, earlier);
        assert(observation(event) == Observed::Recorded || observation(event) == Observed::Ignored);
        match event.recorded_key() {
            Some(key) => {
                assert(state.events + keys_of(stream) =~= (state.events + keys_of(earlier)).push(
                    key,
                ));
            },
            None => {},
        }
    }
}

/// A press of the stop key is never put on record, in whatever state it is
/// reported and however often.
pub proof fn lemma_stop_press_is_not_recorded(state: SessionState, event: ServerEvent)
    requires
        event.is_stop(),
    ensures
        state.next(Outcome::Event(event)).events == state.events,
{
}

/// A step puts at most one event on record, behind the others, and only a
/// key event that is not a press of the stop key.
pub proof fn lemma_step_records_key_events_only(state: SessionState, outcome: Outcome)
    ensures
        state.next(outcome).events == state.events || ({
            &&& outcome matches Outcome::Event(event)
            &&& !event.is_stop()
            &&& event.recorded_key() matches Some(key)
            &&& state.next(outcome).events == state.events.push(key)
        }),
{
}

/// Unless a release of the stop key is reported, the key code of the stop
/// key never gets on record: not in the run's first state, and not after any
/// number of outcomes.
pub proof fn lemma_stop_key_stays_off_record(delay: u32, outcomes: Seq<Outcome>)
    requires
        forall|i: int| 0 <= i < outcomes.len() ==> !is_stop_release(#[trigger] outcomes[i]),
    ensures
        free_of_stop_key(run(SessionState::start(delay), outcomes).events),
    decreases outcomes.len(),
{
    if outcomes.len() > 0 {
        let earlier = outcomes.drop_last();
        assert forall|i: int| 0 <= i < earlier.len() implies !is_stop_release(
            #[trigger] earlier[i],
        ) by {
            assert(earlier[i] == outcomes[i]);
        }
        lemma_stop_key_stays_off_record(delay, earlier);
        assert(!is_stop_release(outcomes.last()));
    }
}

/// An event that a capture does not tolerate, coming after any number of
/// events that it records or ignores, aborts the run at once. Nothing is
/// replayed: no injection request has gone out, and whatever is reported
/// afterwards the session asks for nothing but to give up.
pub proof fn lemma_unexpected_event_aborts(
    state: SessionState,
    stream: Seq<ServerEvent>,
    afterwards: Seq<Outcome>,
)
    requires
        state.wf(),
        state.phase == Phase::CapturingKeys,
        state.surface_open,
        keeps_capturing(stream),
    ensures
        ({
            let aborted = run(state, delivered(stream)).next(Outcome::Event(ServerEvent::Other));
            &&& aborted.phase == Phase::Aborted(Failure::UnexpectedEvent)
            &&& aborted.sent == 0
            &&& run(aborted, afterwards) == aborted
            &&& run(aborted, afterwards).pending() == Action::Abort(Failure::UnexpectedEvent)
        }),
{
    lemma_capture_records_in_order(state, stream);
    let aborted = run(state, delivered(stream)).next(Outcome::Event(ServerEvent::Other));
    lemma_final_phases_stay(aborted, afterwards);
}

/// A replay issues its requests in the order of the recording: after
/// `count` requests went out, the next action is to issue the request for
/// the event recorded at position `count`, and once all went out, to await
/// the first acknowledgement.
pub proof fn lemma_requests_go_out_in_order(state: SessionState, count: nat)
    requires
        state.wf(),
        state.phase == Phase::Replaying,
        state.sent == 0,
        count <= state.events.len(),
    ensures
        run(state, all_sent(count)) == (SessionState { sent: count, ..state }),
        count < state.events.len() ==> run(state, all_sent(count)).pending() == Action::Inject(
            injection_of(state.events[count as int], state.delay),
        ),
        count == state.events.len() ==> run(state, all_sent(count)).pending()
            == Action::Confirm(0),
    decreases count,
{
    if count > 0 {
        let before = (count - 1) as nat;
        assert(all_sent(count).drop_last() =~= all_sent(before));
        lemma_requests_go_out_in_order(state, before);
    }
}

/// Whatever happens in a run, the injection requests that went out are those
/// that replay the recording, in its order and with the delay that the run
/// was started with, up to the number that went out. In a run that is
/// `Done` they replay the whole recording.
pub proof fn lemma_requests_issued_replay_the_record(delay: u32, outcomes: Seq<Outcome>)
    ensures
        ({
            let reached = run(SessionState::start(delay), outcomes);
            let issued = requests_issued(SessionState::start(delay), outcomes);
            &&& reached.sent <= reached.events.len()
            &&& issued == replay_of(reached.events, delay).take(reached.sent as int)
            &&& reached.phase == Phase::Done ==> issued == replay_of(reached.events, delay)
        }),
    decreases outcomes.len(),
{
    let start = SessionState::start(delay);
    let reached = run(start, outcomes);
    let issued = requests_issued(start, outcomes);
    lemma_runs_stay_well_formed(delay, outcomes);
    if outcomes.len() == 0 {
        assert(issued =~= replay_of(reached.events, delay).take(0));
    } else {
        let before = run(start, outcomes.drop_last());
        let earlier = requests_issued(start, outcomes.drop_last());
        lemma_requests_issued_replay_the_record(delay, outcomes.drop_last());
        lemma_runs_stay_well_formed(delay, outcomes.drop_last());
        if reached.events != before.events {
            assert(before.sent == 0 && reached.sent == 0);
            assert(issued =~= replay_of(reached.events, delay).take(0));
        } else if reached.sent != before.sent {
            assert(issued == earlier.push(replay_of(before.events, delay)[before.sent as int]));
            assert(issued =~= replay_of(reached.events, delay).take(reached.sent as int));
        } else {
            assert(issued == earlier);
        }
    }
    if reached.phase == Phase::Done {
        assert(replay_of(reached.events, delay).take(reached.sent as int) =~= replay_of(
            reached.events,
            delay,
        ));
    }
}

} // verus!
