//! Replay: the injection request that each recorded event turns into.

use crate::keys::{KeyEvent, KEY_RELEASE_EVENT};
use vstd::prelude::*;

verus! {

/// Time stamp that stands for "now" in a request to the display server.
pub const CURRENT_TIME: u32 = 0;

/// Delay given to key releases when the caller chooses none.
pub const DEFAULT_DELAY: u32 = 2;

/// A request to the display server to inject one synthetic input event.
#[derive(Clone, Copy, Debug, PartialEq, Eq, Structural)]
pub struct Injection {
    /// Raw type of the event to inject.
    pub event_type: u8,
    /// Key code of the event.
    pub detail: u8,
    /// Delay before the event takes effect, or `CURRENT_TIME`.
    pub time: u32,
    /// Root window that the position refers to; zero for none.
    pub root: u32,
    pub root_x: i16,
    pub root_y: i16,
    /// Input device; zero for the core keyboard.
    pub device: u8,
}

/// The time that the injection of `event` carries: the delay for a key
/// release, "now" for everything else.
pub open spec fn injection_time(event: KeyEvent, delay: u32) -> u32 {
    if event.is_release() {
        delay
    } else {
        CURRENT_TIME
    }
}

/// The request that replays `event`: its type and key code unchanged, on no
/// particular root window, position or device.
pub open spec fn injection_of(event: KeyEvent, delay: u32) -> Injection {
    Injection {
        event_type: event.event_type,
        detail: event.detail,
        time: injection_time(event, delay),
        root: 0,
        root_x: 0,
        root_y: 0,
        device: 0,
    }
}

/// The requests that replay `events`: one for each event, in the same order.
pub open spec fn replay_of(events: Seq<KeyEvent>, delay: u32) -> Seq<Injection> {
    Seq::new(events.len(), |i: int| injection_of(events[i], delay))
}

/// A replay keeps the recording's order: there is one request for each
/// recorded event, and the request at each position carries the type and the
/// key code of the event recorded at that position.
pub proof fn lemma_replay_keeps_order(events: Seq<KeyEvent>, delay: u32)
    ensures
        replay_of(events, delay).len() == events.len(),
        forall|i: int|
            0 <= i < events.len() ==> {
                let request = #[trigger] replay_of(events, delay)[i];
                request.event_type == events[i].event_type && request.detail == events[i].detail
            },
{
}

/// Every request that replays a key release carries the delay, and every
/// other request carries `CURRENT_TIME`.
pub proof fn lemma_replay_times(events: Seq<KeyEvent>, delay: u32)
    ensures
        forall|i: int|
            0 <= i < events.len() ==> {
                let request = #[trigger] replay_of(events, delay)[i];
                if events[i].event_type == KEY_RELEASE_EVENT {
                    request.time == delay
                } else {
                    request.time == CURRENT_TIME
                }
            },
{
}

/// Builds the request that replays `event`.
pub fn injection(event: KeyEvent, delay: u32) -> (request: Injection)
    ensures
        request == injection_of(event, delay),
{
    let time: u32 = if event.event_type == KEY_RELEASE_EVENT {
        delay
    } else {
        CURRENT_TIME
    };
    Injection { event_type: event.event_type, detail: event.detail, time, root: 0, root_x: 0, root_y: 0, device: 0 }
}

/// Builds the requests that replay a whole recording.
pub fn plan_replay(events: &Vec<KeyEvent>, delay: u32) -> (plan: Vec<Injection>)
    ensures
        plan@ == replay_of(events@, delay),
{
    let mut plan: Vec<Injection> = Vec::new();
    let mut i: usize = 0;
    while i < events.len()
        invariant
            i <= events.len(),
            plan@ == replay_of(events@.take(i as int), delay),
        decreases events.len() - i,
    {
        plan.push(injection(events[i], delay));
        i += 1;
        assert(plan@ =~= replay_of(events@.take(i as int), delay));
    }
    assert(events@.take(i as int) =~= events@);
    plan
}

} // verus!
