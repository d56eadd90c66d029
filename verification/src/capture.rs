//! The capture loop: what each event from the display server does to the
//! recording.

use crate::keys::{KeyEvent, ServerEvent, STOP_KEY};
use vstd::prelude::*;

verus! {

/// What one event did to a capture.
#[derive(Clone, Copy, Debug, PartialEq, Eq, Structural)]
pub enum Observed {
    /// The event was appended to the recording.
    Recorded,
    /// The event was noted and dropped.
    Ignored,
    /// The stop key was pressed: the capture is complete.
    Stopped,
    /// The event is of a kind that a capture does not tolerate.
    Unexpected,
}

/// What `event` does to a capture. A press of the stop key ends it; every
/// other key press and every key release is recorded; a change of the
/// keyboard mapping is ignored; anything else is refused.
pub open spec fn observation(event: ServerEvent) -> Observed {
    match event {
        ServerEvent::KeyPress(key) => if key.detail == STOP_KEY {
            Observed::Stopped
        } else {
            Observed::Recorded
        },
        ServerEvent::KeyRelease(_) => Observed::Recorded,
        ServerEvent::MappingNotify => Observed::Ignored,
        ServerEvent::Other => Observed::Unexpected,
    }
}

/// Whether a capture goes on after each event of `stream`: none of them is a
/// press of the stop key or an event that a capture refuses.
pub open spec fn keeps_capturing(stream: Seq<ServerEvent>) -> bool {
    forall|i: int|
        0 <= i < stream.len() ==> {
            let seen = observation(#[trigger] stream[i]);
            seen == Observed::Recorded || seen == Observed::Ignored
        }
}

/// The key events that the events of `stream` put on record, in the order
/// of the stream.
pub open spec fn keys_of(stream: Seq<ServerEvent>) -> Seq<KeyEvent>
    decreases stream.len(),
{
    if stream.len() == 0 {
        Seq::empty()
    } else {
        let earlier = keys_of(stream.drop_last());
        match stream.last().recorded_key() {
            Some(key) => earlier.push(key),
            None => earlier,
        }
    }
}

/// Feeds one event to a capture: appends it to `events` if it is to be
/// recorded, and says what it did.
pub fn observe(events: &mut Vec<KeyEvent>, event: ServerEvent) -> (observed: Observed)
    ensures
        observed == observation(event),
        final(events)@ == match event.recorded_key() {
            Some(key) => old(events)@.push(key),
            None => old(events)@,
        },
{
    match event {
        ServerEvent::KeyPress(key) => {
            if key.detail == STOP_KEY {
                Observed::Stopped
            } else {
                events.push(key);
                Observed::Recorded
            }
        },
        ServerEvent::KeyRelease(key) => {
            events.push(key);
            Observed::Recorded
        },
        ServerEvent::MappingNotify => Observed::Ignored,
        ServerEvent::Other => Observed::Unexpected,
    }
}

} // verus!
