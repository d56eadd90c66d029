//! Key events as the display server reports them and as a capture records them.

use vstd::prelude::*;

verus! {

/// Protocol code of a key-press event.
pub const KEY_PRESS_EVENT: u8 = 2;

/// Protocol code of a key-release event.
pub const KEY_RELEASE_EVENT: u8 = 3;

/// Key code whose press ends a capture.
pub const STOP_KEY: u8 = 36;

/// A recorded keyboard event: the raw event type that the server reported
/// and the key code.
#[derive(Clone, Copy, Debug, PartialEq, Eq, Structural)]
pub struct KeyEvent {
    pub event_type: u8,
    pub detail: u8,
}

impl KeyEvent {
    /// Whether the event is replayed as a key release: its raw type is the
    /// code of a key release, with no other bit set.
    pub open spec fn is_release(self) -> bool {
        self.event_type == KEY_RELEASE_EVENT
    }
}

/// What the capture loop reads of an event delivered by the display server.
#[derive(Clone, Copy, Debug, PartialEq, Eq, Structural)]
pub enum ServerEvent {
    /// A key went down.
    KeyPress(KeyEvent),
    /// A key came up.
    KeyRelease(KeyEvent),
    /// The keyboard mapping changed.
    MappingNotify,
    /// Any other kind of event.
    Other,
}

impl ServerEvent {
    /// Whether the event is the press of the stop key, which ends a capture.
    pub open spec fn is_stop(self) -> bool {
        self matches ServerEvent::KeyPress(key) && key.detail == STOP_KEY
    }

    /// The key event that a capture records for this event, if it records one.
    pub open spec fn recorded_key(self) -> Option<KeyEvent> {
        match self {
            ServerEvent::KeyPress(key) => if key.detail == STOP_KEY {
                None
            } else {
                Some(key)
            },
            ServerEvent::KeyRelease(key) => Some(key),
            ServerEvent::MappingNotify => None,
            ServerEvent::Other => None,
        }
    }
}

} // verus!
