//! A whole run as a state machine. The session says which action comes next;
//! the caller performs it and reports the outcome; the session moves on.
//!
//! The phases follow one another in a straight line, and a step that fails
//! ends the run:
//!
//! ```text
//! SelectingWindow -> CapturingKeys -> Activating -> Replaying -> Done
//!        \                 \               \             \
//!         +-----------------+---------------+-------------+--> Aborted
//! ```

use crate::capture::{observation, observe, Observed};
use crate::helper::{
    activate, activation, select_window, selection, ActivationError, HelperOutput,
    SelectionError,
};
use crate::keys::{KeyEvent, ServerEvent};
use crate::replay::{injection, replay_of, Injection};
use crate::surface::{capture_surface, capture_surface_of, Surface};
use vstd::prelude::*;

verus! {

/// Why an injection failed.
#[derive(Clone, Copy, Debug, PartialEq, Eq, Structural)]
pub enum InjectionError {
    /// The request for the recorded event at this position could not be
    /// issued.
    Request(usize),
    /// The server did not acknowledge the injection of the recorded event at
    /// this position.
    Acknowledgement(usize),
}

/// Why a run was aborted.
#[derive(Clone, Copy, Debug, PartialEq, Eq, Structural)]
pub enum Failure {
    /// No destination window was selected.
    Selection(SelectionError),
    /// The capture window could not be created or mapped.
    Surface,
    /// Something other than a key event or a change of the keyboard mapping
    /// came in during the capture.
    UnexpectedEvent,
    /// The destination window was not focused.
    Activation(ActivationError),
    /// A recorded event could not be injected.
    Injection(InjectionError),
}

/// Where a run stands.
#[derive(Clone, Copy, Debug, PartialEq, Eq, Structural)]
pub enum Phase {
    SelectingWindow,
    CapturingKeys,
    Activating,
    Replaying,
    Done,
    Aborted(Failure),
}

/// What the caller is to do next.
#[derive(Clone, Copy, Debug, PartialEq, Eq, Structural)]
pub enum Action {
    /// Run the selection helper and report its output.
    SelectWindow,
    /// Create and map this window and report whether that worked.
    OpenSurface(Surface),
    /// Wait for the next event from the display server and report it.
    AwaitEvent,
    /// Run the activation helper on this window and report its output.
    Activate(u32),
    /// Issue this injection request and report whether it went out.
    Inject(Injection),
    /// Wait for the server's answer to the injection of the recorded event
    /// at this position and report it.
    Confirm(usize),
    /// Nothing is left to do: the run succeeded.
    Finish,
    /// Give up and report this failure.
    Abort(Failure),
}

/// What came of the action that the session asked for.
#[derive(Clone, Debug, PartialEq, Eq)]
pub enum Outcome {
    /// A helper process ran to its end.
    Helper(HelperOutput),
    /// The capture window was created and mapped (`true`), or was not.
    Surface(bool),
    /// The display server delivered an event.
    Event(ServerEvent),
    /// An injection request went out (`true`), or did not.
    Sent(bool),
    /// The server acknowledged an injection (`true`), or reported an error.
    Acknowledged(bool),
}

/// The state of a run, as contracts see it.
pub struct SessionState {
    pub phase: Phase,
    /// Delay that replayed key releases carry.
    pub delay: u32,
    /// The destination window, once one is selected.
    pub destination: u32,
    /// Whether the capture window is up.
    pub surface_open: bool,
    /// The events recorded so far, oldest first.
    pub events: Seq<KeyEvent>,
    /// How many injection requests went out.
    pub sent: nat,
    /// How many injections the server acknowledged.
    pub acknowledged: nat,
}

impl SessionState {
    /// The state in which every run starts.
    pub open spec fn start(delay: u32) -> SessionState {
        SessionState {
            phase: Phase::SelectingWindow,
            delay,
            destination: 0,
            surface_open: false,
            events: Seq::empty(),
            sent: 0,
            acknowledged: 0,
        }
    }

    /// Whether the state is one that a run can be in.
    pub open spec fn wf(self) -> bool {
        &&& self.acknowledged <= self.sent <= self.events.len()
        &&& (self.acknowledged > 0 ==> self.sent == self.events.len())
        &&& match self.phase {
            Phase::SelectingWindow => !self.surface_open && self.events.len() == 0,
            Phase::CapturingKeys => self.sent == 0,
            Phase::Activating => self.surface_open && self.sent == 0,
            Phase::Replaying => self.surface_open && self.acknowledged < self.events.len(),
            Phase::Done => self.surface_open && self.acknowledged == self.events.len(),
            Phase::Aborted(_) => true,
        }
    }

    /// This state, given up for `failure`.
    pub open spec fn aborted(self, failure: Failure) -> SessionState {
        SessionState { phase: Phase::Aborted(failure), ..self }
    }

    /// This state after one more event was put on record, if `event` is one
    /// that is recorded.
    pub open spec fn recorded(self, event: ServerEvent) -> SessionState {
        match event.recorded_key() {
            Some(key) => SessionState { events: self.events.push(key), ..self },
            None => self,
        }
    }

    /// The action that the caller is to perform in this state.
    pub open spec fn pending(self) -> Action {
        match self.phase {
            Phase::SelectingWindow => Action::SelectWindow,
            Phase::CapturingKeys => if self.surface_open {
                Action::AwaitEvent
            } else {
                Action::OpenSurface(capture_surface_of())
            },
            Phase::Activating => Action::Activate(self.destination),
            Phase::Replaying => if self.sent < self.events.len() {
                Action::Inject(replay_of(self.events, self.delay)[self.sent as int])
            } else {
                Action::Confirm(self.acknowledged as usize)
            },
            Phase::Done => Action::Finish,
            Phase::Aborted(failure) => Action::Abort(failure),
        }
    }

    /// The state that follows this one when the pending action had
    /// `outcome`.
    ///
    /// Each phase moves on with the one outcome that answers its action and
    /// says that the action worked; with any other it aborts, with the
    /// failure of that phase. All requests of a replay go out before the
    /// first acknowledgement is awaited. `Done` and `Aborted` are final.
    pub open spec fn next(self, outcome: Outcome) -> SessionState {
        match self.phase {
            Phase::SelectingWindow => match outcome {
                Outcome::Helper(output) => match selection(output) {
                    Ok(window) => SessionState {
                        phase: Phase::CapturingKeys,
                        destination: window,
                        ..self
                    },
                    Err(error) => self.aborted(Failure::Selection(error)),
                },
                _ => self.aborted(Failure::Selection(SelectionError::HelperFailed)),
            },
            Phase::CapturingKeys => if !self.surface_open {
                match outcome {
                    Outcome::Surface(true) => SessionState { surface_open: true, ..self },
                    _ => self.aborted(Failure::Surface),
                }
            } else {
                match outcome {
                    Outcome::Event(event) => match observation(event) {
                        Observed::Recorded => self.recorded(event),
                        Observed::Ignored => self,
                        Observed::Stopped => SessionState { phase: Phase::Activating, ..self },
                        Observed::Unexpected => self.aborted(Failure::UnexpectedEvent),
                    },
                    _ => self.aborted(Failure::UnexpectedEvent),
                }
            },
            Phase::Activating => match outcome {
                Outcome::Helper(output) => match activation(output) {
                    Ok(_) => SessionState {
                        phase: if self.events.len() == 0 {
                            Phase::Done
                        } else {
                            Phase::Replaying
                        },
                        ..self
                    },
                    Err(error) => self.aborted(Failure::Activation(error)),
                },
                _ => self.aborted(Failure::Activation(ActivationError::HelperFailed)),
            },
            Phase::Replaying => if self.sent < self.events.len() {
                match outcome {
                    Outcome::Sent(true) => SessionState { sent: self.sent + 1, ..self },
                    _ => self.aborted(
                        Failure::Injection(InjectionError::Request(self.sent as usize)),
                    ),
                }
            } else {
                match outcome {
                    Outcome::Acknowledged(true) => SessionState {
                        phase: if self.acknowledged + 1 < self.events.len() {
                            Phase::Replaying
                        } else {
                            Phase::Done
                        },
                        acknowledged: self.acknowledged + 1,
                        ..self
                    },
                    _ => self.aborted(
                        Failure::Injection(
                            InjectionError::Acknowledgement(self.acknowledged as usize),
                        ),
                    ),
                }
            },
            Phase::Done => self,
            Phase::Aborted(_) => self,
        }
    }
}

/// A run in progress.
pub struct Session {
    phase: Phase,
    delay: u32,
    destination: u32,
    surface_open: bool,
    events: Vec<KeyEvent>,
    sent: usize,
    acknowledged: usize,
}

impl View for Session {
    type V = SessionState;

    closed spec fn view(&self) -> SessionState {
        SessionState {
            phase: self.phase,
            delay: self.delay,
            destination: self.destination,
            surface_open: self.surface_open,
            events: self.events@,
            sent: self.sent as nat,
            acknowledged: self.acknowledged as nat,
        }
    }
}

impl Session {
    #[verifier::type_invariant]
    spec fn inv(self) -> bool {
        self@.wf()
    }

    /// Starts a run whose replayed key releases carry `delay`.
    pub fn new(delay: u32) -> (session: Session)
        ensures
            session@ == SessionState::start(delay),
    {
        Session {
            phase: Phase::SelectingWindow,
            delay,
            destination: 0,
            surface_open: false,
            events: Vec::new(),
            sent: 0,
            acknowledged: 0,
        }
    }

    /// Where the run stands.
    pub fn phase(&self) -> (phase: Phase)
        ensures
            phase == self@.phase,
    {
        self.phase
    }

    /// The events recorded so far, oldest first.
    pub fn recording(&self) -> (events: &Vec<KeyEvent>)
        ensures
            events@ == self@.events,
    {
        &self.events
    }

    /// The action that the caller is to perform now.
    pub fn action(&self) -> (action: Action)
        ensures
            self@.wf(),
            action == self@.pending(),
    {
        proof {
            use_type_invariant(self);
        }
        match self.phase {
            Phase::SelectingWindow => Action::SelectWindow,
            Phase::CapturingKeys => {
                if self.surface_open {
                    Action::AwaitEvent
                } else {
                    Action::OpenSurface(capture_surface())
                }
            },
            Phase::Activating => Action::Activate(self.destination),
            Phase::Replaying => {
                if self.sent < self.events.len() {
                    Action::Inject(injection(self.events[self.sent], self.delay))
                } else {
                    Action::Confirm(self.acknowledged)
                }
            },
            Phase::Done => Action::Finish,
            Phase::Aborted(failure) => Action::Abort(failure),
        }
    }

    /// Takes in the outcome of the pending action and moves on.
    pub fn step(self, outcome: Outcome) -> (next: Session)
        ensures
            next@ == self@.next(outcome),
            next@.wf(),
    {
        proof {
            use_type_invariant(&self);
        }
        let Session { phase, delay, destination, surface_open, events, sent, acknowledged } = self;
        let mut events = events;
        let mut phase = phase;
        let mut destination = destination;
        let mut surface_open = surface_open;
        let mut sent = sent;
        let mut acknowledged = acknowledged;
        match phase {
            Phase::SelectingWindow => {
                phase = match outcome {
                    Outcome::Helper(output) => match select_window(&output) {
                        Ok(window) => {
                            destination = window;
                            Phase::CapturingKeys
                        },
                        Err(error) => Phase::Aborted(Failure::Selection(error)),
                    },
                    _ => Phase::Aborted(Failure::Selection(SelectionError::HelperFailed)),
                };
            },
            Phase::CapturingKeys => {
                if !surface_open {
                    match outcome {
                        Outcome::Surface(true) => {
                            surface_open = true;
                        },
                        _ => {
                            phase = Phase::Aborted(Failure::Surface);
                        },
                    }
                } else {
                    match outcome {
                        Outcome::Event(event) => match observe(&mut events, event) {
                            Observed::Recorded => {},
                            Observed::Ignored => {},
                            Observed::Stopped => {
                                phase = Phase::Activating;
                            },
                            Observed::Unexpected => {
                                phase = Phase::Aborted(Failure::UnexpectedEvent);
                            },
                        },
                        _ => {
                            phase = Phase::Aborted(Failure::UnexpectedEvent);
                        },
                    }
                }
            },
            Phase::Activating => {
                phase = match outcome {
                    Outcome::Helper(output) => match activate(&output) {
                        Ok(_) => if events.len() == 0 {
                            Phase::Done
                        } else {
                            Phase::Replaying
                        },
                        Err(error) => Phase::Aborted(Failure::Activation(error)),
                    },
                    _ => Phase::Aborted(Failure::Activation(ActivationError::HelperFailed)),
                };
            },
            Phase::Replaying => {
                if sent < events.len() {
                    match outcome {
                        Outcome::Sent(true) => {
                            sent = sent + 1;
                        },
                        _ => {
                            phase = Phase::Aborted(
                                Failure::Injection(InjectionError::Request(sent)),
                            );
                        },
                    }
                } else {
                    match outcome {
                        Outcome::Acknowledged(true) => {
                            acknowledged = acknowledged + 1;
                            if acknowledged >= events.len() {
                                phase = Phase::Done;
                            }
                        },
                        _ => {
                            phase = Phase::Aborted(
                                Failure::Injection(InjectionError::Acknowledgement(acknowledged)),
                            );
                        },
                    }
                }
            },
            Phase::Done => {},
            Phase::Aborted(_) => {},
        }
        Session { phase, delay, destination, surface_open, events, sent, acknowledged }
    }
}

} // verus!
