//! Core of a keyboard macro recorder for an X11 display.
//!
//! A run picks a destination window, records the key events typed into a
//! capture window until the stop key is pressed, focuses the destination and
//! injects the recorded events again, in order. This crate holds every
//! decision of such a run as verified code; talking to the display server and
//! to helper processes is left to the caller.
//!
//! - [`session`] drives a whole run: it names the next action and takes in
//!   its outcome.
//! - [`helper`] judges the runs of the helper processes that select and
//!   focus the destination window.
//! - [`capture`] decides what each event from the display server does to the
//!   recording.
//! - [`replay`] turns recorded events into injection requests.
//! - [`surface`] describes the capture window.
//! - [`keys`] and [`decimal`] hold the data that the others share.
//! - [`runs`] states what holds of every run.

pub mod capture;
pub mod decimal;
pub mod helper;
pub mod keys;
pub mod replay;
pub mod runs;
pub mod session;
pub mod surface;
