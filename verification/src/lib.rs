//! Safety layer for a single-pin GPIO toggle firmware command.
//!
//! The crate has three parts. [`bounded`] holds a fixed-capacity,
//! null-terminable text buffer used to marshal messages across the foreign
//! console boundary. [`wrapper`] turns raw foreign status codes into typed
//! results and models the millisecond-to-tick conversion. [`sequencer`] is
//! the control logic of the command itself: a state machine that prints a
//! banner, configures the pin for output, toggles its level ten times with a
//! one-second delay after each set, and on any failure prints a fallback
//! diagnostic and parks forever. The machine decides; an unverified shim
//! performs each emitted action against the real hardware and feeds the
//! outcome back in.

use vstd::prelude::*;

pub mod bounded;
pub mod sequencer;
pub mod wrapper;

verus! {

/// The two failure kinds of the safety layer: a message too long for the
/// bounded buffer, or a nonzero status code returned by a foreign call.
#[derive(Clone, Copy, Debug, PartialEq, Eq, Structural)]
pub enum WrapperError {
    /// A message (with its terminator) does not fit the bounded buffer.
    Overflow,
    /// A foreign capability reported failure; carries the exact raw code.
    ForeignStatus(i32),
}

} // verus!
