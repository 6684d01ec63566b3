//! The failure kinds of the command surface, and their boundary text.
//!
//! Every command either succeeds or returns exactly one of these kinds;
//! each kind crosses the application boundary as a plain text description.

use vstd::prelude::*;

verus! {

use crate::devices::Direction;
use vstd::string::StringExecFns;

/// Why a command failed.
#[derive(Debug, PartialEq, Eq)]
pub enum MidiError {
    /// The platform MIDI subsystem could not be reached (or the connection
    /// attempt it mediates failed); carries the platform's own report.
    Enumeration(String),
    /// The requested port index lies outside the enumerated list for the
    /// given direction.
    InvalidIndex(Direction),
    /// The exclusive-access mechanism guarding shared state is permanently
    /// broken; no further operation on that state is attempted.
    LockUnavailable,
    /// The operation needs an active output connection and none is open.
    NotConnected,
    /// The platform transmit call failed; carries the platform's own
    /// report.
    Dispatch(String),
}

/// The text under which each failure kind crosses the boundary.
pub open spec fn error_text(e: MidiError) -> Seq<char> {
    match e {
        MidiError::Enumeration(m) => m@,
        MidiError::InvalidIndex(Direction::Input) => "Invalid input index"@,
        MidiError::InvalidIndex(Direction::Output) => "Invalid output index"@,
        MidiError::LockUnavailable => "Lock poisoned"@,
        MidiError::NotConnected => "Output not connected"@,
        MidiError::Dispatch(m) => m@,
    }
}

impl MidiError {
    /// The plain text description shown to the application user.
    pub fn text(&self) -> (r: String)
        ensures
            r@ == error_text(*self),
    {
        match self {
            MidiError::Enumeration(m) => m.clone(),
            MidiError::InvalidIndex(Direction::Input) => String::from_str("Invalid input index"),
            MidiError::InvalidIndex(Direction::Output) => String::from_str("Invalid output index"),
            MidiError::LockUnavailable => String::from_str("Lock poisoned"),
            MidiError::NotConnected => String::from_str("Output not connected"),
            MidiError::Dispatch(m) => m.clone(),
        }
    }
}

/// The outcome of a dispatch, given the platform's report of the transmit
/// call: success passes through, and a transmit-level failure surfaces as a
/// dispatch error carrying the platform's report.
pub fn dispatch_outcome(transmit: Result<(), String>) -> (r: Result<(), MidiError>)
    ensures
        transmit is Ok ==> r == Ok::<(), MidiError>(()),
        transmit matches Err(m) ==> r == Err::<(), MidiError>(MidiError::Dispatch(m)),
{
    match transmit {
        Ok(()) => Ok(()),
        Err(m) => Err(MidiError::Dispatch(m)),
    }
}

} // verus!
