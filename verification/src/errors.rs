//! Error taxonomy of the engine.
//!
//! Every operation of the engine fails with exactly one of these variants;
//! the surrounding application renders them to user-facing text and maps
//! hardware failures onto the variants reserved for them
//! (`PortEnumeration`, `Connection`, `Send`, `Lock`).

use vstd::prelude::*;

verus! {

/// Why an engine operation failed.
#[derive(Clone, Copy, Debug, PartialEq, Eq, Structural)]
pub enum MidiError {
    /// The platform MIDI subsystem could not be initialized for enumeration.
    PortEnumeration,
    /// A port index was not within the most recent enumeration snapshot.
    PortIndexOutOfRange,
    /// Opening a connection to a port failed.
    Connection,
    /// An operation needed an open output connection and none was selected.
    NoOutputSelected,
    /// A clock-send tempo was not strictly positive.
    InvalidTempo,
    /// Transmitting a message over the open connection failed.
    Send,
    /// A shared-state lock was poisoned or otherwise unusable.
    Lock,
}

} // verus!
