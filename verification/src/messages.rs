//! MIDI wire messages used by the engine.
//!
//! Single-byte system realtime messages drive and follow the clock; Control
//! Change and Program Change frames carry discrete commands. Channels arrive
//! 1-based from callers and become the low nibble of the status byte; data
//! bytes are saturated into the 7-bit MIDI data range, never rejected.

use vstd::prelude::*;

verus! {

/// System realtime Timing Clock byte, sent 24 times per quarter note.
pub const CLOCK_TICK: u8 = 0xF8;
/// System realtime Start byte.
pub const CLOCK_START: u8 = 0xFA;
/// System realtime Continue byte.
pub const CLOCK_CONTINUE: u8 = 0xFB;
/// System realtime Stop byte.
pub const CLOCK_STOP: u8 = 0xFC;

/// High nibble of a Control Change status byte.
pub const CONTROL_CHANGE_STATUS: u8 = 0xB0;
/// High nibble of a Program Change status byte.
pub const PROGRAM_CHANGE_STATUS: u8 = 0xC0;

/// A data byte saturated into the 7-bit MIDI data range `0..=127`.
pub open spec fn spec_data7(x: u8) -> u8 {
    if x > 127 { 127 } else { x }
}

/// The zero-based channel nibble of a 1-based channel number: `channel - 1`
/// saturated at zero and clamped into 4 bits.
pub open spec fn spec_channel_nibble(channel: u8) -> u8 {
    (if channel == 0 { 0u8 } else { (channel - 1) as u8 }) & 0x0F
}

/// Status byte of a Control Change on the given 1-based channel.
pub open spec fn spec_cc_status(channel: u8) -> u8 {
    CONTROL_CHANGE_STATUS | spec_channel_nibble(channel)
}

/// Status byte of a Program Change on the given 1-based channel.
pub open spec fn spec_pc_status(channel: u8) -> u8 {
    PROGRAM_CHANGE_STATUS | spec_channel_nibble(channel)
}

/// The full Control Change frame: status, control number, value.
pub open spec fn spec_cc_frame(channel: u8, control: u8, value: u8) -> Seq<u8> {
    seq![spec_cc_status(channel), spec_data7(control), spec_data7(value)]
}

/// The full Program Change frame: status, program number.
pub open spec fn spec_pc_frame(channel: u8, program: u8) -> Seq<u8> {
    seq![spec_pc_status(channel), spec_data7(program)]
}

/// Saturates a data byte into the 7-bit MIDI data range.
pub fn data7(x: u8) -> (r: u8)
    ensures
        r == spec_data7(x),
{
    if x > 127 { 127 } else { x }
}

/// Converts a 1-based channel number to its status-byte nibble.
pub fn channel_nibble(channel: u8) -> (n: u8)
    ensures
        n == spec_channel_nibble(channel),
{
    let base: u8 = if channel == 0 { 0 } else { channel - 1 };
    base & 0x0F
}

/// Encodes a Control Change message for a 1-based channel, saturating the
/// control number and value into the MIDI data range.
pub fn cc_frame(channel: u8, control: u8, value: u8) -> (frame: Vec<u8>)
    ensures
        frame@ == spec_cc_frame(channel, control, value),
{
    let mut frame: Vec<u8> = Vec::new();
    frame.push(CONTROL_CHANGE_STATUS | channel_nibble(channel));
    frame.push(data7(control));
    frame.push(data7(value));
    proof {
        assert(frame@ =~= spec_cc_frame(channel, control, value));
    }
    frame
}

/// Encodes a Program Change message for a 1-based channel, saturating the
/// program number into the MIDI data range.
pub fn pc_frame(channel: u8, program: u8) -> (frame: Vec<u8>)
    ensures
        frame@ == spec_pc_frame(channel, program),
{
    let mut frame: Vec<u8> = Vec::new();
    frame.push(PROGRAM_CHANGE_STATUS | channel_nibble(channel));
    frame.push(data7(program));
    proof {
        assert(frame@ =~= spec_pc_frame(channel, program));
    }
    frame
}

} // verus!
