//! Core of a real-time MIDI clock synchronization engine.
//!
//! The engine drives an outbound MIDI clock at a configurable tempo and,
//! independently, follows an inbound MIDI clock stream to estimate the remote
//! tempo and running state. It also owns the selection of a single live
//! output port used both for clock pulses and for discrete Control Change /
//! Program Change messages.
//!
//! This crate is the decision core: it encodes the wire messages, computes
//! pulse intervals, runs the tempo-estimation state machine and tracks the
//! engine's sessions, all as plain state transitions with verified contracts.
//! The surrounding application owns the hardware ports, the timer thread and
//! the receive callback, and drives this core with the events it observes.
//!
//! Tempo values cross the boundary as integers in micro-beats-per-minute
//! (one millionth of a BPM) and timestamps as microseconds, so that every
//! computation here is exact integer arithmetic.

pub mod errors;
pub mod messages;
pub mod follow;
pub mod engine;
