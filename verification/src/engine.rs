//! The engine: session tracking and state transitions.
//!
//! [`MidiState`] is the single entry point for callers. It tracks which
//! output port is selected, whether an outbound clock-send session is active
//! and at what pulse interval, whether an inbound follow session is active,
//! and the shared tempo-estimation state.
//!
//! The engine decides; the surrounding application performs. Port
//! enumeration, opening connections, the timer thread and the actual byte
//! transmission are the application's: it passes the size of its latest
//! enumeration snapshot into the selection operations, reports a successfully
//! opened connection back through [`MidiState::output_opened`] or
//! [`MidiState::follow_opened`], transmits the frames that
//! [`MidiState::send_cc`] and [`MidiState::send_pc`] return, and runs one
//! pulse thread per active send session at the interval that
//! [`MidiState::start_clock_send`] computes.

use vstd::prelude::*;

use crate::errors::MidiError;
use crate::follow::{spec_observe, ClockState};
use crate::messages::{spec_cc_frame, spec_pc_frame, cc_frame, pc_frame};

verus! {

/// Dividend of the pulse-interval computation: a tempo of `m` micro-BPM
/// yields a pulse every `60 / (m/1_000_000 * 24)` seconds, i.e. every
/// `2_500_000_000_000 / m` microseconds, truncated.
pub const INTERVAL_MICROS_DIVIDEND: u64 = 2_500_000_000_000;

/// An active outbound clock-send session.
#[derive(Clone, Copy, Debug)]
pub struct ClockSendSession {
    /// Microseconds between consecutive clock pulses.
    pub interval_us: u64,
}

/// The engine state: selected output, active sessions and follower state.
#[derive(Clone, Copy, Debug)]
pub struct MidiState {
    /// Index of the open output port within the enumeration snapshot it was
    /// selected from; `None` iff no output connection is open.
    pub selected_port: Option<usize>,
    /// The outbound clock-send session, while one is active.
    pub send_session: Option<ClockSendSession>,
    /// Whether an inbound follow session (an open input connection with a
    /// receive callback) is active.
    pub follow_active: bool,
    /// The shared tempo-estimation state written by the follow callback.
    pub clock: ClockState,
}

impl MidiState {
    /// The engine is well formed: a send session only exists while an output
    /// is selected, and the follower state is well formed.
    pub open spec fn wf(&self) -> bool {
        &&& self.clock.wf()
        &&& (self.send_session is Some ==> self.selected_port is Some)
    }

    /// The initial engine state: nothing selected, no sessions, default
    /// follower state.
    pub open spec fn spec_default() -> MidiState {
        MidiState {
            selected_port: None,
            send_session: None,
            follow_active: false,
            clock: ClockState::spec_default(),
        }
    }

    /// The currently selected output port index, if any.
    pub fn selected_port(&self) -> (r: Option<usize>)
        ensures
            r == self.selected_port,
    {
        self.selected_port
    }

    /// The pulse interval of the active send session, if one is active.
    pub fn send_interval_us(&self) -> (r: Option<u64>)
        ensures
            r is Some <==> self.send_session is Some,
            (self.send_session matches Some(session) ==> r == Some(session.interval_us)),
    {
        match self.send_session {
            Some(session) => Some(session.interval_us),
            None => None,
        }
    }

    /// Begins selecting the output port `index` out of an enumeration
    /// snapshot of `port_count` ports.
    ///
    /// Any active send session is silently stopped first and the previous
    /// selection is released, so the application must quiesce its pulse
    /// thread and drop its old connection before opening the new port; only
    /// then may it report success through [`MidiState::output_opened`]. An
    /// out-of-range index fails and leaves the engine with no selected
    /// output. Follow state is deliberately untouched: following an inbound
    /// clock is independent of which output is open.
    pub fn select_output(&mut self, index: usize, port_count: usize) -> (r: Result<
        (),
        MidiError,
    >)
        requires
            old(self).wf(),
        ensures
            final(self).wf(),
            *final(self) == spec_select_output(*old(self)),
            r == spec_port_index_check(index, port_count),
    {
        self.send_session = None;
        self.selected_port = None;
        if index < port_count {
            Ok(())
        } else {
            Err(MidiError::PortIndexOutOfRange)
        }
    }

    /// Records that the application has opened an output connection to the
    /// port at `index`.
    pub fn output_opened(&mut self, index: usize)
        requires
            old(self).wf(),
        ensures
            final(self).wf(),
            *final(self) == spec_output_opened(*old(self), index),
    {
        self.selected_port = Some(index);
    }

    /// Starts an outbound clock-send session at `bpm_micro` micro-BPM,
    /// returning the pulse interval in microseconds.
    ///
    /// Fails with `InvalidTempo` on a non-positive tempo and with
    /// `NoOutputSelected` when no output connection is open; both failures
    /// leave the engine unchanged, so a previously active session keeps
    /// running. On success any previous session is replaced (a tempo change
    /// is stop-then-start), and the application must quiesce the old pulse
    /// thread, launch a new one at the returned interval and send one Start
    /// byte.
    pub fn start_clock_send(&mut self, bpm_micro: i64) -> (r: Result<u64, MidiError>)
        requires
            old(self).wf(),
        ensures
            final(self).wf(),
            *final(self) == spec_start_clock_send(*old(self), bpm_micro),
            r == spec_start_clock_send_result(*old(self), bpm_micro),
    {
        if bpm_micro <= 0 {
            return Err(MidiError::InvalidTempo);
        }
        if self.selected_port.is_none() {
            return Err(MidiError::NoOutputSelected);
        }
        let interval_us: u64 = INTERVAL_MICROS_DIVIDEND / (bpm_micro as u64);
        self.send_session = Some(ClockSendSession { interval_us });
        Ok(interval_us)
    }

    /// Stops the outbound clock-send session, if one is active.
    ///
    /// The application must clear its cancellation flag and join the pulse
    /// thread before this call returns to its caller, then best-effort send
    /// one Stop byte; a failure of that trailing send is not an error.
    pub fn stop_clock_send(&mut self)
        requires
            old(self).wf(),
        ensures
            final(self).wf(),
            *final(self) == spec_stop_clock_send(*old(self)),
    {
        self.send_session = None;
    }

    /// Begins enabling clock follow on the input port `index` out of an
    /// enumeration snapshot of `port_count` ports.
    ///
    /// Any previous follow session is released first; the estimation state is
    /// untouched (only disabling resets it). An out-of-range index fails and
    /// leaves follow disabled. On success the application must open the input
    /// connection with its receive callback and report back through
    /// [`MidiState::follow_opened`].
    pub fn enable_clock_follow(&mut self, index: usize, port_count: usize) -> (r: Result<
        (),
        MidiError,
    >)
        requires
            old(self).wf(),
        ensures
            final(self).wf(),
            *final(self) == spec_enable_clock_follow(*old(self)),
            r == spec_port_index_check(index, port_count),
    {
        self.follow_active = false;
        if index < port_count {
            Ok(())
        } else {
            Err(MidiError::PortIndexOutOfRange)
        }
    }

    /// Records that the application has opened the input connection of a
    /// follow session.
    pub fn follow_opened(&mut self)
        requires
            old(self).wf(),
        ensures
            final(self).wf(),
            *final(self) == spec_follow_opened(*old(self)),
    {
        self.follow_active = true;
    }

    /// Disables clock follow: the input connection is released and the
    /// estimation state is reset to its default (not running, no estimate).
    pub fn disable_clock_follow(&mut self)
        requires
            old(self).wf(),
        ensures
            final(self).wf(),
            *final(self) == spec_disable_clock_follow(*old(self)),
    {
        self.follow_active = false;
        self.clock = ClockState::default();
    }

    /// Ingests one inbound MIDI message observed by the follow callback at
    /// `now_us`.
    pub fn observe_clock_message(&mut self, message: &[u8], now_us: u64)
        requires
            old(self).wf(),
        ensures
            final(self).wf(),
            *final(self) == (MidiState {
                clock: spec_observe(old(self).clock, message@, now_us),
                ..*old(self)
            }),
    {
        self.clock.observe(message, now_us);
    }

    /// Snapshot of the follower's estimation result: running flag and tempo
    /// estimate in micro-BPM.
    pub fn clock_status(&self) -> (r: (bool, Option<u64>))
        ensures
            r == (self.clock.running, self.clock.bpm_micro),
    {
        (self.clock.running, self.clock.bpm_micro)
    }

    /// Encodes a Control Change frame for the open output, saturating the
    /// data bytes; the application transmits the returned frame. Fails with
    /// `NoOutputSelected` when no output connection is open.
    pub fn send_cc(&mut self, channel: u8, control: u8, value: u8) -> (r: Result<
        Vec<u8>,
        MidiError,
    >)
        requires
            old(self).wf(),
        ensures
            final(self).wf(),
            *final(self) == *old(self),
            r is Ok <==> old(self).selected_port is Some,
            (r matches Ok(frame) ==> frame@ == spec_cc_frame(channel, control, value)),
            (r matches Err(e) ==> e == MidiError::NoOutputSelected),
    {
        if self.selected_port.is_none() {
            return Err(MidiError::NoOutputSelected);
        }
        Ok(cc_frame(channel, control, value))
    }

    /// Encodes a Program Change frame for the open output, saturating the
    /// program byte; the application transmits the returned frame. Fails with
    /// `NoOutputSelected` when no output connection is open.
    pub fn send_pc(&mut self, channel: u8, program: u8) -> (r: Result<Vec<u8>, MidiError>)
        requires
            old(self).wf(),
        ensures
            final(self).wf(),
            *final(self) == *old(self),
            r is Ok <==> old(self).selected_port is Some,
            (r matches Ok(frame) ==> frame@ == spec_pc_frame(channel, program)),
            (r matches Err(e) ==> e == MidiError::NoOutputSelected),
    {
        if self.selected_port.is_none() {
            return Err(MidiError::NoOutputSelected);
        }
        Ok(pc_frame(channel, program))
    }
}

impl Default for MidiState {
    /// The initial engine state: nothing selected, no sessions, default
    /// follower state.
    fn default() -> (s: Self)
        ensures
            s == MidiState::spec_default(),
            s.wf(),
    {
        MidiState {
            selected_port: None,
            send_session: None,
            follow_active: false,
            clock: ClockState::default(),
        }
    }
}

/// The state after beginning an output selection: the send session is
/// stopped and the previous selection is released, whatever the index; the
/// follower is untouched.
pub open spec fn spec_select_output(s: MidiState) -> MidiState {
    MidiState { selected_port: None, send_session: None, ..s }
}

/// The result of validating a port index against an enumeration snapshot of
/// `port_count` ports: in range succeeds, out of range fails.
pub open spec fn spec_port_index_check(index: usize, port_count: usize) -> Result<
    (),
    MidiError,
> {
    if index < port_count {
        Ok(())
    } else {
        Err(MidiError::PortIndexOutOfRange)
    }
}

/// The state after the application has opened the output port at `index`.
pub open spec fn spec_output_opened(s: MidiState, index: usize) -> MidiState {
    MidiState { selected_port: Some(index), ..s }
}

/// The pulse interval, in microseconds, of a tempo of `bpm_micro` micro-BPM.
pub open spec fn spec_send_interval_us(bpm_micro: i64) -> u64
    recommends
        bpm_micro > 0,
{
    (INTERVAL_MICROS_DIVIDEND as int / bpm_micro as int) as u64
}

/// The state after a start-clock-send request: unchanged on a non-positive
/// tempo or with no output selected, otherwise the session (old or none) is
/// replaced by one at the computed interval.
pub open spec fn spec_start_clock_send(s: MidiState, bpm_micro: i64) -> MidiState {
    if bpm_micro <= 0 {
        s
    } else if s.selected_port is None {
        s
    } else {
        MidiState {
            send_session: Some(ClockSendSession { interval_us: spec_send_interval_us(bpm_micro) }),
            ..s
        }
    }
}

/// The result of a start-clock-send request: `InvalidTempo` on a
/// non-positive tempo, `NoOutputSelected` with no open output, otherwise the
/// computed pulse interval.
pub open spec fn spec_start_clock_send_result(s: MidiState, bpm_micro: i64) -> Result<
    u64,
    MidiError,
> {
    if bpm_micro <= 0 {
        Err(MidiError::InvalidTempo)
    } else if s.selected_port is None {
        Err(MidiError::NoOutputSelected)
    } else {
        Ok(spec_send_interval_us(bpm_micro))
    }
}

/// The state after stopping the outbound clock: no send session, everything
/// else untouched.
pub open spec fn spec_stop_clock_send(s: MidiState) -> MidiState {
    MidiState { send_session: None, ..s }
}

/// The state after beginning to enable clock follow: the previous follow
/// session is released, the estimation state is untouched.
pub open spec fn spec_enable_clock_follow(s: MidiState) -> MidiState {
    MidiState { follow_active: false, ..s }
}

/// The state after the application has opened a follow input connection.
pub open spec fn spec_follow_opened(s: MidiState) -> MidiState {
    MidiState { follow_active: true, ..s }
}

/// The state after disabling clock follow: no follow session and the
/// estimation state back at its default.
pub open spec fn spec_disable_clock_follow(s: MidiState) -> MidiState {
    MidiState { follow_active: false, clock: ClockState::spec_default(), ..s }
}

/// Law: starting the outbound clock at any positive tempo and then stopping
/// it always leaves the engine with no send session; together with the
/// synchronous thread join the application performs on stop, this makes
/// shutdown deterministic.
pub proof fn lemma_start_then_stop_ends_session(s: MidiState, bpm_micro: i64)
    requires
        s.wf(),
        bpm_micro > 0,
    ensures
        spec_stop_clock_send(spec_start_clock_send(s, bpm_micro)).send_session is None,
{
}

/// Law: enabling clock follow (through to an opened input connection) and
/// then disabling it always resets the estimation status to not running with
/// no tempo estimate, whatever had been estimated before.
pub proof fn lemma_enable_then_disable_resets_status(s: MidiState)
    requires
        s.wf(),
    ensures
        ({
            let t = spec_disable_clock_follow(spec_follow_opened(spec_enable_clock_follow(s)));
            &&& !t.clock.running
            &&& t.clock.bpm_micro is None
            &&& !t.follow_active
        }),
{
}

} // verus!
