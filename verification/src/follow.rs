//! Inbound clock following: tempo estimation from a MIDI realtime stream.
//!
//! The receive callback of the application hands every inbound message,
//! together with its arrival timestamp in microseconds, to
//! [`ClockState::observe`]. Timing Clock bytes advance a tick counter and,
//! once 24 ticks have elapsed, derive a tempo estimate from the final
//! inter-tick gap alone (the estimate deliberately does not average over the
//! whole 24-tick window). Start and Continue reset the measurement window and
//! mark the stream running; Stop only clears the running flag.
//!
//! Tempo estimates are integers in micro-BPM: for a final gap of `g`
//! microseconds the estimate is `60 / (g/1_000_000 / 24)` BPM, i.e.
//! `1_440_000_000_000_000 / g` micro-BPM, truncated.

use vstd::prelude::*;

use crate::messages::{CLOCK_CONTINUE, CLOCK_START, CLOCK_STOP, CLOCK_TICK};

verus! {

/// Ticks per quarter note defined by MIDI clock.
pub const TICKS_PER_QUARTER: u32 = 24;

/// Dividend of the tempo estimate: a final inter-tick gap of `g` microseconds
/// yields `BPM_MICRO_DIVIDEND / g` micro-BPM.
pub const BPM_MICRO_DIVIDEND: u64 = 1_440_000_000_000_000;

/// Shared tempo-estimation state written by the follower and read by status
/// queries.
#[derive(Clone, Copy, Debug)]
pub struct ClockState {
    /// Arrival time of the most recent Timing Clock byte, in microseconds,
    /// if one has been seen since the current measurement window opened.
    pub last_tick_us: Option<u64>,
    /// Timing Clock bytes counted in the current window, always below 24.
    pub ticks: u32,
    /// The most recent tempo estimate, in micro-BPM.
    pub bpm_micro: Option<u64>,
    /// Whether the remote clock is considered running.
    pub running: bool,
}

impl ClockState {
    /// The state is well formed: the tick counter stays inside its window.
    pub open spec fn wf(&self) -> bool {
        self.ticks < TICKS_PER_QUARTER
    }

    /// The default state: nothing heard, no estimate, not running.
    pub open spec fn spec_default() -> ClockState {
        ClockState { last_tick_us: None, ticks: 0, bpm_micro: None, running: false }
    }

    /// Snapshot of the estimation result: running flag and tempo estimate.
    pub fn status(&self) -> (r: (bool, Option<u64>))
        ensures
            r == (self.running, self.bpm_micro),
    {
        (self.running, self.bpm_micro)
    }

    /// Ingests one inbound MIDI message that arrived at `now_us`.
    pub fn observe(&mut self, message: &[u8], now_us: u64)
        requires
            old(self).wf(),
        ensures
            final(self).wf(),
            *final(self) == spec_observe(*old(self), message@, now_us),
    {
        if message.len() == 0 {
            return;
        }
        let first: u8 = message[0];
        if first == CLOCK_TICK {
            self.observe_tick(now_us);
        } else if first == CLOCK_START || first == CLOCK_CONTINUE {
            self.running = true;
            self.ticks = 0;
            self.last_tick_us = None;
        } else if first == CLOCK_STOP {
            self.running = false;
        }
    }

    /// Ingests one Timing Clock byte that arrived at `now_us`.
    pub fn observe_tick(&mut self, now_us: u64)
        requires
            old(self).wf(),
        ensures
            final(self).wf(),
            *final(self) == spec_observe_tick(*old(self), now_us),
    {
        match self.last_tick_us {
            None => {
                self.last_tick_us = Some(now_us);
            }
            Some(last) => {
                let elapsed_us: u64 = if now_us >= last { now_us - last } else { 0 };
                self.ticks = self.ticks + 1;
                if self.ticks >= TICKS_PER_QUARTER {
                    if elapsed_us > 0 {
                        self.bpm_micro = Some(BPM_MICRO_DIVIDEND / elapsed_us);
                        self.running = true;
                    }
                    self.ticks = 0;
                }
                self.last_tick_us = Some(now_us);
            }
        }
    }
}

impl Default for ClockState {
    /// The default state: nothing heard, no estimate, not running.
    fn default() -> (s: Self)
        ensures
            s == ClockState::spec_default(),
            s.wf(),
    {
        ClockState { last_tick_us: None, ticks: 0, bpm_micro: None, running: false }
    }
}

/// The tempo estimate derived from a final inter-tick gap of `elapsed_us`
/// microseconds, in micro-BPM.
pub open spec fn spec_bpm_micro(elapsed_us: u64) -> u64
    recommends
        elapsed_us > 0,
{
    (BPM_MICRO_DIVIDEND as int / elapsed_us as int) as u64
}

/// The state after one Timing Clock byte arriving at `now_us`.
///
/// The first tick of a measurement window only records its timestamp. Every
/// later tick advances the counter; the 24th closes the window, and, if the
/// final inter-tick gap is strictly positive, publishes the tempo estimate
/// derived from that gap alone and marks the stream running.
pub open spec fn spec_observe_tick(s: ClockState, now_us: u64) -> ClockState {
    match s.last_tick_us {
        None => (ClockState { last_tick_us: Some(now_us), ..s }),
        Some(last) => {
            let elapsed_us: int = if now_us >= last { now_us - last } else { 0 };
            if s.ticks + 1 >= TICKS_PER_QUARTER {
                if elapsed_us > 0 {
                    ClockState {
                        last_tick_us: Some(now_us),
                        ticks: 0,
                        bpm_micro: Some(spec_bpm_micro((now_us - last) as u64)),
                        running: true,
                    }
                } else {
                    ClockState { last_tick_us: Some(now_us), ticks: 0, ..s }
                }
            } else {
                ClockState { last_tick_us: Some(now_us), ticks: (s.ticks + 1) as u32, ..s }
            }
        }
    }
}

/// The state after one inbound MIDI message arriving at `now_us`: empty
/// messages and unrecognized first bytes are ignored; Timing Clock follows
/// [`spec_observe_tick`]; Start and Continue mark the stream running and open
/// a fresh measurement window; Stop clears the running flag and nothing else.
pub open spec fn spec_observe(s: ClockState, message: Seq<u8>, now_us: u64) -> ClockState {
    if message.len() == 0 {
        s
    } else if message[0] == CLOCK_TICK {
        spec_observe_tick(s, now_us)
    } else if message[0] == CLOCK_START || message[0] == CLOCK_CONTINUE {
        ClockState { last_tick_us: None, ticks: 0, running: true, ..s }
    } else if message[0] == CLOCK_STOP {
        ClockState { running: false, ..s }
    } else {
        s
    }
}

/// The follower state after a run of Timing Clock bytes arriving at the
/// given timestamps, in order.
pub open spec fn spec_observe_ticks(s: ClockState, times: Seq<u64>) -> ClockState
    decreases times.len(),
{
    if times.len() == 0 {
        s
    } else {
        spec_observe_ticks(spec_observe_tick(s, times[0]), times.subrange(1, times.len() as int))
    }
}

/// A run of ticks is the run over all but the last, followed by the last.
pub proof fn lemma_observe_ticks_snoc(s: ClockState, times: Seq<u64>)
    requires
        times.len() > 0,
    ensures
        spec_observe_ticks(s, times) == spec_observe_tick(
            spec_observe_ticks(s, times.drop_last()),
            times.last(),
        ),
    decreases times.len(),
{
    if times.len() == 1 {
        assert(times.drop_last() =~= Seq::<u64>::empty());
        assert(times.subrange(1, times.len() as int) =~= Seq::<u64>::empty());
    } else {
        let rest = times.subrange(1, times.len() as int);
        lemma_observe_ticks_snoc(spec_observe_tick(s, times[0]), rest);
        assert(rest.drop_last() =~= times.drop_last().subrange(
            1,
            times.drop_last().len() as int,
        ));
        assert(rest.last() == times.last());
    }
}

/// Inside a measurement window, a run of ticks only advances the counter and
/// the last-tick timestamp: the estimate and the running flag are untouched.
pub proof fn lemma_ticks_mid_window(s: ClockState, times: Seq<u64>)
    requires
        s.wf(),
        s.last_tick_us is Some,
        s.ticks + times.len() < TICKS_PER_QUARTER,
    ensures
        spec_observe_ticks(s, times) == (ClockState {
            ticks: (s.ticks + times.len()) as u32,
            last_tick_us: if times.len() == 0 {
                s.last_tick_us
            } else {
                Some(times.last())
            },
            ..s
        }),
    decreases times.len(),
{
    if times.len() > 0 {
        let s1 = spec_observe_tick(s, times[0]);
        let rest = times.subrange(1, times.len() as int);
        lemma_ticks_mid_window(s1, rest);
        if rest.len() > 0 {
            assert(rest.last() == times.last());
        }
    }
}

/// Law: from a fresh measurement window whose opening tick has been seen, 24
/// Timing Clock bytes publish a tempo estimate derived from the final
/// inter-tick gap alone — the earlier 23 gaps do not enter the estimate —
/// and mark the stream running with the window reset.
pub proof fn lemma_tempo_window(s: ClockState, times: Seq<u64>)
    requires
        s.wf(),
        s.ticks == 0,
        s.last_tick_us is Some,
        times.len() == TICKS_PER_QUARTER,
        times[23] > times[22],
    ensures
        ({
            let t = spec_observe_ticks(s, times);
            &&& t.running
            &&& t.ticks == 0
            &&& t.last_tick_us == Some(times[23])
            &&& t.bpm_micro == Some(spec_bpm_micro((times[23] - times[22]) as u64))
        }),
{
    lemma_observe_ticks_snoc(s, times);
    let prefix = times.drop_last();
    lemma_ticks_mid_window(s, prefix);
    assert(prefix.last() == times[22]);
    assert(times.last() == times[23]);
}

/// Law: 24 Timing Clock bytes at a fixed spacing of `gap_us` microseconds,
/// arriving after the window-opening tick at `t0`, publish an estimate of
/// `BPM_MICRO_DIVIDEND / gap_us` micro-BPM and mark the stream running: the
/// fixed spacing enters the estimate only through the final gap.
pub proof fn lemma_tempo_fixed_interval(s: ClockState, t0: u64, gap_us: u64)
    requires
        s.wf(),
        s.ticks == 0,
        s.last_tick_us == Some(t0),
        gap_us > 0,
        t0 + 24 * gap_us <= u64::MAX,
    ensures
        ({
            let times = Seq::new(24, |i: int| (t0 + (i + 1) * gap_us) as u64);
            let t = spec_observe_ticks(s, times);
            &&& t.running
            &&& t.bpm_micro == Some(spec_bpm_micro(gap_us))
        }),
{
    let times = Seq::new(24, |i: int| (t0 + (i + 1) * gap_us) as u64);
    assert(times[22] == (t0 + 23 * gap_us) as u64);
    assert(times[23] == (t0 + 24 * gap_us) as u64);
    assert(times[23] - times[22] == gap_us);
    lemma_tempo_window(s, times);
}

/// Law: the follower invariant — the tick counter stays inside its window —
/// is preserved by every inbound message.
pub proof fn lemma_observe_preserves_wf(s: ClockState, message: Seq<u8>, now_us: u64)
    requires
        s.wf(),
    ensures
        spec_observe(s, message, now_us).wf(),
{
}

} // verus!
