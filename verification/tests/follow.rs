use midi_clock::follow::ClockState;

const TICK: [u8; 1] = [0xF8];
const START: [u8; 1] = [0xFA];
const CONT: [u8; 1] = [0xFB];
const STOP: [u8; 1] = [0xFC];

/// Feeds one priming tick at `t0` (opening the measurement window) and then
/// `n` ticks spaced `gap_us` apart.
fn feed_ticks(state: &mut ClockState, t0: u64, n: u64, gap_us: u64) {
    state.observe(&TICK, t0);
    for k in 1..=n {
        state.observe(&TICK, t0 + k * gap_us);
    }
}

#[test]
fn default_state_is_idle() {
    let state = ClockState::default();
    assert_eq!(state.status(), (false, None));
    assert_eq!(state.ticks, 0);
    assert_eq!(state.last_tick_us, None);
}

#[test]
fn twenty_four_ticks_at_one_second_estimate_1440_bpm() {
    // A window whose final inter-tick gap is 1_000_000 us yields
    // 1_440_000_000_000_000 / 1_000_000 = 1_440_000_000 micro-BPM: the
    // estimate scales the final gap by 24 rather than averaging the window,
    // so a one-second tick spacing reads as 1440 BPM.
    let mut state = ClockState::default();
    feed_ticks(&mut state, 0, 24, 1_000_000);
    assert_eq!(state.status(), (true, Some(1_440_000_000)));
    assert_eq!(state.ticks, 0);
    assert_eq!(state.last_tick_us, Some(24_000_000));
}

#[test]
fn estimate_uses_only_the_final_gap() {
    // 23 gaps of 1_000_000 us and a final gap of 500_000 us: the estimate
    // comes from the final gap alone.
    let mut state = ClockState::default();
    feed_ticks(&mut state, 0, 23, 1_000_000);
    assert_eq!(state.status(), (false, None));
    state.observe(&TICK, 23_000_000 + 500_000);
    assert_eq!(state.status(), (true, Some(2_880_000_000)));
}

#[test]
fn twenty_four_ticks_from_cold_start_do_not_close_a_window() {
    // From a cold start the very first tick only opens the window, so 24
    // bytes advance the counter to 23 and publish nothing yet; the 25th
    // closes the window.
    let mut state = ClockState::default();
    feed_ticks(&mut state, 0, 23, 1_000_000);
    assert_eq!(state.status(), (false, None));
    assert_eq!(state.ticks, 23);
}

#[test]
fn zero_final_gap_publishes_no_estimate_but_resets_the_window() {
    let mut state = ClockState::default();
    feed_ticks(&mut state, 0, 23, 1_000_000);
    state.observe(&TICK, 23_000_000); // same timestamp as the previous tick
    assert_eq!(state.status(), (false, None));
    assert_eq!(state.ticks, 0);
    assert_eq!(state.last_tick_us, Some(23_000_000));
}

#[test]
fn start_marks_running_and_opens_a_fresh_window() {
    let mut state = ClockState::default();
    feed_ticks(&mut state, 0, 5, 1_000_000);
    state.observe(&START, 6_000_000);
    assert_eq!(state.status(), (true, None));
    assert_eq!(state.ticks, 0);
    assert_eq!(state.last_tick_us, None);
}

#[test]
fn continue_behaves_like_start() {
    let mut state = ClockState::default();
    feed_ticks(&mut state, 0, 5, 1_000_000);
    state.observe(&CONT, 6_000_000);
    assert_eq!(state.status(), (true, None));
    assert_eq!(state.ticks, 0);
    assert_eq!(state.last_tick_us, None);
}

#[test]
fn stop_clears_running_and_keeps_the_estimate() {
    let mut state = ClockState::default();
    feed_ticks(&mut state, 0, 24, 1_000_000);
    assert_eq!(state.status(), (true, Some(1_440_000_000)));
    state.observe(&STOP, 25_000_000);
    assert_eq!(state.status(), (false, Some(1_440_000_000)));
    assert_eq!(state.last_tick_us, Some(24_000_000));
}

#[test]
fn empty_and_unrecognized_messages_are_ignored() {
    let mut state = ClockState::default();
    feed_ticks(&mut state, 0, 3, 1_000_000);
    let before = (state.status(), state.ticks, state.last_tick_us);
    state.observe(&[], 4_000_000);
    state.observe(&[0x90, 60, 100], 4_000_000);
    assert_eq!((state.status(), state.ticks, state.last_tick_us), before);
}

#[test]
fn out_of_order_timestamp_counts_as_zero_gap() {
    // An earlier timestamp than the previous tick is treated as a zero gap:
    // at the window close it publishes nothing.
    let mut state = ClockState::default();
    feed_ticks(&mut state, 1_000_000, 23, 1_000_000);
    state.observe(&TICK, 500_000);
    assert_eq!(state.status(), (false, None));
    assert_eq!(state.ticks, 0);
    assert_eq!(state.last_tick_us, Some(500_000));
}
