use midi_clock::messages::{cc_frame, channel_nibble, data7, pc_frame};

#[test]
fn cc_clamps_out_of_range_data_bytes() {
    // Control and value above the 7-bit range are saturated to 127 and the
    // frame is transmitted on channel 1 (status 0xB0), never rejected.
    let frame = cc_frame(1, 200, 255);
    assert_eq!(frame, vec![0xB0, 127, 127]);
}

#[test]
fn cc_passes_in_range_data_bytes_through() {
    let frame = cc_frame(2, 64, 100);
    assert_eq!(frame, vec![0xB1, 64, 100]);
}

#[test]
fn pc_channel_16_maps_to_status_nibble_f() {
    let frame = pc_frame(16, 0);
    assert_eq!(frame, vec![0xCF, 0x00]);
}

#[test]
fn pc_clamps_program_byte() {
    let frame = pc_frame(1, 200);
    assert_eq!(frame, vec![0xC0, 127]);
}

#[test]
fn channel_zero_saturates_to_nibble_zero() {
    assert_eq!(channel_nibble(0), 0);
    assert_eq!(cc_frame(0, 1, 2), vec![0xB0, 1, 2]);
}

#[test]
fn channel_above_16_wraps_into_four_bits() {
    assert_eq!(channel_nibble(17), 0);
    assert_eq!(channel_nibble(18), 1);
}

#[test]
fn data7_boundary() {
    assert_eq!(data7(127), 127);
    assert_eq!(data7(128), 127);
    assert_eq!(data7(0), 0);
}
