use my_ktv::resample::{deinterleave_into, duplicate_first_channel, pad_block, ResamplingHandler};

fn dup(first: &[i32], written: usize, channels: usize, free: usize) -> Vec<i32> {
    let mut out = Vec::new();
    duplicate_first_channel(first, written, channels, free, &mut out);
    out
}

#[test]
fn deinterleave_stereo_block() {
    let mut out = vec![99];
    deinterleave_into(&[1, 2, 3, 4, 5, 6], 2, &mut out);
    assert_eq!(out, vec![99, 1, 3, 5, 2, 4, 6]);
    let mut mono = Vec::new();
    deinterleave_into(&[9, 8], 1, &mut mono);
    assert_eq!(mono, vec![9, 8]);
}

#[test]
fn duplicate_mono_into_stereo_is_bit_exact() {
    let out = dup(&[10, -20, 30], 3, 2, 100);
    assert_eq!(out, vec![10, 10, -20, -20, 30, 30]);
    for frame in out.chunks(2) {
        assert_eq!(frame[0], frame[1]);
    }
}

#[test]
fn duplicate_stops_at_written_and_free_slots() {
    assert_eq!(dup(&[1, 2, 3, 4], 2, 3, 100), vec![1, 1, 1, 2, 2, 2]);
    assert_eq!(dup(&[1, 2, 3, 4], 4, 2, 5), vec![1, 1, 2, 2]);
    assert_eq!(dup(&[1, 2], 9, 1, 100), vec![1, 2]);
    assert_eq!(dup(&[1, 2], 2, 2, 1), Vec::<i32>::new());
    let mut out = vec![5];
    duplicate_first_channel(&[7], 1, 2, 2, &mut out);
    assert_eq!(out, vec![5, 7, 7]);
}

#[test]
fn handler_stages_and_drains_whole_blocks() {
    let mut h = ResamplingHandler::new(2, 2, 8, 2);
    let mut blocks = Vec::new();
    assert_eq!(h.process_packet(&[1i32, 2, 3], &mut blocks), (3, 0));
    assert!(blocks.is_empty());
    // Five slots are free: 9 and 10 are dropped.
    assert_eq!(h.process_packet(&[4i32, 5, 6, 7, 8, 9, 10], &mut blocks), (5, 2));
    assert_eq!(blocks, vec![1, 3, 2, 4, 5, 7, 6, 8]);
    blocks.clear();
    assert_eq!(h.process_packet(&[9i32, 10, 11, 12, 13], &mut blocks), (5, 1));
    // 13 stays staged: less than a block of four.
    assert_eq!(blocks, vec![9, 11, 10, 12]);
}

#[test]
fn handler_drops_what_does_not_fit() {
    let mut h = ResamplingHandler::new(1, 1, 4, 4);
    let mut blocks = Vec::new();
    assert_eq!(h.process_packet(&[1i32, 2, 3], &mut blocks), (3, 0));
    assert_eq!(h.process_packet(&[4i32, 5, 6], &mut blocks), (1, 1));
    assert_eq!(blocks, vec![1, 2, 3, 4]);
}

#[test]
fn handler_one_frame_blocks_leave_nothing_staged() {
    let mut h = ResamplingHandler::new(1, 2, 4, 1);
    let mut blocks = Vec::new();
    assert_eq!(h.process_packet(&[42i32], &mut blocks), (1, 1));
    assert_eq!(blocks, vec![42]);
    assert!(h.check_must_no_loss_data(0, 1));
}

#[test]
fn handler_converts_packets() {
    let mut h = ResamplingHandler::new(1, 2, 4, 2);
    let mut blocks = Vec::new();
    assert_eq!(h.process_packet(&[128u8, 192], &mut blocks), (2, 1));
    assert_eq!(h.process_packet(&[1i16, -1], &mut blocks), (2, 1));
    assert_eq!(blocks, vec![0, 0x4000_0000, 0x1_0000, -0x1_0000]);
}

#[test]
fn handler_predicates() {
    let mut h = ResamplingHandler::new(2, 2, 16, 4);
    let mut blocks = Vec::new();
    assert!(h.check_must_loss_all_data(1));
    assert!(!h.check_must_loss_all_data(2));
    assert_eq!(h.process_packet(&[0i32; 6], &mut blocks), (6, 0));
    // (4 + 6 / 2) * 2 = 14
    assert!(!h.check_must_no_loss_data(4, 14));
    assert!(h.check_must_no_loss_data(4, 15));
    assert!(!h.check_must_no_loss_data(usize::MAX, usize::MAX));
}

#[test]
fn handler_output_duplicates_channel_zero() {
    let h = ResamplingHandler::new(2, 3, 8, 2);
    let mut out = Vec::new();
    h.handle_output(&[7, 8], 2, 100, &mut out);
    assert_eq!(out, vec![7, 7, 7, 8, 8, 8]);
    out.clear();
    h.handle_output(&[7, 8], 2, 4, &mut out);
    assert_eq!(out, vec![7, 7, 7]);
}

#[test]
fn pad_block_fills_with_silence() {
    assert_eq!(pad_block(&[3i16, 4], 4), vec![3, 4, 0, 0]);
    assert_eq!(pad_block(&[200u8], 3), vec![200, 128, 128]);
    assert_eq!(pad_block(&[1i32, 2, 3], 2), vec![1, 2]);
}
