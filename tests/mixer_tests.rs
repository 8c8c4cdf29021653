use my_ktv::mixer::{mix_chunk as mix_into, MIX_CHUNK_SIZE};

fn mix_chunk(inputs: &Vec<Vec<i32>>, chunk: usize) -> Vec<i32> {
    let mut out = Vec::new();
    mix_into(inputs, chunk, &mut out);
    out
}
use my_ktv::worker::mixer_tick_ready;

const HALF: i32 = 1 << 30;

#[test]
fn mixer_two_equal_inputs_keep_level() {
    let inputs = vec![vec![HALF; MIX_CHUNK_SIZE], vec![HALF; MIX_CHUNK_SIZE]];
    let out = mix_chunk(&inputs, MIX_CHUNK_SIZE);
    assert_eq!(out, vec![HALF; MIX_CHUNK_SIZE]);
}

#[test]
fn mixer_third_input_averages_down() {
    let inputs = vec![
        vec![HALF; MIX_CHUNK_SIZE],
        vec![HALF; MIX_CHUNK_SIZE],
        vec![-HALF; MIX_CHUNK_SIZE],
    ];
    let out = mix_chunk(&inputs, MIX_CHUNK_SIZE);
    assert!(out.iter().all(|&s| s == 357_913_941));
    let level = out[0] as f64 / (1u64 << 31) as f64;
    assert!((level - 1.0 / 6.0).abs() < 1e-6);
}

#[test]
fn mixer_counts_only_inputs_with_samples() {
    let inputs = vec![vec![100, 200, 300], vec![-50], vec![]];
    assert_eq!(mix_chunk(&inputs, 4), vec![25, 200, 300, 0]);
    assert_eq!(mix_chunk(&vec![], 3), vec![0, 0, 0]);
    assert_eq!(mix_chunk(&vec![vec![-7, 7], vec![0, 0]], 2), vec![-3, 3]);
}

#[test]
fn mixer_extremes_stay_in_range() {
    let inputs = vec![vec![i32::MAX; 4], vec![i32::MAX; 4], vec![i32::MIN; 2]];
    let out = mix_chunk(&inputs, 4);
    assert_eq!(out[2], i32::MAX);
    assert_eq!(out[0], ((2 * i32::MAX as i64 + i32::MIN as i64) / 3) as i32);
}

#[test]
fn mixer_appends_after_existing_output() {
    let mut out = vec![1, 2];
    mix_into(&vec![vec![10, 20]], 2, &mut out);
    assert_eq!(out, vec![1, 2, 10, 20]);
}

#[test]
fn mixer_waits_for_room() {
    assert!(!mixer_tick_ready(63));
    assert!(mixer_tick_ready(64));
}
