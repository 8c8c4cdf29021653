use my_ktv::fifo::RingFifo;
use my_ktv::sink::{drain_count, fill_from_fifo, render_output};

#[test]
fn render_copies_then_silences() {
    let mut data = [9i16; 5];
    assert_eq!(render_output(&mut data, &[0x4000_0000, -0x1_0000]), 2);
    assert_eq!(data, [0x4000, -1, 0, 0, 0]);
    let mut bytes = [0u8; 3];
    assert_eq!(render_output(&mut bytes, &[]), 0);
    assert_eq!(bytes, [128, 128, 128]);
}

#[test]
fn render_takes_at_most_buffer_len() {
    let mut data = [0i32; 2];
    assert_eq!(render_output(&mut data, &[1, 2, 3]), 2);
    assert_eq!(data, [1, 2]);
    assert_eq!(drain_count(256, 100), 100);
    assert_eq!(drain_count(256, 1000), 256);
}

#[test]
fn sink_drains_fifo_in_order() {
    let mut f = RingFifo::new(8);
    f.write_slice(&[1, 2, 3]).unwrap();
    let mut data = [5i32; 2];
    assert_eq!(fill_from_fifo(&mut data, &mut f), 2);
    assert_eq!(data, [1, 2]);
    let mut data = [5i32; 4];
    assert_eq!(fill_from_fifo(&mut data, &mut f), 1);
    assert_eq!(data, [3, 0, 0, 0]);
    assert_eq!(f.slots_used(), 0);
}

#[test]
fn underrun_without_source_is_only_silence() {
    // 500 ms of 48 kHz stereo output in callbacks of 256 samples.
    let mut f = RingFifo::new(512);
    let mut total = 0usize;
    while total < 48_000 {
        let mut data = [7u8; 256];
        assert_eq!(fill_from_fifo(&mut data, &mut f), 0);
        assert!(data.iter().all(|&b| b == 128));
        let mut wide = [7i16; 256];
        assert_eq!(fill_from_fifo(&mut wide, &mut f), 0);
        assert!(wide.iter().all(|&s| s == 0));
        total += 256;
    }
}
