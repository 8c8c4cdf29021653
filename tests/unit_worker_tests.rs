use my_ktv::resample::ResamplingHandler;
use my_ktv::unit::{AudioUnit, SAMPLES_PER_UNIT};
use my_ktv::worker::{file_worker_step, FileWorkerAction};

#[test]
fn unit_starts_silent() {
    let mut u: AudioUnit<2> = AudioUnit::new();
    assert_eq!(u.get_channel_len(), 2);
    assert_eq!(u.raw_data().len(), SAMPLES_PER_UNIT);
    assert!(u.raw_data().iter().all(|f| f == &[0, 0]));
    u.frames[3] = [5, -5];
    assert_eq!(u.raw_data()[3], [5, -5]);
    u.fill_with_zero();
    assert!(u.raw_data().iter().all(|f| f == &[0, 0]));
    assert_eq!(u.meta.channel_cnt, 0);
}

#[test]
fn file_worker_decisions() {
    let mut h = ResamplingHandler::new(2, 2, 64, 8);
    assert_eq!(file_worker_step(false, false, &h, 8, 1000), FileWorkerAction::Exit);
    assert_eq!(file_worker_step(true, true, &h, 8, 1000), FileWorkerAction::Exit);
    assert_eq!(file_worker_step(true, false, &h, 8, 17), FileWorkerAction::Submit);
    assert_eq!(file_worker_step(true, false, &h, 8, 16), FileWorkerAction::Wait);
    let mut blocks = Vec::new();
    h.process_packet(&[0i32; 4], &mut blocks);
    // (8 + 4 / 2) * 2 = 20
    assert_eq!(file_worker_step(true, false, &h, 8, 20), FileWorkerAction::Wait);
    assert_eq!(file_worker_step(true, false, &h, 8, 21), FileWorkerAction::Submit);
}
