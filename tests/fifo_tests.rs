use my_ktv::fifo::{FifoError, RingFifo};

#[test]
fn fifo_pops_in_push_order() {
    let mut f = RingFifo::new(8);
    for v in [5, -7, 11] {
        assert_eq!(f.push(v), Ok(()));
    }
    assert_eq!(f.pop(), Ok(5));
    assert_eq!(f.pop(), Ok(-7));
    assert_eq!(f.pop(), Ok(11));
    assert_eq!(f.pop(), Err(FifoError::Empty));
}

#[test]
fn fifo_full_rejects_push() {
    let mut f = RingFifo::new(2);
    assert_eq!(f.push(1), Ok(()));
    assert_eq!(f.push(2), Ok(()));
    assert_eq!(f.push(3), Err(FifoError::Full));
    assert_eq!(f.slots_used(), 2);
    assert_eq!(f.pop(), Ok(1));
    assert_eq!(f.push(3), Ok(()));
    assert_eq!(f.pop(), Ok(2));
    assert_eq!(f.pop(), Ok(3));
}

#[test]
fn fifo_slots_add_up_to_capacity() {
    let mut f = RingFifo::new(16);
    assert_eq!(f.slots_used() + f.slots_free(), 16);
    f.write_slice(&[1, 2, 3, 4, 5]).unwrap();
    assert_eq!(f.slots_used(), 5);
    assert_eq!(f.slots_free(), 11);
    f.pop().unwrap();
    assert_eq!(f.slots_used() + f.slots_free(), 16);
}

#[test]
fn fifo_bulk_write_is_all_or_nothing() {
    let mut f = RingFifo::new(4);
    assert_eq!(f.write_slice(&[1, 2, 3]), Ok(()));
    assert_eq!(f.write_slice(&[4, 5]), Err(FifoError::Full));
    assert_eq!(f.slots_used(), 3);
    assert_eq!(f.write_slice(&[4]), Ok(()));
    assert_eq!(f.read_exact(5), Err(FifoError::Empty));
    assert_eq!(f.read_exact(2), Ok(vec![1, 2]));
    assert_eq!(f.write_slice(&[6, 7]), Ok(()));
    assert_eq!(f.read_exact(4), Ok(vec![3, 4, 6, 7]));
    assert_eq!(f.slots_used(), 0);
}

#[test]
fn fifo_read_is_prefix_of_written_across_wrap() {
    let mut f = RingFifo::new(4);
    let mut written = Vec::new();
    let mut read = Vec::new();
    for round in 0..10 {
        for k in 0..3 {
            let v = round * 10 + k;
            if f.push(v).is_ok() {
                written.push(v);
            }
        }
        for _ in 0..2 {
            if let Ok(v) = f.pop() {
                read.push(v);
            }
        }
        assert_eq!(&written[..read.len()], &read[..]);
    }
}

#[test]
fn fifo_zero_capacity_is_always_full() {
    let mut f = RingFifo::new(0);
    assert_eq!(f.push(1), Err(FifoError::Full));
    assert_eq!(f.pop(), Err(FifoError::Empty));
    assert_eq!(f.slots_free(), 0);
}
