//! The output sink's device callback: drain what the input FIFO holds, up to
//! the device buffer's length, and fill the rest with silence.
use vstd::prelude::*;
use crate::convert::DeviceSample;
use crate::fifo::RingFifo;

verus! {

/// The device buffer of length `n` rendered from `queued`: each queued
/// sample converted to the device type, then silence.
pub open spec fn rendered<T: DeviceSample>(n: nat, queued: Seq<i32>) -> Seq<T> {
    Seq::new(n, |i: int| if i < queued.len() { T::from_sample_spec(queued[i]) } else { T::silence_spec() })
}

/// The number of samples one callback drains: `min(N, slots used)`.
pub fn drain_count(buffer_len: usize, slots_used: usize) -> (k: usize)
    ensures
        k == if buffer_len <= slots_used { buffer_len } else { slots_used },
{
    if buffer_len <= slots_used {
        buffer_len
    } else {
        slots_used
    }
}

/// Fills a device buffer from the samples drained for it: `data[i]` is the
/// conversion of `queued[i]` for `i < min(N, queued.len())`, and silence
/// after. Returns the number of samples taken from `queued`.
pub fn render_output<T: DeviceSample>(data: &mut [T], queued: &[i32]) -> (k: usize)
    ensures
        k == if old(data)@.len() <= queued@.len() { old(data)@.len() } else { queued@.len() },
        final(data)@ == rendered::<T>(old(data)@.len(), queued@),
{
    let n = data.len();
    let k = drain_count(n, queued.len());
    let silence = T::silence();
    let mut i: usize = 0;
    while i < n
        invariant
            0 <= i <= n,
            n == data@.len(),
            k <= queued@.len(),
            k == if n <= queued@.len() { n as nat } else { queued@.len() },
            silence == T::silence_spec(),
            forall|j: int| 0 <= j < i ==> #[trigger] data@[j] == rendered::<T>(n as nat, queued@)[j],
        decreases n - i,
    {
        if i < k {
            data[i] = T::from_sample(queued[i]);
        } else {
            data[i] = silence;
        }
        i = i + 1;
    }
    proof {
        assert(data@ =~= rendered::<T>(n as nat, queued@));
    }
    k
}

/// One sink callback against a FIFO: reads `k = min(N, slots used)` samples,
/// converts them into `data[0..k]` and fills `data[k..N]` with silence.
/// Returns `k`.
pub fn fill_from_fifo<T: DeviceSample>(data: &mut [T], fifo: &mut RingFifo) -> (k: usize)
    requires
        old(fifo).wf(),
    ensures
        final(fifo).wf(),
        final(fifo).capacity() == old(fifo).capacity(),
        final(fifo).written() == old(fifo).written(),
        k == if old(data)@.len() <= old(fifo).items().len() {
            old(data)@.len()
        } else {
            old(fifo).items().len()
        },
        final(fifo).items() == old(fifo).items().skip(k as int),
        final(fifo).read() == old(fifo).read() + old(fifo).items().take(k as int),
        final(data)@ == rendered::<T>(old(data)@.len(), old(fifo).items().take(k as int)),
{
    let k = drain_count(data.len(), fifo.slots_used());
    match fifo.read_exact(k) {
        Ok(queued) => {
            render_output(data, queued.as_slice());
            k
        },
        Err(_) => {
            proof {
                assert(false);
            }
            0
        },
    }
}

/// Silence law: a callback that finds nothing queued emits only the
/// format's silence value.
pub proof fn lemma_starved_callback_is_silent<T: DeviceSample>(n: nat)
    ensures
        rendered::<T>(n, Seq::<i32>::empty()) == Seq::new(n, |i: int| T::silence_spec()),
{
    assert(rendered::<T>(n, Seq::<i32>::empty()) =~= Seq::new(n, |i: int| T::silence_spec()));
}

} // verus!
