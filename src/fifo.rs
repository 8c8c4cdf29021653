//! Bounded single-producer/single-consumer sample FIFO.
use vstd::prelude::*;
use rtrb::{Consumer, Producer, RingBuffer};

verus! {

/// Both endpoints of one `rtrb` ring buffer of samples. The contents of such
/// a queue are shared by its two endpoints, so they are held together here.
#[verifier::external_body]
pub struct SampleQueue {
    producer: Producer<i32>,
    consumer: Consumer<i32>,
}

/// The samples held by a queue, oldest first.
pub uninterp spec fn queue_items(q: SampleQueue) -> Seq<i32>;

/// The number of samples a queue can hold.
pub uninterp spec fn queue_capacity(q: SampleQueue) -> nat;

impl SampleQueue {
    /// Relies on `rtrb::RingBuffer::new`: an empty queue of the given
    /// capacity. It allocates `capacity` slots and indexes up to twice the
    /// capacity, so larger capacities are left out.
    #[verifier::external_body]
    fn with_capacity(capacity: usize) -> (q: SampleQueue)
        requires
            capacity <= (isize::MAX as usize) / 4,
        ensures
            queue_items(q) == Seq::<i32>::empty(),
            queue_capacity(q) == capacity,
    {
        let (producer, consumer) = RingBuffer::new(capacity);
        SampleQueue { producer, consumer }
    }

    /// Relies on `rtrb::Producer::push`: appends the value when a slot is
    /// free, and otherwise fails and leaves the queue as it was.
    #[verifier::external_body]
    fn push(&mut self, value: i32) -> (ok: bool)
        ensures
            queue_capacity(*final(self)) == queue_capacity(*old(self)),
            ok == (queue_items(*old(self)).len() < queue_capacity(*old(self))),
            ok ==> queue_items(*final(self)) == queue_items(*old(self)).push(value),
            !ok ==> queue_items(*final(self)) == queue_items(*old(self)),
    {
        self.producer.push(value).is_ok()
    }

    /// Relies on `rtrb::Consumer::pop`: removes and returns the oldest value,
    /// or returns `None` when the queue is empty.
    #[verifier::external_body]
    fn pop(&mut self) -> (r: Option<i32>)
        ensures
            queue_capacity(*final(self)) == queue_capacity(*old(self)),
            queue_items(*old(self)).len() == 0 ==> r is None && queue_items(*final(self))
                == queue_items(*old(self)),
            queue_items(*old(self)).len() > 0 ==> r == Some(queue_items(*old(self))[0])
                && queue_items(*final(self)) == queue_items(*old(self)).drop_first(),
    {
        self.consumer.pop().ok()
    }

    /// Relies on `rtrb::Producer::slots`: the number of free slots. Both
    /// endpoints are held here, so the count is exact.
    #[verifier::external_body]
    fn free_slots(&self) -> (n: usize)
        ensures
            n == queue_capacity(*self) - queue_items(*self).len(),
    {
        self.producer.slots()
    }

    /// Relies on `rtrb::Consumer::slots`: the number of samples held.
    #[verifier::external_body]
    fn used_slots(&self) -> (n: usize)
        ensures
            n == queue_items(*self).len(),
    {
        self.consumer.slots()
    }

    /// Relies on `rtrb::Producer::push_entire_slice`: appends all of `values`
    /// when enough slots are free, and otherwise fails and changes nothing.
    #[verifier::external_body]
    fn push_all(&mut self, values: &[i32]) -> (ok: bool)
        ensures
            queue_capacity(*final(self)) == queue_capacity(*old(self)),
            ok == (queue_items(*old(self)).len() + values@.len() <= queue_capacity(*old(self))),
            ok ==> queue_items(*final(self)) == queue_items(*old(self)) + values@,
            !ok ==> queue_items(*final(self)) == queue_items(*old(self)),
    {
        self.producer.push_entire_slice(values).is_ok()
    }

    /// Relies on `rtrb::Consumer::read_chunk` and the chunk's iterator, whose
    /// drop commits the items it yielded: removes and returns the `n` oldest
    /// values, or fails and changes nothing when fewer are held.
    #[verifier::external_body]
    fn pop_many(&mut self, n: usize) -> (r: Option<Vec<i32>>)
        ensures
            queue_capacity(*final(self)) == queue_capacity(*old(self)),
            n <= queue_items(*old(self)).len() ==> r is Some && r->Some_0@ == queue_items(
                *old(self),
            ).take(n as int),
            n <= queue_items(*old(self)).len() ==> queue_items(*final(self)) == queue_items(
                *old(self),
            ).skip(n as int),
            n > queue_items(*old(self)).len() ==> r is None && queue_items(*final(self))
                == queue_items(*old(self)),
    {
        self.consumer.read_chunk(n).ok().map(|chunk| chunk.into_iter().collect())
    }
}

/// Why a FIFO operation did not take place.
#[derive(Clone, Copy, Debug, PartialEq, Eq, Structural)]
pub enum FifoError {
    /// Not enough free slots for the write.
    Full,
    /// Not enough samples held for the read.
    Empty,
}

/// A bounded single-producer/single-consumer FIFO of samples. Besides the
/// samples it holds, it keeps (as ghost state) every sample ever written and
/// every sample ever read, in order.
pub struct RingFifo {
    queue: SampleQueue,
    written: Ghost<Seq<i32>>,
    read: Ghost<Seq<i32>>,
}

impl RingFifo {
    /// The samples held, oldest first.
    pub closed spec fn items(&self) -> Seq<i32> {
        queue_items(self.queue)
    }

    /// The number of samples the FIFO can hold.
    pub closed spec fn capacity(&self) -> nat {
        queue_capacity(self.queue)
    }

    /// Every sample written so far, in order.
    pub closed spec fn written(&self) -> Seq<i32> {
        self.written@
    }

    /// Every sample read so far, in order.
    pub closed spec fn read(&self) -> Seq<i32> {
        self.read@
    }

    /// The free-slot count.
    pub open spec fn free_count(&self) -> int {
        self.capacity() - self.items().len()
    }

    /// Well-formedness: never over capacity, and what was read followed by
    /// what is held is exactly what was written.
    pub closed spec fn wf(&self) -> bool {
        &&& self.items().len() <= self.capacity()
        &&& self.read() + self.items() == self.written()
    }

    /// An empty FIFO with room for `capacity` samples.
    pub fn new(capacity: usize) -> (f: RingFifo)
        requires
            capacity <= (isize::MAX as usize) / 4,
        ensures
            f.wf(),
            f.capacity() == capacity,
            f.items() == Seq::<i32>::empty(),
            f.written() == Seq::<i32>::empty(),
            f.read() == Seq::<i32>::empty(),
    {
        let f = RingFifo {
            queue: SampleQueue::with_capacity(capacity),
            written: Ghost(Seq::empty()),
            read: Ghost(Seq::empty()),
        };
        assert(f.read() + f.items() =~= f.written());
        f
    }

    /// The number of free slots.
    pub fn slots_free(&self) -> (n: usize)
        requires
            self.wf(),
        ensures
            n == self.free_count(),
    {
        self.queue.free_slots()
    }

    /// The number of samples held.
    pub fn slots_used(&self) -> (n: usize)
        requires
            self.wf(),
        ensures
            n == self.items().len(),
    {
        self.queue.used_slots()
    }

    /// Appends one sample; fails with `Full` when no slot is free.
    pub fn push(&mut self, value: i32) -> (r: Result<(), FifoError>)
        requires
            old(self).wf(),
        ensures
            final(self).wf(),
            final(self).capacity() == old(self).capacity(),
            final(self).read() == old(self).read(),
            r is Ok <==> old(self).items().len() < old(self).capacity(),
            r is Ok ==> final(self).items() == old(self).items().push(value)
                && final(self).written() == old(self).written().push(value),
            r is Err ==> r == Err::<(), FifoError>(FifoError::Full) && final(self).items()
                == old(self).items() && final(self).written() == old(self).written(),
    {
        if self.queue.push(value) {
            self.written = Ghost(self.written@.push(value));
            assert(self.read() + self.items() =~= self.written());
            Ok(())
        } else {
            Err(FifoError::Full)
        }
    }

    /// Removes and returns the oldest sample; fails with `Empty` when none
    /// is held.
    pub fn pop(&mut self) -> (r: Result<i32, FifoError>)
        requires
            old(self).wf(),
        ensures
            final(self).wf(),
            final(self).capacity() == old(self).capacity(),
            final(self).written() == old(self).written(),
            r is Ok <==> old(self).items().len() > 0,
            r is Ok ==> r == Ok::<i32, FifoError>(old(self).items()[0]) && final(self).items()
                == old(self).items().drop_first() && final(self).read() == old(self).read().push(
                old(self).items()[0],
            ),
            r is Err ==> r == Err::<i32, FifoError>(FifoError::Empty) && final(self).items()
                == old(self).items() && final(self).read() == old(self).read(),
    {
        let ghost first = self.items();
        match self.queue.pop() {
            Some(v) => {
                self.read = Ghost(self.read@.push(v));
                assert(self.read() + self.items() =~= self.written()) by {
                    assert(first =~= seq![v] + self.items());
                }
                Ok(v)
            },
            None => Err(FifoError::Empty),
        }
    }

    /// Appends all of `values`, or nothing: fails with `Full` when
    /// `values.len()` exceeds the free-slot count.
    pub fn write_slice(&mut self, values: &[i32]) -> (r: Result<(), FifoError>)
        requires
            old(self).wf(),
        ensures
            final(self).wf(),
            final(self).capacity() == old(self).capacity(),
            final(self).read() == old(self).read(),
            r is Ok <==> values@.len() <= old(self).free_count(),
            r is Ok ==> final(self).items() == old(self).items() + values@
                && final(self).written() == old(self).written() + values@,
            r is Err ==> r == Err::<(), FifoError>(FifoError::Full) && final(self).items()
                == old(self).items() && final(self).written() == old(self).written(),
    {
        if self.queue.push_all(values) {
            self.written = Ghost(self.written@ + values@);
            assert(self.read() + self.items() =~= self.written());
            Ok(())
        } else {
            Err(FifoError::Full)
        }
    }

    /// Removes and returns the `n` oldest samples, or nothing: fails with
    /// `Empty` when fewer than `n` are held.
    pub fn read_exact(&mut self, n: usize) -> (r: Result<Vec<i32>, FifoError>)
        requires
            old(self).wf(),
        ensures
            final(self).wf(),
            final(self).capacity() == old(self).capacity(),
            final(self).written() == old(self).written(),
            r is Ok <==> n <= old(self).items().len(),
            r is Ok ==> r->Ok_0@ == old(self).items().take(n as int) && final(self).items()
                == old(self).items().skip(n as int) && final(self).read() == old(self).read()
                + old(self).items().take(n as int),
            r is Err ==> r == Err::<Vec<i32>, FifoError>(FifoError::Empty) && final(self).items()
                == old(self).items() && final(self).read() == old(self).read(),
    {
        let ghost before = self.items();
        match self.queue.pop_many(n) {
            Some(v) => {
                self.read = Ghost(self.read@ + v@);
                assert(self.read() + self.items() =~= self.written()) by {
                    assert(before =~= before.take(n as int) + before.skip(n as int));
                }
                Ok(v)
            },
            None => Err(FifoError::Empty),
        }
    }
}

/// Every sample read from a FIFO was written to it, in the same order: the
/// sequence read is a prefix of the sequence written.
pub proof fn lemma_read_is_prefix_of_written(f: &RingFifo)
    requires
        f.wf(),
    ensures
        f.read().len() <= f.written().len(),
        f.read() == f.written().take(f.read().len() as int),
{
    assert(f.read() =~= (f.read() + f.items()).take(f.read().len() as int));
}

/// At all times the used and free slot counts add up to the capacity.
pub proof fn lemma_slots_add_up(f: &RingFifo)
    requires
        f.wf(),
    ensures
        f.items().len() + f.free_count() == f.capacity(),
        0 <= f.free_count(),
{
}

} // verus!
