//! The sample-rate/channel conversion stage around the resampler: a staging
//! FIFO that absorbs packets of any size and releases fixed-size blocks,
//! deinterleaving into planar channels, the remap of resampled output onto
//! the target channel count, and the flow-control predicates of producers.
use vstd::prelude::*;
use crate::convert::DeviceSample;
use crate::fifo::RingFifo;

verus! {

/// Planar form of an interleaved block of `frames` frames: channel after
/// channel, so position `c * frames + f` holds `s[f * channels + c]`.
pub open spec fn planar(s: Seq<i32>, channels: nat, frames: nat) -> Seq<i32>
    recommends
        frames > 0,
{
    Seq::new(channels * frames, |i: int| s[(i % frames as int) * channels + i / frames as int])
}

/// The first `m` blocks of `frames` frames of `channels` samples in `s`,
/// each in planar form, one after another.
pub open spec fn planar_blocks(s: Seq<i32>, channels: nat, frames: nat, m: nat) -> Seq<i32>
    decreases m,
{
    if m == 0 {
        Seq::empty()
    } else {
        let len = channels * frames;
        planar_blocks(s, channels, frames, (m - 1) as nat) + planar(
            s.subrange((m - 1) * len, (m * len) as int),
            channels,
            frames,
        )
    }
}

/// `frames` frames of `channels` samples each, every sample of frame `f`
/// being `first[f]`: channel 0 duplicated onto every target channel.
pub open spec fn duplicated(first: Seq<i32>, frames: nat, channels: nat) -> Seq<i32> {
    Seq::new(frames * channels, |i: int| first[i / channels as int])
}

/// Number of frames the remap emits: no more than the resampler wrote, than
/// channel 0 holds, nor than fit whole into `free_slots`.
pub open spec fn frames_to_emit(first_len: nat, written: nat, channels: nat, free_slots: nat) -> nat
    recommends
        channels > 0,
{
    let room = free_slots / channels;
    if written <= first_len && written <= room {
        written
    } else if first_len <= room {
        first_len
    } else {
        room
    }
}

/// Position `c * frames + f` of a planar block is channel `c`, frame `f`.
proof fn lemma_planar_index(c: int, f: int, frames: int)
    requires
        0 <= c,
        0 <= f < frames,
    ensures
        (c * frames + f) / frames == c,
        (c * frames + f) % frames == f,
{
    vstd::arithmetic::div_mod::lemma_fundamental_div_mod_converse(c * frames + f, frames, c, f);
}

/// Appends the planar form of an interleaved block of `channels`-sample
/// frames to `out`: all of channel 0, then all of channel 1, and so on.
pub fn deinterleave_into(block: &[i32], channels: usize, out: &mut Vec<i32>)
    requires
        channels > 0,
        block@.len() > 0,
        (block@.len() as int) % (channels as int) == 0,
    ensures
        final(out)@ == old(out)@ + planar(
            block@,
            channels as nat,
            (block@.len() as int / channels as int) as nat,
        ),
{
    let frames = block.len() / channels;
    proof {
        assert(frames * channels == block@.len() && frames > 0) by (nonlinear_arith)
            requires
                frames == (block@.len() as int) / (channels as int),
                (block@.len() as int) % (channels as int) == 0,
                channels > 0,
                block@.len() > 0,
        ;
    }
    let ghost base = out@;
    let ghost want = planar(block@, channels as nat, frames as nat);
    let mut c: usize = 0;
    while c < channels
        invariant
            0 <= c <= channels,
            frames > 0,
            frames * channels == block@.len(),
            block@.len() <= usize::MAX,
            want == planar(block@, channels as nat, frames as nat),
            out@ == base + want.take(c * frames),
            c * frames <= want.len(),
        decreases channels - c,
    {
        let mut f: usize = 0;
        while f < frames
            invariant
                0 <= f <= frames,
                c < channels,
                frames > 0,
                frames * channels == block@.len(),
                block@.len() <= usize::MAX,
                want == planar(block@, channels as nat, frames as nat),
                c * frames + f <= want.len(),
                out@ == base + want.take(c * frames + f),
            decreases frames - f,
        {
            proof {
                assert(f * channels + c < block@.len() && c * frames + f < channels * frames)
                    by (nonlinear_arith)
                    requires
                        f < frames,
                        c < channels,
                        frames * channels == block@.len(),
                ;
                lemma_planar_index(c as int, f as int, frames as int);
            }
            out.push(block[f * channels + c]);
            proof {
                assert(want[c * frames + f] == block@[f * channels + c]);
                assert(out@ =~= base + want.take(c * frames + f + 1));
            }
            f = f + 1;
        }
        proof {
            assert((c + 1) * frames == c * frames + frames && (c + 1) * frames <= channels * frames)
                by (nonlinear_arith)
                requires
                    c < channels,
                    frames > 0,
            ;
        }
        c = c + 1;
    }
    proof {
        assert(channels * frames == want.len());
        assert(want.take(channels * frames) =~= want);
    }
}

/// Maps resampled output onto the target channel count by duplicating
/// channel 0: appends to `out` `frames_to_emit` frames, each made of
/// `channels` copies of the corresponding sample of `first_channel`.
pub fn duplicate_first_channel(
    first_channel: &[i32],
    written: usize,
    channels: usize,
    free_slots: usize,
    out: &mut Vec<i32>,
)
    requires
        channels > 0,
    ensures
        final(out)@ == old(out)@ + duplicated(
            first_channel@,
            frames_to_emit(first_channel@.len(), written as nat, channels as nat, free_slots as nat),
            channels as nat,
        ),
{
    let ghost n = frames_to_emit(
        first_channel@.len(),
        written as nat,
        channels as nat,
        free_slots as nat,
    );
    let ghost base = out@;
    let mut free = free_slots;
    let mut not_sent = written;
    let mut idx: usize = 0;
    proof {
        assert(n <= first_channel@.len());
        assert(n * channels <= free_slots) by (nonlinear_arith)
            requires
                n <= (free_slots as int) / (channels as int),
                channels > 0,
        ;
    }
    while idx < first_channel.len()
        invariant
            channels > 0,
            0 <= idx <= first_channel@.len(),
            n == frames_to_emit(first_channel@.len(), written as nat, channels as nat, free_slots as nat),
            idx <= n,
            not_sent == written - idx,
            free == free_slots - idx * channels,
            out@ == base + duplicated(first_channel@, idx as nat, channels as nat),
        ensures
            idx == n,
            out@ == base + duplicated(first_channel@, idx as nat, channels as nat),
        decreases first_channel@.len() - idx,
    {
        if free < channels {
            proof {
                assert(idx == n) by (nonlinear_arith)
                    requires
                        free == free_slots - idx * channels,
                        free < channels,
                        idx <= n,
                        n <= (free_slots as int) / (channels as int),
                        channels > 0,
                ;
            }
            break;
        }
        if not_sent == 0 {
            break;
        }
        let v = first_channel[idx];
        let mut k: usize = 0;
        while k < channels
            invariant
                0 <= k <= channels,
                channels > 0,
                idx < first_channel@.len(),
                v == first_channel@[idx as int],
                out@ == base + duplicated(first_channel@, idx as nat, channels as nat) + Seq::new(
                    k as nat,
                    |j: int| v,
                ),
            decreases channels - k,
        {
            out.push(v);
            proof {
                assert(out@ =~= base + duplicated(first_channel@, idx as nat, channels as nat)
                    + Seq::new((k + 1) as nat, |j: int| v));
            }
            k = k + 1;
        }
        proof {
            lemma_duplicated_extend(first_channel@, idx as nat, channels as nat);
            assert(out@ =~= base + duplicated(first_channel@, (idx + 1) as nat, channels as nat));
            assert(idx + 1 <= n) by (nonlinear_arith)
                requires
                    free == free_slots - idx * channels,
                    free >= channels,
                    not_sent > 0,
                    not_sent == written - idx,
                    idx < first_channel@.len(),
                    n == frames_to_emit(first_channel@.len(), written as nat, channels as nat, free_slots as nat),
                    channels > 0,
            ;
            assert((idx + 1) * channels == idx * channels + channels) by (nonlinear_arith);
        }
        free = free - channels;
        not_sent = not_sent - 1;
        idx = idx + 1;
    }
    proof {
        assert(out@ =~= base + duplicated(first_channel@, n, channels as nat));
    }
}

/// Appending one frame to the duplicated output.
proof fn lemma_duplicated_extend(first: Seq<i32>, n: nat, channels: nat)
    requires
        channels > 0,
        n < first.len(),
    ensures
        duplicated(first, n + 1, channels) == duplicated(first, n, channels) + Seq::new(
            channels,
            |j: int| first[n as int],
        ),
{
    let lhs = duplicated(first, n + 1, channels);
    let rhs = duplicated(first, n, channels) + Seq::new(channels, |j: int| first[n as int]);
    assert((n + 1) * channels == n * channels + channels) by (nonlinear_arith);
    assert forall|i: int| 0 <= i < lhs.len() implies lhs[i] == rhs[i] by {
        if i < n * channels {
            assert(i / (channels as int) < n) by (nonlinear_arith)
                requires
                    0 <= i < n * channels,
                    channels > 0,
            ;
        } else {
            assert(i / (channels as int) == n) by (nonlinear_arith)
                requires
                    n * channels <= i < n * channels + channels,
                    channels > 0,
            ;
        }
    }
    assert(lhs =~= rhs);
}

/// The conversion of every device value of `s` to an engine sample.
pub open spec fn to_samples<T: DeviceSample>(s: Seq<T>) -> Seq<i32> {
    Seq::new(s.len(), |i: int| T::to_sample_spec(s[i]))
}

/// A block of exactly `len` values: those of `s` that fit, then silence.
pub open spec fn padded<T: DeviceSample>(s: Seq<T>, len: nat) -> Seq<T> {
    Seq::new(len, |i: int| if i < s.len() { s[i] } else { T::silence_spec() })
}

/// The next decoder block: the first `len` values of `samples`, padded with
/// silence when the decoder ended before `len` values.
pub fn pad_block<T: DeviceSample>(samples: &[T], len: usize) -> (block: Vec<T>)
    ensures
        block@ == padded(samples@, len as nat),
{
    let silence = T::silence();
    let mut block: Vec<T> = Vec::new();
    let mut i: usize = 0;
    while i < len
        invariant
            0 <= i <= len,
            silence == T::silence_spec(),
            block@ == padded(samples@, i as nat),
        decreases len - i,
    {
        if i < samples.len() {
            block.push(samples[i]);
        } else {
            block.push(silence);
        }
        proof {
            assert(block@ =~= padded(samples@, (i + 1) as nat));
        }
        i = i + 1;
    }
    block
}

/// The staging and channel-mapping half of the resampling stage. Packets of
/// any size are staged in a FIFO; whole blocks of `block_frames` frames of
/// `src_channels` samples leave it deinterleaved for the resampler; the
/// resampler's channel 0 is then spread over `target_channels` channels.
pub struct ResamplingHandler {
    staging: RingFifo,
    block_buf: Vec<i32>,
    block_frames: usize,
    src_channels_cnt: usize,
    target_channels_cnt: usize,
}

impl ResamplingHandler {
    /// The samples staged, oldest first.
    pub closed spec fn staged(&self) -> Seq<i32> {
        self.staging.items()
    }

    /// Room of the staging FIFO, in samples.
    pub closed spec fn staging_capacity(&self) -> nat {
        self.staging.capacity()
    }

    /// Frames per resampler block.
    pub closed spec fn block_frames(&self) -> nat {
        self.block_frames as nat
    }

    /// Channels of the incoming packets.
    pub closed spec fn src_channels(&self) -> nat {
        self.src_channels_cnt as nat
    }

    /// Channels of the downstream FIFO.
    pub closed spec fn target_channels(&self) -> nat {
        self.target_channels_cnt as nat
    }

    /// Samples in one resampler block.
    pub open spec fn block_len(&self) -> nat {
        self.block_frames() * self.src_channels()
    }

    /// Well-formedness: the counts are positive and one block fits in the
    /// staging FIFO.
    pub closed spec fn wf(&self) -> bool {
        &&& self.staging.wf()
        &&& self.block_frames > 0
        &&& self.src_channels_cnt > 0
        &&& self.target_channels_cnt > 0
        &&& self.block_frames * self.src_channels_cnt <= self.staging.capacity()
        &&& self.staging.capacity() <= usize::MAX
    }

    /// A handler for packets of `src_channels` channels feeding a FIFO of
    /// `target_channels` channels, with blocks of `block_frames` frames and a
    /// staging FIFO of `staging_capacity` samples, which must hold a block.
    pub fn new(
        src_channels: u16,
        target_channels: u16,
        staging_capacity: usize,
        block_frames: usize,
    ) -> (h: ResamplingHandler)
        requires
            src_channels > 0,
            target_channels > 0,
            block_frames > 0,
            block_frames * src_channels <= staging_capacity,
            staging_capacity <= (isize::MAX as usize) / 4,
        ensures
            h.wf(),
            h.staged() == Seq::<i32>::empty(),
            h.staging_capacity() == staging_capacity,
            h.block_frames() == block_frames,
            h.src_channels() == src_channels,
            h.target_channels() == target_channels,
    {
        ResamplingHandler {
            staging: RingFifo::new(staging_capacity),
            block_buf: Vec::with_capacity(block_frames * src_channels as usize),
            block_frames,
            src_channels_cnt: src_channels as usize,
            target_channels_cnt: target_channels as usize,
        }
    }

    /// Converts a packet to engine samples and stages as much of it as fits
    /// (`min(packet length, free staging slots)` samples, the rest being
    /// dropped); then takes every whole block out of the staging FIFO and
    /// appends it, in planar form, to `blocks`. Returns the number of samples
    /// staged and the number of blocks taken. Less than a block stays staged.
    pub fn process_packet<T: DeviceSample>(&mut self, input_data: &[T], blocks: &mut Vec<i32>) -> (r: (
        usize,
        usize,
    ))
        requires
            old(self).wf(),
        ensures
            final(self).wf(),
            final(self).staging_capacity() == old(self).staging_capacity(),
            final(self).block_frames() == old(self).block_frames(),
            final(self).src_channels() == old(self).src_channels(),
            final(self).target_channels() == old(self).target_channels(),
            r.0 as int == if input_data@.len() <= old(self).staging_capacity()
                - old(self).staged().len() {
                input_data@.len() as int
            } else {
                old(self).staging_capacity() - old(self).staged().len()
            },
            ({
                let all = old(self).staged() + to_samples(input_data@.take(r.0 as int));
                &&& r.1 as int == all.len() as int / old(self).block_len() as int
                &&& final(self).staged() == all.skip(r.1 * old(self).block_len())
                &&& final(blocks)@ == old(blocks)@ + planar_blocks(
                    all,
                    old(self).src_channels(),
                    old(self).block_frames(),
                    r.1 as nat,
                )
            }),
            final(self).staged().len() < final(self).block_len(),
    {
        let free = self.staging.slots_free();
        let n = if input_data.len() <= free {
            input_data.len()
        } else {
            free
        };
        let ghost before = self.staged();
        let mut i: usize = 0;
        while i < n
            invariant
                0 <= i <= n,
                n <= input_data@.len(),
                n <= self.staging.capacity() - before.len(),
                self.wf(),
                self.staging.capacity() == old(self).staging_capacity(),
                self.block_frames == old(self).block_frames,
                self.src_channels_cnt == old(self).src_channels_cnt,
                self.target_channels_cnt == old(self).target_channels_cnt,
                self.staged() == before + to_samples(input_data@.take(i as int)),
            decreases n - i,
        {
            let r = self.staging.push(T::to_sample(input_data[i]));
            assert(r is Ok);
            proof {
                assert(self.staged() =~= before + to_samples(input_data@.take(i + 1)));
            }
            i = i + 1;
        }
        let ghost all = self.staged();
        let need = self.block_frames * self.src_channels_cnt;
        let ghost base = blocks@;
        let mut m: usize = 0;
        while self.staging.slots_used() >= need
            invariant
                self.wf(),
                self.staging.capacity() == old(self).staging_capacity(),
                self.block_frames == old(self).block_frames,
                self.src_channels_cnt == old(self).src_channels_cnt,
                self.target_channels_cnt == old(self).target_channels_cnt,
                need == self.block_frames * self.src_channels_cnt,
                m * need <= all.len(),
                all.len() <= usize::MAX,
                self.staged() == all.skip(m * need),
                blocks@ == base + planar_blocks(
                    all,
                    self.src_channels_cnt as nat,
                    self.block_frames as nat,
                    m as nat,
                ),
            decreases self.staged().len(),
        {
            let ghost start = self.staged();
            self.block_buf.clear();
            let mut j: usize = 0;
            while j < need
                invariant
                    0 <= j <= need,
                    need <= start.len(),
                    self.wf(),
                    self.staging.capacity() == old(self).staging_capacity(),
                    self.block_frames == old(self).block_frames,
                    self.src_channels_cnt == old(self).src_channels_cnt,
                    self.target_channels_cnt == old(self).target_channels_cnt,
                    need == self.block_frames * self.src_channels_cnt,
                    self.staged() == start.skip(j as int),
                    self.block_buf@ == start.take(j as int),
                decreases need - j,
            {
                match self.staging.pop() {
                    Ok(v) => {
                        self.block_buf.push(v);
                        proof {
                            assert(self.block_buf@ =~= start.take(j + 1));
                            assert(self.staged() =~= start.skip(j + 1));
                        }
                    },
                    Err(_) => {
                        proof {
                            assert(false);
                        }
                    },
                }
                j = j + 1;
            }
            proof {
                assert((self.block_buf@.len() as int) % (self.src_channels_cnt as int) == 0
                    && (self.block_buf@.len() as int) / (self.src_channels_cnt as int)
                    == self.block_frames && self.block_buf@.len() > 0) by (nonlinear_arith)
                    requires
                        self.block_buf@.len() == self.block_frames * self.src_channels_cnt,
                        self.src_channels_cnt > 0,
                        self.block_frames > 0,
                ;
                assert((m + 1) * need == m * need + need) by (nonlinear_arith);
                assert(start.take(need as int) =~= all.subrange(m * need, (m + 1) * need));
                assert(self.staged() =~= all.skip((m + 1) * need));
            }
            deinterleave_into(self.block_buf.as_slice(), self.src_channels_cnt, blocks);
            proof {
                assert(blocks@ =~= base + planar_blocks(
                    all,
                    self.src_channels_cnt as nat,
                    self.block_frames as nat,
                    (m + 1) as nat,
                ));
            }
            proof {
                assert(m + 1 <= (m + 1) * need) by (nonlinear_arith)
                    requires
                        need >= 1,
                        m >= 0,
                ;
            }
            m = m + 1;
        }
        proof {
            vstd::arithmetic::div_mod::lemma_fundamental_div_mod_converse(
                all.len() as int,
                need as int,
                m as int,
                all.len() - m * need,
            );
        }
        (n, m)
    }

    /// Whether a real-time producer must drop its whole packet: the
    /// downstream FIFO has less than one target frame of room.
    pub fn check_must_loss_all_data(&self, downstream_free: usize) -> (r: bool)
        requires
            self.wf(),
        ensures
            r == (downstream_free < self.target_channels()),
    {
        downstream_free < self.target_channels_cnt
    }

    /// Whether `to_write` more frames can be accepted without loss: the
    /// frames staged and to come, spread over the target channels, stay
    /// below the downstream free-slot count.
    pub fn check_must_no_loss_data(&self, to_write: usize, downstream_free: usize) -> (r: bool)
        requires
            self.wf(),
        ensures
            r == ((to_write + self.staged().len() / self.src_channels()) * self.target_channels()
                < downstream_free),
    {
        let staged_frames = self.staging.slots_used() / self.src_channels_cnt;
        match to_write.checked_add(staged_frames) {
            Some(frames) => match frames.checked_mul(self.target_channels_cnt) {
                Some(samples) => samples < downstream_free,
                None => false,
            },
            None => {
                proof {
                    assert((to_write + staged_frames) * self.target_channels_cnt >= to_write
                        + staged_frames) by (nonlinear_arith)
                        requires
                            self.target_channels_cnt > 0,
                            to_write + staged_frames >= 0,
                    ;
                }
                false
            },
        }
    }

    /// The samples to send downstream for one resampler run that wrote
    /// `written` frames, of which `first_channel` is channel 0, appended to
    /// `out`: channel 0 duplicated onto every target channel, as many whole
    /// frames as fit in `downstream_free` slots.
    pub fn handle_output(
        &self,
        first_channel: &[i32],
        written: usize,
        downstream_free: usize,
        out: &mut Vec<i32>,
    )
        requires
            self.wf(),
        ensures
            final(out)@ == old(out)@ + duplicated(
                first_channel@,
                frames_to_emit(
                    first_channel@.len(),
                    written as nat,
                    self.target_channels(),
                    downstream_free as nat,
                ),
                self.target_channels(),
            ),
    {
        duplicate_first_channel(first_channel, written, self.target_channels_cnt, downstream_free, out)
    }
}

/// Emission law: what `handle_output` appends is a whole number of target
/// frames, and never more samples than the free slots it was given.
pub proof fn lemma_emission_whole_frames(first: Seq<i32>, written: nat, channels: nat, free_slots: nat)
    requires
        channels > 0,
    ensures
        ({
            let n = frames_to_emit(first.len(), written, channels, free_slots);
            let out = duplicated(first, n, channels);
            &&& out.len() == n * channels
            &&& out.len() <= free_slots
        }),
{
    let n = frames_to_emit(first.len(), written, channels, free_slots);
    assert(n <= free_slots as int / channels as int);
    assert(n * channels <= free_slots) by (nonlinear_arith)
        requires
            n <= free_slots as int / channels as int,
            channels > 0,
    ;
}

/// Channel-mismatch law: in the remapped output every channel of a frame
/// carries the same sample, bit for bit.
pub proof fn lemma_remapped_channels_equal(
    first: Seq<i32>,
    frames: nat,
    channels: nat,
    f: int,
    c1: int,
    c2: int,
)
    requires
        channels > 0,
        frames <= first.len(),
        0 <= f < frames,
        0 <= c1 < channels,
        0 <= c2 < channels,
    ensures
        duplicated(first, frames, channels)[f * channels + c1] == duplicated(first, frames, channels)[f
            * channels + c2],
        duplicated(first, frames, channels)[f * channels + c1] == first[f],
{
    assert((f * channels + c1) / (channels as int) == f && (f * channels + c2) / (channels as int)
        == f && f * channels + c1 < frames * channels && f * channels + c2 < frames * channels)
        by (nonlinear_arith)
        requires
            channels > 0,
            0 <= f < frames,
            0 <= c1 < channels,
            0 <= c2 < channels,
    ;
}

} // verus!
