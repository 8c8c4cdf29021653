//! A fixed-size block of interleaved frames, the unit of work of a node.
use vstd::prelude::*;

verus! {

/// Frames in one unit.
pub const SAMPLES_PER_UNIT: usize = 128;

/// Stream facts carried with a unit.
#[derive(Clone, Copy, Debug, PartialEq, Eq, Structural)]
pub struct AudioUnitMeta {
    pub sample_rate: u32,
    pub channel_cnt: u32,
}

/// `SAMPLES_PER_UNIT` frames of `N` channels each.
pub struct AudioUnit<const N: usize> {
    pub meta: AudioUnitMeta,
    pub frames: [[i32; N]; SAMPLES_PER_UNIT],
}

/// Whether every sample of every frame is silence (zero).
pub open spec fn all_silent<const N: usize>(frames: [[i32; N]; SAMPLES_PER_UNIT]) -> bool {
    forall|f: int, c: int| 0 <= f < SAMPLES_PER_UNIT && 0 <= c < N ==> #[trigger] frames@[f]@[c] == 0
}

impl<const N: usize> AudioUnit<N> {
    /// A silent unit with zeroed metadata.
    pub fn new() -> (u: AudioUnit<N>)
        ensures
            all_silent(u.frames),
            u.meta == (AudioUnitMeta { sample_rate: 0, channel_cnt: 0 }),
    {
        let frame: [i32; N] = [0i32; N];
        let frames: [[i32; N]; SAMPLES_PER_UNIT] = [frame; SAMPLES_PER_UNIT];
        proof {
            assert forall|f: int, c: int| 0 <= f < SAMPLES_PER_UNIT && 0 <= c < N implies #[trigger] frames@[f]@[c]
                == 0 by {
                assert(frames@[f] == frame);
            }
        }
        AudioUnit { meta: AudioUnitMeta { sample_rate: 0, channel_cnt: 0 }, frames }
    }

    /// The number of channels of each frame.
    pub fn get_channel_len(&self) -> (n: usize)
        ensures
            n == N,
    {
        N
    }

    /// Sets every sample to silence.
    pub fn fill_with_zero(&mut self)
        ensures
            all_silent(final(self).frames),
            final(self).meta == old(self).meta,
    {
        let frame: [i32; N] = [0i32; N];
        self.frames = [frame; SAMPLES_PER_UNIT];
        proof {
            assert forall|f: int, c: int| 0 <= f < SAMPLES_PER_UNIT && 0 <= c < N implies #[trigger] self.frames@[f]@[c]
                == 0 by {
                assert(self.frames@[f] == frame);
            }
        }
    }

    /// The frames of the unit.
    pub fn raw_data(&self) -> (d: &[[i32; N]; SAMPLES_PER_UNIT])
        ensures
            *d == self.frames,
    {
        &self.frames
    }
}

} // verus!
