//! Conversion between the engine's fixed-point samples and the integer
//! sample types of device buffers. A sample `s: i32` stands for `s / 2^31`.
//! Widening to the engine uses `dasp`'s sample module; narrowing to a device
//! type rounds to nearest (halves upward) and saturates.
use vstd::prelude::*;

verus! {

/// Relies on `dasp::sample::conv::i16::to_i32`, which is `(s as i32) << 16`.
pub assume_specification[ dasp::sample::conv::i16::to_i32 ](s: i16) -> (r: i32)
    ensures
        r as int == s as int * 0x1_0000,
;

/// Relies on `dasp::sample::conv::u8::to_i32`, which is
/// `(s as i32 - 128) << 24`.
pub assume_specification[ dasp::sample::conv::u8::to_i32 ](s: u8) -> (r: i32)
    ensures
        r as int == (s as int - 128) * 0x100_0000,
;

/// A sample type of a device buffer, with its conversions to and from the
/// engine's fixed-point samples and its silence value.
pub trait DeviceSample: Sized + Copy {
    /// The device value for engine sample `s`.
    spec fn from_sample_spec(s: i32) -> Self;

    /// The engine sample for device value `x`.
    spec fn to_sample_spec(x: Self) -> i32;

    /// The value that plays as silence.
    spec fn silence_spec() -> Self;

    /// Converts an engine sample to this type.
    fn from_sample(s: i32) -> (r: Self)
        ensures
            r == Self::from_sample_spec(s),
    ;

    /// Converts a value of this type to an engine sample.
    fn to_sample(x: Self) -> (r: i32)
        ensures
            r == Self::to_sample_spec(x),
    ;

    /// The silence value: the conversion of the zero sample.
    fn silence() -> (r: Self)
        ensures
            r == Self::silence_spec(),
            r == Self::from_sample_spec(0),
    ;
}

impl DeviceSample for i32 {
    open spec fn from_sample_spec(s: i32) -> i32 {
        s
    }

    open spec fn to_sample_spec(x: i32) -> i32 {
        x
    }

    open spec fn silence_spec() -> i32 {
        0
    }

    fn from_sample(s: i32) -> (r: i32) {
        s
    }

    fn to_sample(x: i32) -> (r: i32) {
        x
    }

    fn silence() -> (r: i32) {
        0
    }
}

impl DeviceSample for i16 {
    open spec fn from_sample_spec(s: i32) -> i16 {
        let q = (s as int + 0x8000) / 0x1_0000;
        if q > 0x7fff {
            0x7fff
        } else {
            q as i16
        }
    }

    open spec fn to_sample_spec(x: i16) -> i32 {
        (x as int * 0x1_0000) as i32
    }

    open spec fn silence_spec() -> i16 {
        0
    }

    fn from_sample(s: i32) -> (r: i16) {
        // s + 2^31 + 2^15 is never negative, so unsigned division floors.
        let shifted = (s as i64 + 0x8000_8000) as u64;
        let q = shifted / 0x1_0000;
        proof {
            assert(q == (s as int + 0x8000) / 0x1_0000 + 0x8000);
        }
        if q > 0xffff {
            i16::MAX
        } else {
            (q as i64 - 0x8000) as i16
        }
    }

    fn to_sample(x: i16) -> (r: i32) {
        dasp::sample::conv::i16::to_i32(x)
    }

    fn silence() -> (r: i16) {
        0
    }
}

impl DeviceSample for u8 {
    open spec fn from_sample_spec(s: i32) -> u8 {
        let q = (s as int + 0x80_0000) / 0x100_0000 + 128;
        if q > 0xff {
            0xff
        } else {
            q as u8
        }
    }

    open spec fn to_sample_spec(x: u8) -> i32 {
        ((x as int - 128) * 0x100_0000) as i32
    }

    open spec fn silence_spec() -> u8 {
        128
    }

    fn from_sample(s: i32) -> (r: u8) {
        // s + 2^31 + 2^23 is never negative, so unsigned division floors.
        let shifted = (s as i64 + 0x8080_0000) as u64;
        let q = shifted / 0x100_0000;
        proof {
            assert(q == (s as int + 0x80_0000) / 0x100_0000 + 128);
        }
        if q > 0xff {
            u8::MAX
        } else {
            q as u8
        }
    }

    fn to_sample(x: u8) -> (r: i32) {
        dasp::sample::conv::u8::to_i32(x)
    }

    fn silence() -> (r: u8) {
        128
    }
}

/// Converting a sample to 16 bits and back moves it by at most half a
/// 16-bit quantization step (`2^15` in engine units), or by less than one
/// step where the top of the range saturates.
pub proof fn lemma_i16_round_trip(s: i32)
    ensures
        -0x8000 <= s - <i16 as DeviceSample>::to_sample_spec(<i16 as DeviceSample>::from_sample_spec(s))
            < 0x1_0000,
{
    let q = (s as int + 0x8000) / 0x1_0000;
    assert(-0x8000 <= q <= 0x8000);
    assert(0 <= s as int + 0x8000 - q * 0x1_0000 < 0x1_0000);
}

/// Converting a sample to unsigned 8 bits and back moves it by at most half
/// an 8-bit quantization step (`2^23` in engine units), or by less than one
/// step where the top of the range saturates.
pub proof fn lemma_u8_round_trip(s: i32)
    ensures
        -0x80_0000 <= s - <u8 as DeviceSample>::to_sample_spec(<u8 as DeviceSample>::from_sample_spec(s))
            < 0x100_0000,
{
    let q = (s as int + 0x80_0000) / 0x100_0000;
    assert(-0x80 <= q <= 0x80);
    assert(0 <= s as int + 0x80_0000 - q * 0x100_0000 < 0x100_0000);
}

/// Converting a sample to 32 bits and back is exact.
pub proof fn lemma_i32_round_trip(s: i32)
    ensures
        <i32 as DeviceSample>::to_sample_spec(<i32 as DeviceSample>::from_sample_spec(s)) == s,
{
}

} // verus!
