//! Device configuration negotiation: a fixed priority search over channel
//! count, sample format and sample rate among a device's supported ranges.
use vstd::prelude::*;

verus! {

/// Sample formats a device endpoint may use.
#[derive(Clone, Copy, Debug, PartialEq, Eq, Structural)]
pub enum SampleFormat {
    F32,
    I32,
    I16,
    U8,
    /// Any format the engine does not negotiate.
    Other,
}

/// Buffer sizes a device supports.
#[derive(Clone, Copy, Debug, PartialEq, Eq, Structural)]
pub enum SupportedBufferSize {
    Range { min: u32, max: u32 },
    Unknown,
}

/// The buffer size requested from a device.
#[derive(Clone, Copy, Debug, PartialEq, Eq, Structural)]
pub enum BufferSize {
    Default,
    Fixed(u32),
}

/// One supported configuration range of a device.
#[derive(Clone, Copy, Debug, PartialEq, Eq, Structural)]
pub struct SupportedConfigRange {
    pub channels: u16,
    pub sample_format: SampleFormat,
    pub min_sample_rate: u32,
    pub max_sample_rate: u32,
    pub buffer_size: SupportedBufferSize,
}

/// Channel count, rate and buffer size of a stream.
#[derive(Clone, Copy, Debug, PartialEq, Eq, Structural)]
pub struct StreamConfig {
    pub channels: u16,
    pub sample_rate: u32,
    pub buffer_size: BufferSize,
}

/// A negotiated stream configuration with its sample format.
#[derive(Clone, Copy, Debug, PartialEq, Eq, Structural)]
pub struct IOStreamConfig {
    pub sample_format: SampleFormat,
    pub stream_config: StreamConfig,
}

/// Why negotiation failed.
#[derive(Clone, Copy, Debug, PartialEq, Eq, Structural)]
pub enum NegotiationError {
    /// No supported range matches any candidate of the search.
    NoCompatibleConfig,
}

/// The buffer size the engine asks for when a device gives a range.
pub const PREFERRED_BUFFER_SIZE: u32 = 128;

/// Number of (channels, format, rate) candidates in the search.
pub const CANDIDATE_COUNT: usize = 36;

/// Channel preference `ci`: stereo, then mono, then any count (`None`).
pub open spec fn channel_pref(ci: int) -> Option<u16> {
    if ci == 0 {
        Some(2u16)
    } else if ci == 1 {
        Some(1u16)
    } else {
        None
    }
}

/// Format preference `fi`: F32, I32, I16, then U8.
pub open spec fn format_pref(fi: int) -> SampleFormat {
    if fi == 0 {
        SampleFormat::F32
    } else if fi == 1 {
        SampleFormat::I32
    } else if fi == 2 {
        SampleFormat::I16
    } else {
        SampleFormat::U8
    }
}

/// Rate preference `ri`: 48000, 44100, then 9600 Hz.
pub open spec fn rate_pref(ri: int) -> u32 {
    if ri == 0 {
        48000u32
    } else if ri == 1 {
        44100u32
    } else {
        9600u32
    }
}

/// Candidate `k` of the search: channel preference outermost, then format,
/// then rate.
pub open spec fn candidate(k: int) -> (Option<u16>, SampleFormat, u32) {
    (channel_pref(k / 12), format_pref((k % 12) / 3), rate_pref(k % 3))
}

/// Whether a range supports a candidate: the rate lies inside it, the format
/// is equal and the channel count matches (any count matches `None`).
pub open spec fn range_matches(r: SupportedConfigRange, c: (Option<u16>, SampleFormat, u32)) -> bool {
    &&& r.sample_format == c.1
    &&& r.min_sample_rate <= c.2 <= r.max_sample_rate
    &&& match c.0 {
        Some(ch) => r.channels == ch,
        None => true,
    }
}

/// Index of the first range at or after `i` that supports candidate `c`.
pub open spec fn first_range_from(
    ranges: Seq<SupportedConfigRange>,
    c: (Option<u16>, SampleFormat, u32),
    i: int,
) -> Option<int>
    decreases ranges.len() - i,
{
    if i < 0 || i >= ranges.len() {
        None
    } else if range_matches(ranges[i], c) {
        Some(i)
    } else {
        first_range_from(ranges, c, i + 1)
    }
}

/// The first candidate at or after `k` that some range supports, with the
/// first such range: `(candidate index, range index)`.
pub open spec fn search_from(ranges: Seq<SupportedConfigRange>, k: int) -> Option<(int, int)>
    decreases 36 - k,
{
    if k < 0 || k >= 36 {
        None
    } else {
        match first_range_from(ranges, candidate(k), 0) {
            Some(i) => Some((k, i)),
            None => search_from(ranges, k + 1),
        }
    }
}

/// `v` clamped into `[lo, hi]` (the lower bound wins when `lo > hi`).
pub open spec fn clamp_spec(v: u32, lo: u32, hi: u32) -> u32 {
    if v < lo {
        lo
    } else if v > hi {
        hi
    } else {
        v
    }
}

/// The buffer size chosen for a range.
pub open spec fn buffer_for(b: SupportedBufferSize) -> BufferSize {
    match b {
        SupportedBufferSize::Range { min, max } => BufferSize::Fixed(
            clamp_spec(PREFERRED_BUFFER_SIZE, min, max),
        ),
        SupportedBufferSize::Unknown => BufferSize::Default,
    }
}

/// The configuration picked from range `r` for candidate `c`.
pub open spec fn config_for(r: SupportedConfigRange, c: (Option<u16>, SampleFormat, u32)) -> IOStreamConfig {
    IOStreamConfig {
        sample_format: c.1,
        stream_config: StreamConfig {
            channels: r.channels,
            sample_rate: c.2,
            buffer_size: buffer_for(r.buffer_size),
        },
    }
}

/// The outcome the negotiation owes for a list of supported ranges.
pub open spec fn negotiation_result(ranges: Seq<SupportedConfigRange>) -> Result<
    IOStreamConfig,
    NegotiationError,
> {
    match search_from(ranges, 0) {
        Some((k, i)) => Ok(config_for(ranges[i], candidate(k))),
        None => Err(NegotiationError::NoCompatibleConfig),
    }
}

fn channel_pref_at(ci: usize) -> (r: Option<u16>)
    ensures
        r == channel_pref(ci as int),
{
    if ci == 0 {
        Some(2)
    } else if ci == 1 {
        Some(1)
    } else {
        None
    }
}

fn format_pref_at(fi: usize) -> (r: SampleFormat)
    ensures
        r == format_pref(fi as int),
{
    if fi == 0 {
        SampleFormat::F32
    } else if fi == 1 {
        SampleFormat::I32
    } else if fi == 2 {
        SampleFormat::I16
    } else {
        SampleFormat::U8
    }
}

fn rate_pref_at(ri: usize) -> (r: u32)
    ensures
        r == rate_pref(ri as int),
{
    if ri == 0 {
        48000
    } else if ri == 1 {
        44100
    } else {
        9600
    }
}

/// `v` clamped into `[lo, hi]`.
pub fn clamp_buffer_size(v: u32, lo: u32, hi: u32) -> (r: u32)
    ensures
        r == clamp_spec(v, lo, hi),
{
    if v < lo {
        lo
    } else if v > hi {
        hi
    } else {
        v
    }
}

/// Index of the first range that supports the candidate.
fn find_range(
    ranges: &Vec<SupportedConfigRange>,
    channels: Option<u16>,
    format: SampleFormat,
    rate: u32,
) -> (r: Option<usize>)
    ensures
        r matches Some(i) ==> i < ranges.len() && first_range_from(
            ranges@,
            (channels, format, rate),
            0,
        ) == Some(i as int),
        r is None ==> first_range_from(ranges@, (channels, format, rate), 0) is None,
{
    let ghost c = (channels, format, rate);
    let mut i: usize = 0;
    while i < ranges.len()
        invariant
            0 <= i <= ranges.len(),
            c == (channels, format, rate),
            first_range_from(ranges@, c, 0) == first_range_from(ranges@, c, i as int),
        decreases ranges.len() - i,
    {
        let conf = ranges[i];
        let channel_match = match channels {
            Some(ch) => conf.channels == ch,
            None => true,
        };
        if conf.sample_format == format && conf.min_sample_rate <= rate && rate
            <= conf.max_sample_rate && channel_match {
            assert(range_matches(ranges@[i as int], c));
            return Some(i);
        }
        assert(!range_matches(ranges@[i as int], c));
        i = i + 1;
    }
    None
}

/// Picks a stream configuration from a device's supported ranges by the
/// priority search: channels {2, 1, any}, then format {F32, I32, I16, U8},
/// then rate {48000, 44100, 9600} Hz, the first matching range winning. The
/// buffer size is 128 clamped into the range's bounds when the device gives
/// bounds, and the default otherwise.
pub fn resolve_config(ranges: &Vec<SupportedConfigRange>) -> (r: Result<
    IOStreamConfig,
    NegotiationError,
>)
    ensures
        r == negotiation_result(ranges@),
{
    let mut k: usize = 0;
    while k < CANDIDATE_COUNT
        invariant
            0 <= k <= CANDIDATE_COUNT,
            search_from(ranges@, 0) == search_from(ranges@, k as int),
        decreases CANDIDATE_COUNT - k,
    {
        let channels = channel_pref_at(k / 12);
        let format = format_pref_at((k % 12) / 3);
        let rate = rate_pref_at(k % 3);
        match find_range(ranges, channels, format, rate) {
            Some(i) => {
                let range = ranges[i];
                let buffer_size = match range.buffer_size {
                    SupportedBufferSize::Range { min, max } => BufferSize::Fixed(
                        clamp_buffer_size(PREFERRED_BUFFER_SIZE, min, max),
                    ),
                    SupportedBufferSize::Unknown => BufferSize::Default,
                };
                return Ok(
                    IOStreamConfig {
                        sample_format: format,
                        stream_config: StreamConfig {
                            channels: range.channels,
                            sample_rate: rate,
                            buffer_size,
                        },
                    },
                );
            },
            None => {
                k = k + 1;
            },
        }
    }
    Err(NegotiationError::NoCompatibleConfig)
}

/// Negotiates the configuration of an output device from its supported
/// ranges.
pub fn generate_output_resolve_config(ranges: &Vec<SupportedConfigRange>) -> (r: Result<
    IOStreamConfig,
    NegotiationError,
>)
    ensures
        r == negotiation_result(ranges@),
{
    resolve_config(ranges)
}

/// Negotiates the configuration of an input device from its supported
/// ranges.
pub fn generate_input_resolve_config(ranges: &Vec<SupportedConfigRange>) -> (r: Result<
    IOStreamConfig,
    NegotiationError,
>)
    ensures
        r == negotiation_result(ranges@),
{
    resolve_config(ranges)
}

} // verus!
