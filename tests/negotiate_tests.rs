use my_ktv::negotiate::{
    generate_input_resolve_config, generate_output_resolve_config, resolve_config, BufferSize,
    NegotiationError, SampleFormat, SupportedBufferSize, SupportedConfigRange,
};

fn range(
    channels: u16,
    sample_format: SampleFormat,
    min: u32,
    max: u32,
    buffer_size: SupportedBufferSize,
) -> SupportedConfigRange {
    SupportedConfigRange {
        channels,
        sample_format,
        min_sample_rate: min,
        max_sample_rate: max,
        buffer_size,
    }
}

#[test]
fn negotiation_prefers_stereo_f32_48k() {
    let ranges = vec![
        range(1, SampleFormat::F32, 8000, 96000, SupportedBufferSize::Unknown),
        range(2, SampleFormat::I16, 8000, 96000, SupportedBufferSize::Unknown),
        range(2, SampleFormat::F32, 8000, 96000, SupportedBufferSize::Range { min: 64, max: 4096 }),
    ];
    let c = resolve_config(&ranges).unwrap();
    assert_eq!(c.sample_format, SampleFormat::F32);
    assert_eq!(c.stream_config.channels, 2);
    assert_eq!(c.stream_config.sample_rate, 48000);
    assert_eq!(c.stream_config.buffer_size, BufferSize::Fixed(128));
}

#[test]
fn negotiation_channel_preference_beats_format() {
    let ranges = vec![
        range(1, SampleFormat::F32, 48000, 48000, SupportedBufferSize::Unknown),
        range(2, SampleFormat::U8, 9600, 9600, SupportedBufferSize::Unknown),
    ];
    let c = generate_output_resolve_config(&ranges).unwrap();
    assert_eq!(c.sample_format, SampleFormat::U8);
    assert_eq!(c.stream_config.channels, 2);
    assert_eq!(c.stream_config.sample_rate, 9600);
    assert_eq!(c.stream_config.buffer_size, BufferSize::Default);
}

#[test]
fn negotiation_format_preference_beats_rate() {
    let ranges = vec![
        range(2, SampleFormat::I16, 48000, 48000, SupportedBufferSize::Unknown),
        range(2, SampleFormat::I32, 44100, 44100, SupportedBufferSize::Unknown),
    ];
    let c = generate_input_resolve_config(&ranges).unwrap();
    assert_eq!(c.sample_format, SampleFormat::I32);
    assert_eq!(c.stream_config.sample_rate, 44100);
}

#[test]
fn negotiation_any_channel_count_last() {
    let ranges = vec![range(6, SampleFormat::I16, 44100, 44100, SupportedBufferSize::Unknown)];
    let c = resolve_config(&ranges).unwrap();
    assert_eq!(c.stream_config.channels, 6);
    assert_eq!(c.sample_format, SampleFormat::I16);
    assert_eq!(c.stream_config.sample_rate, 44100);
}

#[test]
fn negotiation_first_matching_range_wins() {
    let ranges = vec![
        range(2, SampleFormat::F32, 44100, 48000, SupportedBufferSize::Range { min: 256, max: 1024 }),
        range(2, SampleFormat::F32, 48000, 48000, SupportedBufferSize::Range { min: 16, max: 64 }),
    ];
    let c = resolve_config(&ranges).unwrap();
    assert_eq!(c.stream_config.buffer_size, BufferSize::Fixed(256));
}

#[test]
fn negotiation_buffer_clamped_to_max() {
    let ranges = vec![range(2, SampleFormat::F32, 48000, 48000, SupportedBufferSize::Range { min: 16, max: 100 })];
    let c = resolve_config(&ranges).unwrap();
    assert_eq!(c.stream_config.buffer_size, BufferSize::Fixed(100));
}

#[test]
fn negotiation_fails_without_match() {
    let ranges = vec![
        range(2, SampleFormat::Other, 48000, 48000, SupportedBufferSize::Unknown),
        range(2, SampleFormat::F32, 22050, 32000, SupportedBufferSize::Unknown),
    ];
    assert_eq!(resolve_config(&ranges), Err(NegotiationError::NoCompatibleConfig));
    assert_eq!(resolve_config(&Vec::new()), Err(NegotiationError::NoCompatibleConfig));
}
