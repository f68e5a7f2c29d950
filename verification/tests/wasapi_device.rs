use cpal_host::format::{BufferSize, SampleFormat, StreamConfig};
use cpal_host::wasapi_format::{
    buffer_duration_to_frames, buffer_size_to_duration, config_to_waveformatextensible,
    format_query_result, waveformatextensible_sample_formats, wave_sample_format,
    AUDCLNT_E_DEVICE_INVALIDATED, S_FALSE, WAVE_FORMAT_EXTENSIBLE, WAVE_FORMAT_PCM,
};
use cpal_host::format::ErrorKind;

#[test]
fn frame_duration_round_trips() {
    for rate in [44_100u32, 48_000, 96_000] {
        for frames in [128u32, 256, 512, 1024] {
            let duration = buffer_size_to_duration(&BufferSize::Fixed(frames), rate);
            assert!(duration > 0);
            assert_eq!(buffer_duration_to_frames(duration, rate), frames);
        }
    }
}

#[test]
fn i24_uses_a_four_byte_container() {
    let config = StreamConfig {
        channels: 2,
        sample_rate: 48_000,
        buffer_size: BufferSize::Default,
    };
    let wave = config_to_waveformatextensible(config, SampleFormat::I24, Some(3)).unwrap();
    let bits = wave.bits_per_sample;
    let align = wave.block_align;
    let valid = wave.valid_bits_per_sample;
    assert_eq!(bits, 32);
    assert_eq!(valid, 24);
    assert_eq!(align, 8);
    assert!(!waveformatextensible_sample_formats().contains(&SampleFormat::U16));
}

#[test]
fn wave_description_reads_back_its_format() {
    let config = StreamConfig { channels: 2, sample_rate: 44_100, buffer_size: BufferSize::Default };
    for f in [SampleFormat::I16, SampleFormat::I24, SampleFormat::F32] {
        let wave = config_to_waveformatextensible(config, f, None).unwrap();
        let expected_tag = if f == SampleFormat::I16 { WAVE_FORMAT_PCM } else { WAVE_FORMAT_EXTENSIBLE };
        assert_eq!(wave.format_tag, expected_tag);
        assert_eq!(wave_sample_format(&wave), Some(f));
    }
    assert_eq!(config_to_waveformatextensible(config, SampleFormat::U8, None), None);
    assert_eq!(config_to_waveformatextensible(config, SampleFormat::I32, None), None);
    assert_eq!(config_to_waveformatextensible(config, SampleFormat::F64, None), None);
}

#[test]
fn default_buffer_size_asks_for_no_duration() {
    assert_eq!(buffer_size_to_duration(&BufferSize::Default, 48_000), 0);
    // 480 frames at 48 kHz is 10 ms, 100_000 ticks of 100 ns.
    assert_eq!(buffer_size_to_duration(&BufferSize::Fixed(480), 48_000), 100_000);
}

#[test]
fn format_query_results() {
    assert_eq!(format_query_result(0).unwrap(), true);
    assert_eq!(format_query_result(S_FALSE).unwrap(), false);
    assert_eq!(format_query_result(-1).unwrap(), false);
    assert_eq!(format_query_result(AUDCLNT_E_DEVICE_INVALIDATED).unwrap_err().kind, ErrorKind::DeviceNotAvailable);
}

#[test]
fn negative_durations_wrap_like_integer_casts() {
    assert_eq!(buffer_duration_to_frames(-100_000, 48_000), (-479i64) as u32);
    assert_eq!(buffer_duration_to_frames(0, 48_000), 0);
}
