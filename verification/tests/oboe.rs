use cpal_host::format::{ErrorKind, SampleFormat, SupportedBufferSize};
use cpal_host::oboe::{
    buffer_size_range, build_error_kind, default_supported_configs, probe_query, sample_rates,
    stream_error_kind, stream_instant, to_stream_instant, OboeError, CHANNEL_OUT_MONO,
    CHANNEL_OUT_STEREO, ENCODING_PCM_16BIT, ENCODING_PCM_FLOAT, PROBE_COUNT,
};
use cpal_host::time::Duration;

#[test]
fn probes_cover_formats_channels_and_rates() {
    let rates = sample_rates();
    assert_eq!(rates.len(), 13);
    assert_eq!(probe_query(0), (CHANNEL_OUT_MONO, 5512, ENCODING_PCM_16BIT));
    assert_eq!(probe_query(13), (CHANNEL_OUT_STEREO, 5512, ENCODING_PCM_16BIT));
    assert_eq!(probe_query(51), (CHANNEL_OUT_STEREO, 192_000, ENCODING_PCM_FLOAT));
    assert_eq!(buffer_size_range(256), SupportedBufferSize::Range { min: 256, max: i32::MAX as u32 });
    assert_eq!(buffer_size_range(0), SupportedBufferSize::Unknown);
    assert_eq!(buffer_size_range(-3), SupportedBufferSize::Unknown);
}

#[test]
fn probed_configs_keep_only_supported_probes() {
    let mut mins = vec![-1; PROBE_COUNT];
    mins[7] = 192; // mono I16 at 48 kHz
    mins[46] = 96; // stereo F32 at 48 kHz
    let v = default_supported_configs(&mins);
    assert_eq!(v.len(), 2);
    assert_eq!((v[0].channels, v[0].min_sample_rate, v[0].sample_format), (1, 48_000, SampleFormat::I16));
    assert_eq!((v[1].channels, v[1].max_sample_rate, v[1].sample_format), (2, 48_000, SampleFormat::F32));
    assert_eq!(v[1].buffer_size, SupportedBufferSize::Range { min: 96, max: i32::MAX as u32 });
}

#[test]
fn clock_instants() {
    assert_eq!(to_stream_instant(Duration::new(3, 500)).as_nanos(), 3_000_000_500);
    assert_eq!(stream_instant(Some(7_000_000_123)).as_nanos(), 7_000_000_123);
    assert_eq!(stream_instant(None).as_nanos(), 0);
}

#[test]
fn error_kinds() {
    assert_eq!(build_error_kind(OboeError::Disconnected), ErrorKind::DeviceNotAvailable);
    assert_eq!(build_error_kind(OboeError::NoFreeHandles), ErrorKind::ResourceExhausted);
    assert_eq!(build_error_kind(OboeError::InvalidRate), ErrorKind::UnsupportedConfig);
    assert_eq!(build_error_kind(OboeError::IllegalArgument), ErrorKind::InvalidInput);
    assert_eq!(build_error_kind(OboeError::Other), ErrorKind::BackendError);
    assert_eq!(stream_error_kind(OboeError::Closed), ErrorKind::DeviceNotAvailable);
    assert_eq!(stream_error_kind(OboeError::InvalidFormat), ErrorKind::BackendError);
}
