use cpal_host::emscripten::{
    buffer_size_frames, capture_channel, next_buffer_delay_ms, plan_input_stream,
    plan_output_stream, supported_configs, valid_config, DEFAULT_BUFFER_SIZE,
};
use cpal_host::format::{BufferSize, BuildStreamError, ErrorKind, SampleFormat, StreamConfig, SupportedBufferSize};
use cpal_host::web::get_user_media_error;

fn cfg(channels: u16, sample_rate: u32, buffer_size: BufferSize) -> StreamConfig {
    StreamConfig { channels, sample_rate, buffer_size }
}

#[test]
fn webaudio_offers_one_range_per_channel_count() {
    let v = supported_configs();
    assert_eq!(v.len(), 32);
    for (k, r) in v.iter().enumerate() {
        assert_eq!(r.channels as usize, k + 1);
        assert_eq!(r.min_sample_rate, 8_000);
        assert_eq!(r.max_sample_rate, 96_000);
        assert_eq!(r.buffer_size, SupportedBufferSize::Range { min: 1, max: u32::MAX });
        assert_eq!(r.sample_format, SampleFormat::F32);
    }
}

#[test]
fn webaudio_validates_configs() {
    assert!(valid_config(&cfg(2, 44_100, BufferSize::Default), SampleFormat::F32));
    assert!(!valid_config(&cfg(0, 44_100, BufferSize::Default), SampleFormat::F32));
    assert!(!valid_config(&cfg(33, 44_100, BufferSize::Default), SampleFormat::F32));
    assert!(!valid_config(&cfg(2, 7_999, BufferSize::Default), SampleFormat::F32));
    assert!(!valid_config(&cfg(2, 96_001, BufferSize::Default), SampleFormat::F32));
    assert!(!valid_config(&cfg(2, 44_100, BufferSize::Default), SampleFormat::I16));
}

#[test]
fn webaudio_buffer_sizes() {
    assert_eq!(buffer_size_frames(BufferSize::Default).unwrap(), DEFAULT_BUFFER_SIZE);
    assert_eq!(buffer_size_frames(BufferSize::Fixed(512)).unwrap(), 512);
    assert!(matches!(buffer_size_frames(BufferSize::Fixed(0)), Err(BuildStreamError::StreamConfigNotSupported)));
    assert_eq!(plan_output_stream(&cfg(2, 48_000, BufferSize::Fixed(256)), SampleFormat::F32).unwrap(), 256);
    assert!(matches!(
        plan_output_stream(&cfg(2, 4_000, BufferSize::Fixed(256)), SampleFormat::F32),
        Err(BuildStreamError::StreamConfigNotSupported)
    ));
    // Capture checks only the format and the buffer size.
    assert_eq!(plan_input_stream(&cfg(64, 4_000, BufferSize::Default), SampleFormat::F32).unwrap(), (2048, 2048 * 64));
    assert!(matches!(
        plan_input_stream(&cfg(2, 48_000, BufferSize::Default), SampleFormat::I16),
        Err(BuildStreamError::StreamConfigNotSupported)
    ));
    assert_eq!(next_buffer_delay_ms(2048, 44_100), 46);
}

#[test]
fn captured_channels_land_interleaved() {
    let mut buffer = vec![0i32; 3 * 2];
    capture_channel(&mut buffer, &vec![1, 2, 3, 4], 0, 2, 3);
    capture_channel(&mut buffer, &vec![10, 20], 1, 2, 3);
    assert_eq!(buffer, vec![1, 10, 2, 20, 3, 0]);
}

#[test]
fn user_media_rejections() {
    let e = get_user_media_error(Some("NotAllowedError"), Some("denied"));
    assert_eq!(e.kind, ErrorKind::PermissionDenied);
    assert_eq!(e.message.as_deref(), Some("getUserMedia() failed: denied"));
    let e = get_user_media_error(Some("NotFoundError"), Some(""));
    assert_eq!(e.kind, ErrorKind::DeviceNotAvailable);
    assert_eq!(e.message.as_deref(), Some("getUserMedia() failed: NotFoundError"));
    assert_eq!(get_user_media_error(Some("SecurityError"), None).kind, ErrorKind::PermissionDenied);
    assert_eq!(get_user_media_error(Some("OverconstrainedError"), None).kind, ErrorKind::UnsupportedConfig);
    assert_eq!(get_user_media_error(Some("NotReadableError"), None).kind, ErrorKind::DeviceBusy);
    assert_eq!(get_user_media_error(Some("TypeError"), None).kind, ErrorKind::InvalidInput);
    assert_eq!(get_user_media_error(Some("AbortError"), None).kind, ErrorKind::BackendError);
    let e = get_user_media_error(None, None);
    assert_eq!(e.kind, ErrorKind::BackendError);
    assert_eq!(e.message.as_deref(), Some("getUserMedia() failed: unknown error"));
}
