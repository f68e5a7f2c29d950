use cpal_host::format::{BufferSize, DeviceDirection, ErrorKind, SampleFormat, SupportedBufferSize};
use cpal_host::jack::{
    capture_instant, client_status_error, deinterleave_channel, fill_prefix,
    hardware_latency_frames, interleave, micros_to_stream_instant, oversized_period_error, oversized_reported_after, plan_cycle, playback_instant,
    port_channel_count, shutdown_error, shutdown_reported, stop_wait, validate_client, validate_sample_format,
    ClientStatus, Device, JackNotificationHandler, StreamState,
};
use cpal_host::time::{Duration, StreamInstant};

fn device(direction: DeviceDirection) -> Device {
    Device::from_server("cpal".to_string(), 48_000, 256, 4, 1, direction, false, true).unwrap()
}

#[test]
fn stream_state_codes_round_trip() {
    for s in [StreamState::Starting, StreamState::Paused, StreamState::Playing] {
        assert_eq!(StreamState::load(s.store()), s);
    }
    assert_eq!(StreamState::load(9), StreamState::Starting);
}

#[test]
fn devices_from_the_server() {
    let d = device(DeviceDirection::Duplex);
    assert_eq!(d.max_input_channels, 4);
    assert_eq!(d.max_output_channels, 2);
    assert_eq!(d.buffer_size, SupportedBufferSize::Range { min: 256, max: 256 });
    assert_eq!(d.id(), "duplex");
    assert!(d.is_duplex() && !d.is_input() && !d.is_output());
    let input = device(DeviceDirection::Input);
    assert_eq!(input.max_output_channels, 0);
    let configs = input.supported_configs(DeviceDirection::Input);
    assert_eq!(configs.len(), 4);
    assert_eq!(configs[3].channels, 4);
    assert_eq!(configs[0].sample_format, SampleFormat::F32);
    assert!(input.supported_configs(DeviceDirection::Output).is_empty());
    let c = input.default_config();
    assert_eq!((c.channels, c.sample_rate), (2, 48_000));
    let e = Device::from_server("x".to_string(), 1, 1, 0, 0, DeviceDirection::Unknown, false, false).unwrap_err();
    assert_eq!(e.kind, ErrorKind::UnsupportedOperation);
    assert_eq!(port_channel_count(0), 2);
    assert_eq!(port_channel_count(8), 8);
    assert_eq!(port_channel_count(70_000), 2);
}

#[test]
fn validation() {
    assert!(validate_sample_format(SampleFormat::F32).is_ok());
    assert_eq!(validate_sample_format(SampleFormat::I16).unwrap_err().kind, ErrorKind::UnsupportedConfig);
    assert!(validate_client(48_000, BufferSize::Default, 48_000, 512).is_ok());
    assert!(validate_client(48_000, BufferSize::Fixed(512), 48_000, 512).is_ok());
    assert_eq!(validate_client(44_100, BufferSize::Default, 48_000, 512).unwrap_err().kind, ErrorKind::UnsupportedConfig);
    assert!(validate_client(48_000, BufferSize::Fixed(256), 48_000, 512).is_err());
    let ok = ClientStatus {
        server_error: false,
        server_failed: false,
        version_error: false,
        init_failure: false,
        shm_failure: false,
        no_such_client: false,
        invalid_option: false,
    };
    assert_eq!(client_status_error(ok), None);
    assert_eq!(
        client_status_error(ClientStatus { server_error: true, shm_failure: true, ..ok }).as_deref(),
        Some("There was an error communicating with the JACK server!")
    );
    assert_eq!(
        client_status_error(ClientStatus { server_failed: true, ..ok }).as_deref(),
        Some("Could not connect to the JACK server!")
    );
}

#[test]
fn latency_and_instants() {
    assert_eq!(hardware_latency_frames(&vec![]), None);
    assert_eq!(hardware_latency_frames(&vec![0, 0]), None);
    assert_eq!(hardware_latency_frames(&vec![64, 512, 128]), Some(512));
    assert_eq!(micros_to_stream_instant(1_500).as_nanos(), 1_500_000);
    let start = StreamInstant::from_nanos(1_000_000_000);
    // 480 frames at 48 kHz are 10 ms.
    assert_eq!(capture_instant(Some(480), start, 48_000).as_nanos(), 990_000_000);
    assert_eq!(capture_instant(Some(480), StreamInstant::from_nanos(1_000), 48_000).as_nanos(), 0);
    assert_eq!(playback_instant(Some(480), start, None, 256, 48_000).as_nanos(), 1_010_000_000);
    assert_eq!(playback_instant(None, start, Some(1_005_000), 256, 48_000).as_nanos(), 1_005_000_000);
    assert_eq!(playback_instant(None, start, None, 480, 48_000).as_nanos(), 1_010_000_000);
}

#[test]
fn notifications() {
    let mut h = JackNotificationHandler::new(48_000);
    let same = h.sample_rate(StreamState::Playing, 48_000);
    assert!(same.continue_client && same.report.is_none());
    let other = h.sample_rate(StreamState::Playing, 44_100);
    assert!(!other.continue_client);
    let e = other.report.unwrap();
    assert_eq!(e.kind, ErrorKind::StreamInvalidated);
    assert_eq!(e.message.as_deref(), Some("JACK server changed sample rate to 44100 Hz"));
    assert!(h.sample_rate(StreamState::Starting, 44_100).report.is_none());
    h.xrun(StreamState::Paused);
    assert!(!h.take_xrun());
    h.xrun(StreamState::Playing);
    assert!(h.take_xrun());
    assert!(!h.take_xrun());
    assert!(!shutdown_reported(StreamState::Starting));
    assert!(shutdown_reported(StreamState::Paused));
}

#[test]
fn process_cycles() {
    let p = plan_cycle(StreamState::Paused, 512, 256, false);
    assert!(p.silence_only && p.frames == 0 && !p.report_oversized);
    let p = plan_cycle(StreamState::Playing, 512, 256, false);
    assert!(!p.silence_only && p.frames == 256 && p.report_oversized && !p.oversized_reported);
    assert!(oversized_reported_after(p, true));
    assert!(!oversized_reported_after(p, false));
    let p = plan_cycle(StreamState::Playing, 512, 256, true);
    assert!(!p.report_oversized && p.oversized_reported);
    let p = plan_cycle(StreamState::Playing, 128, 256, true);
    assert!(p.frames == 128 && !p.oversized_reported);
}

#[test]
fn stopping_waits_for_queued_output() {
    assert_eq!(stop_wait(false, None, Some(480), 256, 48_000), Duration::zero());
    assert_eq!(stop_wait(true, Some(Duration::zero()), Some(480), 256, 48_000), Duration::zero());
    assert_eq!(stop_wait(true, None, Some(480), 256, 48_000), Duration::from_millis(10));
    assert_eq!(stop_wait(true, None, None, 480, 48_000), Duration::from_millis(10));
    assert_eq!(stop_wait(true, Some(Duration::from_millis(3)), Some(480), 256, 48_000), Duration::from_millis(3));
}

#[test]
fn channel_buffers() {
    let mut out = vec![0u8; 7];
    interleave(&vec![vec![1, 2, 3], vec![4, 5, 6]], 3, &mut out);
    assert_eq!(out, vec![1, 4, 2, 5, 3, 6, 0]);
    let mut ch = vec![9u8; 4];
    deinterleave_channel(&vec![1, 4, 2, 5, 3, 6], 2, 1, 3, 0, &mut ch);
    assert_eq!(ch, vec![4, 5, 6, 0]);
    let mut b = vec![7u8; 5];
    fill_prefix(&mut b, 3, 0);
    assert_eq!(b, vec![0, 0, 0, 7, 7]);
}

#[test]
fn client_mismatch_messages_name_both_values() {
    let e = validate_client(44100, BufferSize::Default, 48000, 256).unwrap_err();
    assert_eq!(e.kind, ErrorKind::UnsupportedConfig);
    assert_eq!(e.message.as_deref(), Some("Sample rate 44100 Hz does not match the server rate 48000 Hz"));
    let e = validate_client(48000, BufferSize::Fixed(512), 48000, 256).unwrap_err();
    assert_eq!(e.message.as_deref(), Some("Buffer size 512 does not match the server buffer size 256"));
    assert!(validate_client(48000, BufferSize::Fixed(256), 48000, 256).is_ok());
}

#[test]
fn oversized_period_message() {
    let e = oversized_period_error(512, 256);
    assert_eq!(e.kind, ErrorKind::BackendError);
    assert_eq!(
        e.message.as_deref(),
        Some("JACK delivered a 512-frame period, exceeding the configured buffer size of 256; truncated")
    );
}

#[test]
fn shutdown_message_carries_the_reason() {
    let e = shutdown_error("server exited");
    assert_eq!(e.kind, ErrorKind::DeviceNotAvailable);
    assert_eq!(e.message.as_deref(), Some("JACK server shut down: server exited"));
}
