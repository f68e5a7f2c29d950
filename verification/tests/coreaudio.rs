use cpal_host::coreaudio::{default_sample_format, device_config_ranges, transport_interface_type, DecodedFormat, PhysicalFormat, TRANSPORT_AVB, TRANSPORT_BLUETOOTH_LE, TRANSPORT_BUILT_IN, TRANSPORT_USB,};
use cpal_host::format::InterfaceType;
use cpal_host::coreaudio::{
    default_output_action, device_monitor_action, listeners_registered, monitor_ready,
    DefaultOutputAction, DefaultOutputEvent, MonitorAction, MonitoredProperty,
};
use cpal_host::format::Error;
use cpal_host::coreaudio::{
    asbd_from_config, asbds_are_equal, device_latency_frames, duplex_cycle, error_from_coreaudio,
    extra_latency_frames, host_time_to_stream_instant, ios_input_configs, ios_output_configs,
    property_wait_step, rate_matches, resolve_latency_frames, route_change_error,
    stream_config_from_asbd, wait_for_property, AudioError, AudioUnitError, CoreAudioError,
    DuplexCycle, PropertyWaitEvent, RouteChangeReason, FORMAT_FLAG_IS_FLOAT,
    FORMAT_FLAG_IS_PACKED, FORMAT_FLAG_IS_SIGNED_INTEGER, FORMAT_LINEAR_PCM,
};
use cpal_host::format::{BufferSize, ErrorKind, SampleFormat, StreamConfig, SupportedBufferSize};

fn cfg(channels: u16) -> StreamConfig {
    StreamConfig { channels, sample_rate: 48_000, buffer_size: BufferSize::Default }
}

#[test]
fn stream_descriptions() {
    let a = asbd_from_config(cfg(2), SampleFormat::F32);
    assert_eq!(a.format_id, FORMAT_LINEAR_PCM);
    assert_eq!(a.format_flags, FORMAT_FLAG_IS_FLOAT | FORMAT_FLAG_IS_PACKED);
    assert_eq!((a.bytes_per_frame, a.bytes_per_packet, a.frames_per_packet), (8, 8, 1));
    assert_eq!((a.channels_per_frame, a.bits_per_channel, a.sample_rate), (2, 32, 48_000));
    let i = asbd_from_config(cfg(1), SampleFormat::I16);
    assert_eq!(i.format_flags, FORMAT_FLAG_IS_SIGNED_INTEGER | FORMAT_FLAG_IS_PACKED);
    let u = asbd_from_config(cfg(1), SampleFormat::U16);
    assert_eq!(u.format_flags, FORMAT_FLAG_IS_PACKED);
    assert!(asbds_are_equal(&a, &a));
    assert!(!asbds_are_equal(&a, &i));
    let c = stream_config_from_asbd(&a);
    assert_eq!((c.channels, c.sample_rate, c.sample_format), (2, 48_000, SampleFormat::F32));
}

#[test]
fn host_clock() {
    // One tick is 125/3 ns on some machines.
    let i = host_time_to_stream_instant(24_000_000, 125, 3).unwrap();
    assert_eq!(i.as_nanos(), 1_000_000_000);
    assert_eq!(host_time_to_stream_instant(7, 1, 1).unwrap().as_nanos(), 7);
    let e = host_time_to_stream_instant(u64::MAX, u32::MAX, 1).unwrap_err();
    assert_eq!(e.kind, ErrorKind::Other);
}

#[test]
fn callback_latency() {
    assert_eq!(extra_latency_frames(Some(10), Some(32)), 42);
    assert_eq!(extra_latency_frames(None, Some(32)), 32);
    assert_eq!(device_latency_frames(Some(512), 42), 554);
    assert_eq!(device_latency_frames(None, 42), 0);
    assert_eq!(resolve_latency_frames(600, 1024, 2, 42), 600);
    assert_eq!(resolve_latency_frames(0, 1024, 2, 42), 554);
    assert_eq!(resolve_latency_frames(0, 1024, 0, 42), 42);
}

#[test]
fn property_waits() {
    assert!(property_wait_step(PropertyWaitEvent::Changed { is_target: false }, "sample rate").is_none());
    assert!(property_wait_step(PropertyWaitEvent::Changed { is_target: true }, "sample rate").unwrap().is_ok());
    let e = property_wait_step(PropertyWaitEvent::Timeout, "sample rate").unwrap().unwrap_err();
    assert_eq!(e.kind, ErrorKind::DeviceNotAvailable);
    assert_eq!(e.message.as_deref(), Some("Timed out waiting for the sample rate to change"));
    let e = property_wait_step(PropertyWaitEvent::Disconnected, "physical format").unwrap().unwrap_err();
    assert_eq!(e.kind, ErrorKind::StreamInvalidated);
    assert_eq!(e.message.as_deref(), Some("Listener for the physical format disconnected unexpectedly"));
    assert!(rate_matches(48_000, true, 48_000));
    assert!(rate_matches(47_999, false, 48_000));
    assert!(!rate_matches(47_999, true, 48_000));
    assert!(!rate_matches(44_100, true, 48_000));
}

#[test]
fn wait_for_rate_returns_when_the_target_rate_is_reported() {
    // 44_100 Hz is reported first, then the 48_000 Hz asked for.
    let events = vec![
        PropertyWaitEvent::Changed { is_target: rate_matches(44_100, true, 48_000) },
        PropertyWaitEvent::Changed { is_target: rate_matches(48_000, true, 48_000) },
    ];
    assert!(wait_for_property(&events, "sample rate").unwrap().is_ok());
}

#[test]
fn waits_end_on_the_first_decisive_event() {
    let events = vec![
        PropertyWaitEvent::Changed { is_target: false },
        PropertyWaitEvent::Unavailable,
        PropertyWaitEvent::Changed { is_target: true },
    ];
    assert_eq!(wait_for_property(&events, "sample rate").unwrap().unwrap_err().kind, ErrorKind::DeviceNotAvailable);
    assert!(wait_for_property(&vec![PropertyWaitEvent::Changed { is_target: false }], "sample rate").is_none());
    assert!(wait_for_property(&vec![], "sample rate").is_none());
}

#[test]
fn duplex_cycles() {
    let run = duplex_cycle(false, true, 1, 256, 2, 4, 2048, true, 2048, 4, false);
    assert_eq!(run, DuplexCycle::Run { input_samples: 512, input_bytes: 2048, output_samples: 512 });
    assert_eq!(duplex_cycle(false, true, 1, 256, 2, 4, 2048, true, 2048, 4, true), DuplexCycle::Silence);
    assert_eq!(
        duplex_cycle(false, true, 1, 512, 2, 4, 2048, true, 2048, 4, false),
        DuplexCycle::Reject { buffer_size_changed: true }
    );
    assert_eq!(
        duplex_cycle(true, true, 1, 256, 2, 4, 2048, true, 2048, 4, false),
        DuplexCycle::Reject { buffer_size_changed: false }
    );
    assert_eq!(
        duplex_cycle(false, true, 0, 256, 2, 4, 2048, true, 2048, 4, false),
        DuplexCycle::Reject { buffer_size_changed: false }
    );
    assert_eq!(
        duplex_cycle(false, true, 1, 256, 2, 4, 2048, false, 2048, 4, false),
        DuplexCycle::Reject { buffer_size_changed: false }
    );
}

#[test]
fn coreaudio_error_kinds() {
    let e = error_from_coreaudio(CoreAudioError::UnsupportedSampleRate, "bad rate");
    assert_eq!(e.kind, ErrorKind::UnsupportedConfig);
    assert_eq!(e.message.as_deref(), Some("bad rate"));
    assert_eq!(error_from_coreaudio(CoreAudioError::AudioUnit(AudioUnitError::NoConnection), "").kind, ErrorKind::DeviceNotAvailable);
    assert_eq!(error_from_coreaudio(CoreAudioError::Audio(AudioError::FilePermission), "").kind, ErrorKind::PermissionDenied);
    assert_eq!(error_from_coreaudio(CoreAudioError::AudioUnit(AudioUnitError::InvalidScope), "").kind, ErrorKind::InvalidInput);
    assert_eq!(error_from_coreaudio(CoreAudioError::AudioUnit(AudioUnitError::PropertyNotWritable), "").kind, ErrorKind::UnsupportedOperation);
    assert_eq!(error_from_coreaudio(CoreAudioError::AudioUnit(AudioUnitError::Other), "").kind, ErrorKind::Other);
    assert_eq!(error_from_coreaudio(CoreAudioError::Other, "").kind, ErrorKind::Other);
}

#[test]
fn ios_sessions() {
    assert_eq!(route_change_error(RouteChangeReason::OldDeviceUnavailable).unwrap().kind, ErrorKind::DeviceChanged);
    assert_eq!(route_change_error(RouteChangeReason::Override).unwrap().kind, ErrorKind::StreamInvalidated);
    assert_eq!(route_change_error(RouteChangeReason::NoSuitableRouteForCategory).unwrap().kind, ErrorKind::DeviceNotAvailable);
    assert!(route_change_error(RouteChangeReason::NewDeviceAvailable).is_none());
    let session = stream_config_from_asbd(&asbd_from_config(cfg(2), SampleFormat::F32));
    let input = ios_input_configs(session);
    assert_eq!(input.len(), 1);
    assert_eq!(input[0].buffer_size, SupportedBufferSize::Range { min: 0, max: 0 });
    let output = ios_output_configs(session, 2);
    assert_eq!(output.len(), 2);
    assert_eq!((output[0].channels, output[1].channels), (1, 2));
    assert_eq!(ios_output_configs(session, 65_537).len(), 1);
}

#[test]
fn transports_and_device_formats() {
    assert_eq!(transport_interface_type(TRANSPORT_BUILT_IN), Some(InterfaceType::BuiltIn));
    assert_eq!(transport_interface_type(TRANSPORT_USB), Some(InterfaceType::Usb));
    assert_eq!(transport_interface_type(TRANSPORT_BLUETOOTH_LE), Some(InterfaceType::Bluetooth));
    assert_eq!(transport_interface_type(TRANSPORT_AVB), Some(InterfaceType::Network));
    assert_eq!(transport_interface_type(0), None);
    assert_eq!(default_sample_format(DecodedFormat::Pcm(Some(SampleFormat::F32))).unwrap(), SampleFormat::F32);
    assert_eq!(default_sample_format(DecodedFormat::Pcm(Some(SampleFormat::I16))).unwrap(), SampleFormat::I16);
    assert_eq!(default_sample_format(DecodedFormat::Pcm(Some(SampleFormat::I24))).unwrap_err().kind, ErrorKind::UnsupportedConfig);
    assert_eq!(default_sample_format(DecodedFormat::Pcm(None)).unwrap_err().kind, ErrorKind::UnsupportedConfig);
    assert_eq!(default_sample_format(DecodedFormat::NotLinearPcm).unwrap_err().kind, ErrorKind::UnsupportedConfig);

    let buffer = SupportedBufferSize::Range { min: 14, max: 4096 };
    let physical = vec![
        PhysicalFormat { decoded: DecodedFormat::Pcm(Some(SampleFormat::I24)), channels_per_frame: 2, min_rate: 44_100, max_rate: 44_100 },
        PhysicalFormat { decoded: DecodedFormat::Pcm(Some(SampleFormat::F32)), channels_per_frame: 2, min_rate: 48_000, max_rate: 48_000 },
        PhysicalFormat { decoded: DecodedFormat::NotLinearPcm, channels_per_frame: 2, min_rate: 48_000, max_rate: 48_000 },
        PhysicalFormat { decoded: DecodedFormat::Pcm(Some(SampleFormat::I16)), channels_per_frame: 1, min_rate: 8_000, max_rate: 96_000 },
    ];
    let v = device_config_ranges(&vec![2, 2], &vec![(44_100, 44_100), (48_000, 48_000)], buffer, &physical);
    assert_eq!(v.len(), 4);
    assert_eq!((v[0].channels, v[0].min_sample_rate, v[0].sample_format), (4, 44_100, SampleFormat::F32));
    assert_eq!((v[1].channels, v[1].max_sample_rate, v[1].sample_format), (4, 48_000, SampleFormat::F32));
    assert_eq!((v[2].channels, v[2].min_sample_rate, v[2].sample_format), (2, 44_100, SampleFormat::I24));
    assert_eq!((v[3].channels, v[3].max_sample_rate, v[3].sample_format), (1, 96_000, SampleFormat::I16));
    assert_eq!(v[3].buffer_size, buffer);
    assert!(device_config_ranges(&vec![], &vec![(48_000, 48_000)], buffer, &physical).is_empty());
}

#[test]
fn device_monitor_reactions() {
    match device_monitor_action(MonitoredProperty::DeviceIsAlive) {
        MonitorAction::ReportLost(e) => {
            assert_eq!(e.kind, ErrorKind::DeviceNotAvailable);
            assert_eq!(e.message.as_deref(), Some("Device disconnected"));
        }
        _ => panic!("expected a lost device"),
    }
    match device_monitor_action(MonitoredProperty::NominalSampleRate) {
        MonitorAction::ReportLost(e) => assert_eq!(e.kind, ErrorKind::StreamInvalidated),
        _ => panic!("expected an invalidated stream"),
    }
    assert!(matches!(device_monitor_action(MonitoredProperty::BufferFrameSize), MonitorAction::RefreshLatency));
    assert!(matches!(device_monitor_action(MonitoredProperty::ProcessorOverload), MonitorAction::MarkXrun));
}

#[test]
fn listener_registration_reports_the_first_failure() {
    let fail = |m: &str| Err(Error::with_message(ErrorKind::BackendError, m));
    assert!(listeners_registered(Ok(()), Ok(()), Ok(()), Ok(())).is_ok());
    let r = listeners_registered(Ok(()), fail("rate"), fail("buffer"), Ok(()));
    assert_eq!(r.unwrap_err().message.as_deref(), Some("rate"));
    let r = listeners_registered(Ok(()), Ok(()), Ok(()), fail("overload"));
    assert_eq!(r.unwrap_err().message.as_deref(), Some("overload"));
    let r = monitor_ready(None);
    assert_eq!(r.unwrap_err().kind, ErrorKind::StreamInvalidated);
    assert!(monitor_ready(Some(Ok(()))).is_ok());
}

#[test]
fn default_output_reactions() {
    assert!(matches!(default_output_action(DefaultOutputEvent::LatencyChanged, false), DefaultOutputAction::RefreshLatency));
    match default_output_action(DefaultOutputEvent::DeviceChanged, false) {
        DefaultOutputAction::ReportLost(e) => assert_eq!(e.kind, ErrorKind::DeviceNotAvailable),
        _ => panic!("expected a lost device"),
    }
    match default_output_action(DefaultOutputEvent::DeviceChanged, true) {
        DefaultOutputAction::Rerouted(e) => {
            assert_eq!(e.kind, ErrorKind::DeviceChanged);
            assert_eq!(e.message.as_deref(), Some("default output device changed"));
        }
        _ => panic!("expected a reroute"),
    }
}
