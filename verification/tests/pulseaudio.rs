use cpal_host::format::{
    BufferSize, BuildStreamError, DefaultStreamConfigError, DeviceDirection, SampleFormat,
    StreamConfig, SupportedBufferSize,
};
use cpal_host::pulseaudio::{
    capture_timestamp, default_config_from_spec, drain_wait, make_channel_map,
    make_playback_buffer_attr, make_record_buffer_attr, make_sample_spec, playback_latency, playback_write_plan,
    playback_timestamp, pulse_format_for, pulse_formats, record_latency, reported_latency,
    sample_format_from_pulse, samples_in_buffer, server_chosen, silence_byte,
    stream_buffer_frames, supported_config_ranges, BufferAttr, ChannelPosition, Device,
    DeviceInfo, PulseSampleFormat, PulseSampleSpec,
};
use cpal_host::time::Duration;

fn config(channels: u16, buffer_size: BufferSize) -> StreamConfig {
    StreamConfig { channels, sample_rate: 48_000, buffer_size }
}

fn info(format: PulseSampleFormat, channel_count: u8) -> DeviceInfo {
    DeviceInfo {
        index: 42,
        name: "alsa_output.pci".to_string(),
        description: Some("Built-in Audio".to_string()),
        sample_spec: PulseSampleSpec { format, channels: channel_count, sample_rate: 44_100 },
        channel_count,
    }
}

#[test]
fn formats_round_trip_through_the_protocol_in_both_byte_orders() {
    for le in [true, false] {
        for f in pulse_formats() {
            let p = pulse_format_for(f, le).unwrap();
            assert_eq!(sample_format_from_pulse(p), Some(f));
        }
        assert_eq!(pulse_format_for(SampleFormat::U16, le), None);
        assert_eq!(pulse_format_for(SampleFormat::F64, le), None);
    }
    assert_eq!(pulse_format_for(SampleFormat::I16, true), Some(PulseSampleFormat::S16Le));
    assert_eq!(pulse_format_for(SampleFormat::F32, false), Some(PulseSampleFormat::Float32Be));
    assert_eq!(sample_format_from_pulse(PulseSampleFormat::Alaw), None);
    assert_eq!(sample_format_from_pulse(PulseSampleFormat::S24In32Le), None);
    assert_eq!(sample_format_from_pulse(PulseSampleFormat::Invalid), None);
}

#[test]
fn bytes_per_sample_of_each_encoding() {
    assert_eq!(PulseSampleFormat::Invalid.bytes_per_sample(), 0);
    assert_eq!(PulseSampleFormat::Ulaw.bytes_per_sample(), 1);
    assert_eq!(PulseSampleFormat::S16Be.bytes_per_sample(), 2);
    assert_eq!(PulseSampleFormat::S24Le.bytes_per_sample(), 3);
    assert_eq!(PulseSampleFormat::S24In32Be.bytes_per_sample(), 4);
    assert_eq!(PulseSampleFormat::Float32Le.bytes_per_sample(), 4);
}

#[test]
fn offered_ranges_cover_every_format_and_channel_count() {
    let ranges = supported_config_ranges();
    assert_eq!(ranges.len(), 5 * 31);
    let first = ranges[0];
    assert_eq!(first.sample_format, SampleFormat::U8);
    assert_eq!(first.channels, 1);
    assert_eq!(first.min_sample_rate, 1);
    assert_eq!(first.max_sample_rate, 768_000);
    assert_eq!(first.buffer_size, SupportedBufferSize::Range { min: 0, max: 4_194_304 });
    // Stereo I16: four bytes a frame.
    let stereo = ranges[32];
    assert_eq!(stereo.sample_format, SampleFormat::I16);
    assert_eq!(stereo.channels, 2);
    assert_eq!(stereo.buffer_size, SupportedBufferSize::Range { min: 0, max: 1_048_576 });
    let last = ranges[ranges.len() - 1];
    assert_eq!(last.sample_format, SampleFormat::F32);
    assert_eq!(last.channels, 31);
    assert_eq!(last.buffer_size, SupportedBufferSize::Range { min: 0, max: 4_194_304 / 124 });
}

#[test]
fn default_config_follows_the_native_spec() {
    let spec = PulseSampleSpec { format: PulseSampleFormat::S16Le, channels: 2, sample_rate: 44_100 };
    let c = default_config_from_spec(&spec, 2).unwrap();
    assert_eq!(c.channels, 2);
    assert_eq!(c.sample_rate, 44_100);
    assert_eq!(c.sample_format, SampleFormat::I16);
    assert_eq!(c.buffer_size, SupportedBufferSize::Range { min: 0, max: 1_048_576 });
    let alaw = PulseSampleSpec { format: PulseSampleFormat::Alaw, channels: 1, sample_rate: 8_000 };
    assert!(matches!(
        default_config_from_spec(&alaw, 1),
        Err(DefaultStreamConfigError::StreamTypeNotSupported)
    ));
}

#[test]
fn channel_maps_follow_the_standard_layouts() {
    assert_eq!(make_channel_map(config(1, BufferSize::Default)), vec![ChannelPosition::Mono]);
    assert_eq!(
        make_channel_map(config(4, BufferSize::Default)),
        vec![
            ChannelPosition::FrontLeft,
            ChannelPosition::FrontRight,
            ChannelPosition::RearLeft,
            ChannelPosition::RearRight
        ]
    );
    let twelve = make_channel_map(config(12, BufferSize::Default));
    assert_eq!(twelve.len(), 12);
    assert_eq!(twelve[8], ChannelPosition::TopFrontLeft);
    assert_eq!(twelve[11], ChannelPosition::TopRearRight);
    let nine = make_channel_map(config(9, BufferSize::Default));
    assert_eq!(nine, (0..9u8).map(ChannelPosition::Aux).collect::<Vec<_>>());
    assert_eq!(make_channel_map(config(40, BufferSize::Default)).len(), 32);
    assert!(make_channel_map(config(0, BufferSize::Default)).is_empty());
    for ch in 0..=32u16 {
        assert_eq!(make_channel_map(config(ch, BufferSize::Default)).len(), ch as usize);
    }
}

#[test]
fn buffer_attributes_for_fixed_and_default_sizes() {
    let fixed = config(2, BufferSize::Fixed(256));
    let play = make_playback_buffer_attr(fixed, PulseSampleFormat::Float32Le);
    assert_eq!(play.minimum_request_length, 2048);
    assert_eq!(play.max_length, 4096);
    assert_eq!(play.target_length, 4096);
    assert_eq!(play.pre_buffering, u32::MAX);
    assert_eq!(play.fragment_size, u32::MAX);
    let rec = make_record_buffer_attr(fixed, PulseSampleFormat::S16Le);
    assert_eq!(rec.max_length, 1024);
    assert_eq!(rec.fragment_size, 1024);
    assert_eq!(rec.target_length, u32::MAX);
    assert_eq!(make_playback_buffer_attr(config(2, BufferSize::Default), PulseSampleFormat::U8), server_chosen());
    assert_eq!(make_record_buffer_attr(config(2, BufferSize::Default), PulseSampleFormat::U8), server_chosen());
}

#[test]
fn sample_spec_cuts_channels_to_a_byte() {
    let s = make_sample_spec(config(258, BufferSize::Default), PulseSampleFormat::S32Le);
    assert_eq!(s, PulseSampleSpec { format: PulseSampleFormat::S32Le, channels: 2, sample_rate: 48_000 });
}

#[test]
fn devices_offer_only_their_direction() {
    let sink = Device::Sink { info: info(PulseSampleFormat::Float32Le, 2) };
    let source = Device::Source { info: info(PulseSampleFormat::S16Le, 1) };
    assert_eq!(sink.direction(), DeviceDirection::Output);
    assert_eq!(source.direction(), DeviceDirection::Input);
    assert!(sink.supported_input_configs().is_empty());
    assert_eq!(sink.supported_output_configs().len(), 155);
    assert!(source.supported_output_configs().is_empty());
    assert_eq!(source.supported_input_configs().len(), 155);
    assert!(matches!(sink.default_input_config(), Err(DefaultStreamConfigError::StreamTypeNotSupported)));
    assert!(matches!(source.default_output_config(), Err(DefaultStreamConfigError::StreamTypeNotSupported)));
    let c = sink.default_output_config().unwrap();
    assert_eq!(c.sample_format, SampleFormat::F32);
    assert_eq!(c.channels, 2);
    assert_eq!(c.sample_rate, 44_100);
    assert_eq!(sink.id(), "42");
    assert_eq!(sink.name(), "alsa_output.pci");
}

#[test]
fn stream_plans() {
    let sink = Device::Sink { info: info(PulseSampleFormat::Float32Le, 2) };
    let source = Device::Source { info: info(PulseSampleFormat::S16Le, 1) };
    let cfg = config(2, BufferSize::Fixed(128));
    assert!(matches!(
        sink.plan_input_stream(cfg, SampleFormat::I16, true),
        Err(BuildStreamError::StreamConfigNotSupported)
    ));
    assert!(matches!(
        source.plan_output_stream(cfg, SampleFormat::I16, true),
        Err(BuildStreamError::StreamConfigNotSupported)
    ));
    assert!(matches!(
        sink.plan_output_stream(cfg, SampleFormat::U16, true),
        Err(BuildStreamError::StreamConfigNotSupported)
    ));
    let plan = sink.plan_output_stream(cfg, SampleFormat::F32, true).unwrap();
    assert_eq!(plan.sample_spec.format, PulseSampleFormat::Float32Le);
    assert_eq!(plan.channel_map, vec![ChannelPosition::FrontLeft, ChannelPosition::FrontRight]);
    assert!(plan.start_corked);
    assert!(plan.adjust_latency);
    assert_eq!(plan.buffer_attr.minimum_request_length, 1024);
    let plan = source.plan_input_stream(config(1, BufferSize::Default), SampleFormat::I32, false).unwrap();
    assert_eq!(plan.sample_spec.format, PulseSampleFormat::S32Be);
    assert!(!plan.adjust_latency);
    assert_eq!(plan.buffer_attr, server_chosen());
}

#[test]
fn silence_and_sample_counts() {
    assert_eq!(silence_byte(SampleFormat::U8), 0x80);
    assert_eq!(silence_byte(SampleFormat::I16), 0);
    assert_eq!(silence_byte(SampleFormat::F32), 0);
    assert_eq!(samples_in_buffer(4096, PulseSampleFormat::Float32Le), 1024);
    assert_eq!(samples_in_buffer(7, PulseSampleFormat::S24Le), 2);
}

#[test]
fn latency_interpolation() {
    // 30 ms after the poll, 100 ms of measured playback latency has 70 ms left.
    assert_eq!(playback_latency(100_000, 1_000_000, 1_030_000), 70_000);
    // The span is capped at 100 ms, and latency never goes below zero.
    assert_eq!(playback_latency(150_000, 0, 10_000_000), 50_000);
    assert_eq!(playback_latency(20_000, 0, 50_000), 0);
    // A poll later than the callback counts as no time passed.
    assert_eq!(playback_latency(20_000, 60_000, 50_000), 20_000);
    assert_eq!(record_latency(100_000, 1_000_000, 1_030_000), 130_000);
    assert_eq!(record_latency(100_000, 0, 10_000_000), 200_000);
    assert_eq!(record_latency(u64::MAX - 5, 0, 10), u64::MAX);
}

#[test]
fn latency_never_grows_during_playback_nor_shrinks_during_capture() {
    let mut last_play = u64::MAX;
    let mut last_rec = 0;
    for e in (0..300_000u64).step_by(7_000) {
        let p = playback_latency(80_000, 10_000, e);
        let r = record_latency(80_000, 10_000, e);
        assert!(p <= last_play && p <= 80_000);
        assert!(r >= last_rec && r >= 80_000);
        last_play = p;
        last_rec = r;
    }
}

#[test]
fn timestamps_follow_the_interpolated_latency() {
    let elapsed = Duration::from_millis(1_030);
    let t = playback_timestamp(elapsed, 100_000, 1_000_000);
    assert_eq!(t.callback.as_nanos(), 1_030_000_000);
    assert_eq!(t.device.as_nanos(), 1_100_000_000);
    let t = capture_timestamp(elapsed, 100_000, 1_000_000);
    assert_eq!(t.callback.as_nanos(), 1_030_000_000);
    assert_eq!(t.device.as_nanos(), 900_000_000);
    // Capture earlier than creation is clamped to creation.
    let t = capture_timestamp(Duration::from_millis(10), 100_000, 0);
    assert_eq!(t.device.as_nanos(), 0);
}

#[test]
fn reported_latency_adds_the_queued_audio() {
    let spec = PulseSampleSpec { format: PulseSampleFormat::S16Le, channels: 2, sample_rate: 48_000 };
    // 19_200 bytes is 4800 frames, 100 ms.
    assert_eq!(reported_latency(spec, 5_000, 20_000, 800), 105_000);
    // A reader ahead of the writer queues nothing.
    assert_eq!(reported_latency(spec, 5_000, 100, 800), 5_000);
    assert_eq!(reported_latency(spec, u64::MAX, 20_000, 800), u64::MAX);
    // 1.5 s of audio: whole seconds and the remainder both count.
    assert_eq!(reported_latency(spec, 0, 288_000, 0), 1_500_000);
}

#[test]
fn callback_frames_of_a_stream() {
    let spec = PulseSampleSpec { format: PulseSampleFormat::Float32Le, channels: 2, sample_rate: 48_000 };
    let attr = BufferAttr { minimum_request_length: 4096, fragment_size: 1000, ..server_chosen() };
    assert_eq!(stream_buffer_frames(spec, attr, true), 512);
    assert_eq!(stream_buffer_frames(spec, attr, false), 125);
}

#[test]
fn drain_waits() {
    assert_eq!(drain_wait(Some(Duration::zero()), 50_000), None);
    assert_eq!(drain_wait(None, 50_000), Some(Duration::from_micros(50_000)));
    assert_eq!(drain_wait(Some(Duration::from_millis(20)), 50_000), Some(Duration::from_millis(20)));
    assert_eq!(drain_wait(Some(Duration::from_millis(80)), 50_000), Some(Duration::from_millis(50)));
    assert_eq!(drain_wait(None, 0), None);
}

#[test]
fn playback_writes_skip_the_callback_while_draining() {
    let p = playback_write_plan(false, 4096, SampleFormat::I16, PulseSampleFormat::S16Le);
    assert_eq!((p.fill, p.callback_samples, p.written), (0, Some(2048), 4096));
    let p = playback_write_plan(true, 4096, SampleFormat::U8, PulseSampleFormat::U8);
    assert_eq!((p.fill, p.callback_samples, p.written), (0x80, None, 4096));
}
