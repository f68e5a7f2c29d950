use std::sync::mpsc::channel;

use cpal_host::format::{BufferSize, DeviceDirection, ErrorKind, SampleFormat, StreamConfig};
use cpal_host::pipewire::{
    audio_format, device_node_props, init_guard_acquire, init_guard_release, input_instants,
    node_from_props, node_info_from_props, output_instants, play_command, pw_properties,
    pw_time_from_query, role_of_class, settings_from_reply, state_change_error, supported_formats,
    AudioFormat, Class, Message, MessageRepl, NodeInfo, NodeKind, PwStreamState, PwTime, Role,
    Settings, StreamCommand,
};
use cpal_host::pipewire::{
    input_cycle, output_cycle, promoter_step, promotion_thread_error, stream_init_outcome, stream_thread_error, PromoterStep,
};
use cpal_host::pipewire_client::{ConnectionState, PWClient, ThreadAction};
use cpal_host::time::{Duration, StreamInstant};

fn props(pairs: &[(&str, &str)]) -> Vec<(String, String)> {
    pairs.iter().map(|(k, v)| (k.to_string(), v.to_string())).collect()
}

fn lookup<'a>(p: &'a [(String, String)], key: &str) -> Option<&'a str> {
    p.iter().find(|(k, _)| k == key).map(|(_, v)| v.as_str())
}

fn settings() -> Settings {
    Settings {
        allowed_sample_rates: vec![44_100, 48_000],
        min_buffer_size: 32,
        max_buffer_size: 8192,
        default_buffer_size: 1024,
    }
}

#[test]
fn roles_of_media_classes() {
    assert_eq!(role_of_class("Audio/Sink"), Some(Role::Sink));
    assert_eq!(role_of_class("Audio/Source"), Some(Role::Source));
    assert_eq!(role_of_class("Audio/Duplex"), Some(Role::Duplex));
    assert_eq!(role_of_class("Stream/Output/Audio"), Some(Role::StreamOutput));
    assert_eq!(role_of_class("Stream/Input/Audio"), Some(Role::StreamInput));
    assert_eq!(role_of_class("Video/Source"), None);
}

#[test]
fn offered_formats_have_pipewire_names() {
    for le in [true, false] {
        for f in supported_formats() {
            assert_ne!(audio_format(f, le), AudioFormat::Unknown);
        }
    }
    assert_eq!(audio_format(SampleFormat::F32, true), AudioFormat::F32LE);
    assert_eq!(audio_format(SampleFormat::I24, false), AudioFormat::S24BE);
    assert_eq!(audio_format(SampleFormat::DsdU8, true), AudioFormat::Unknown);
}

#[test]
fn nodes_read_from_properties() {
    let p = props(&[
        ("media.class", "Audio/Sink"),
        ("object.serial", "77"),
        ("node.name", "alsa_output"),
        ("node.description", "Speakers"),
        ("audio.channels", "6"),
        ("node.rate", "1/96000"),
        ("node.latency", "512/48000"),
    ]);
    let (d, o) = node_from_props(&p).unwrap();
    assert_eq!(d.role, Role::Sink);
    assert_eq!(d.direction, DeviceDirection::Duplex);
    assert_eq!(d.class, Class::Node);
    assert_eq!(d.object_serial, 77);
    assert_eq!(d.node_name, "alsa_output");
    assert_eq!(d.nick_name, "Speakers");
    assert_eq!(d.channels, 6);
    assert_eq!(o.rate, Some(96_000));
    assert_eq!(o.quantum, Some(512));
    assert!(node_from_props(&props(&[("media.class", "Audio/Sink")])).is_none());
    assert!(node_from_props(&props(&[("media.class", "Midi/Bridge"), ("object.serial", "1")])).is_none());
}

#[test]
fn stream_properties() {
    let p = props(&[("media.class", "Audio/Sink"), ("object.serial", "77")]);
    let (d, _) = node_from_props(&p).unwrap();
    let cfg = StreamConfig { channels: 2, sample_rate: 48_000, buffer_size: BufferSize::Fixed(256) };
    let sp = pw_properties(&d, DeviceDirection::Input, &cfg, 4321);
    assert_eq!(lookup(&sp, "media.type"), Some("Audio"));
    assert_eq!(lookup(&sp, "media.category"), Some("Capture"));
    assert_eq!(lookup(&sp, "stream.capture.sink"), Some("true"));
    assert_eq!(lookup(&sp, "target.object"), Some("77"));
    assert_eq!(lookup(&sp, "node.group"), Some("cpal-4321"));
    assert_eq!(lookup(&sp, "node.force-quantum"), Some("256"));
    assert_eq!(sp.len(), 6);
    let cfg = StreamConfig { channels: 2, sample_rate: 48_000, buffer_size: BufferSize::Default };
    let sp = pw_properties(&d, DeviceDirection::Output, &cfg, 1);
    assert_eq!(lookup(&sp, "media.category"), Some("Playback"));
    assert_eq!(lookup(&sp, "stream.capture.sink"), None);
    assert_eq!(lookup(&sp, "node.force-quantum"), None);
    assert_eq!(lookup(&sp, "node.group"), Some("cpal-1"));
    assert_eq!(sp.len(), 4);
}

#[test]
fn created_nodes() {
    let p = device_node_props("cpal-dev", NodeKind::InputDevice, true);
    assert_eq!(lookup(&p, "node.name"), Some("cpal-dev"));
    assert_eq!(lookup(&p, "factory.name"), Some("support.null-audio-sink"));
    assert_eq!(lookup(&p, "media.category"), Some("Capture"));
    assert_eq!(lookup(&p, "node.autoconnect"), Some("true"));
    let info = node_info_from_props(9, &props(&[("media.class", "Audio/Source"), ("node.description", "Mic")])).unwrap();
    assert_eq!(info.id, 9);
    assert_eq!(info.name, "Mic");
    let info = node_info_from_props(3, &props(&[("media.class", "Audio/Sink")])).unwrap();
    assert_eq!(info.name, "Unknown device");
    assert!(node_info_from_props(3, &props(&[("media.class", "Video/Sink")])).is_none());
}

#[test]
fn replies_and_state_changes() {
    let s = settings_from_reply(Ok(MessageRepl::Settings(settings()))).unwrap();
    assert_eq!(s.default_buffer_size, 1024);
    assert_eq!(settings_from_reply(Err("gone".to_string())).unwrap_err(), "gone");
    let wrong = MessageRepl::NodeInfo(NodeInfo { name: "n".to_string(), id: 1 });
    assert_eq!(settings_from_reply(Ok(wrong)).unwrap_err(), "");
    let e = state_change_error(&PwStreamState::Error("broken pipe".to_string())).unwrap();
    assert_eq!(e.kind, ErrorKind::BackendError);
    assert_eq!(e.message.as_deref(), Some("broken pipe"));
    assert!(state_change_error(&PwStreamState::Streaming).is_none());
    assert_eq!(play_command(true), StreamCommand::Toggle(true));
    assert_eq!(play_command(false), StreamCommand::Toggle(false));
}

#[test]
fn init_guard_counts() {
    assert_eq!(init_guard_acquire(0), (1, true));
    assert_eq!(init_guard_acquire(1), (2, false));
    assert_eq!(init_guard_release(2), (1, false));
    assert_eq!(init_guard_release(1), (0, true));
    let (after, _) = init_guard_acquire(5);
    assert_eq!(init_guard_release(after).0, 5);
}

#[test]
fn clock_readings() {
    assert_eq!(pw_time_from_query(-1, 10, 0, 1, 48_000), None);
    assert_eq!(pw_time_from_query(0, 0, 0, 1, 48_000), None);
    assert_eq!(pw_time_from_query(0, 10, 0, 1, 0), None);
    let t = pw_time_from_query(0, 5_000_000_000, 480, 1, 48_000).unwrap();
    assert_eq!(t, PwTime { now_ns: 5_000_000_000, delay_ns: 10_000_000 });
    let t = pw_time_from_query(0, 5_000_000_000, -480, 1, 48_000).unwrap();
    assert_eq!(t.delay_ns, -10_000_000);
    let (cb, cap) = input_instants(Some(PwTime { now_ns: 1_000, delay_ns: 300 }), None, Duration::zero()).unwrap();
    assert_eq!((cb.as_nanos(), cap.as_nanos()), (1_000, 700));
    let (cb, pl) = output_instants(Some(PwTime { now_ns: 1_000, delay_ns: -5 }), None, Duration::zero()).unwrap();
    assert_eq!((cb.as_nanos(), pl.as_nanos()), (1_000, 1_000));
    let clock = StreamInstant::from_nanos(2_000);
    let (_, cap) = input_instants(None, Some(clock), Duration::from_nanos(5_000)).unwrap();
    assert_eq!(cap.as_nanos(), 0);
    let (_, pl) = output_instants(None, Some(clock), Duration::from_nanos(5_000)).unwrap();
    assert_eq!(pl.as_nanos(), 7_000);
    assert!(input_instants(None, None, Duration::zero()).is_err());
    assert!(output_instants(None, None, Duration::zero()).is_err());
}

#[test]
fn client_round_trips_over_its_channels() {
    let (pw_sender, pw_receiver) = channel::<Message>();
    let (main_sender, main_receiver) = channel::<MessageRepl>();
    let client = PWClient::from_channels(pw_sender, main_receiver);
    main_sender.send(MessageRepl::Settings(settings())).unwrap();
    let s = client.get_settings().unwrap();
    assert_eq!(s.allowed_sample_rates, vec![44_100, 48_000]);
    assert!(matches!(pw_receiver.recv().unwrap(), Message::GetSettings));
    main_sender.send(MessageRepl::NodeInfo(NodeInfo { name: "cpal".to_string(), id: 12 })).unwrap();
    let n = client.create_device_node("cpal".to_string(), NodeKind::OutputDevice, false).unwrap();
    assert_eq!(n.id, 12);
    match pw_receiver.recv().unwrap() {
        Message::CreateDeviceNode { name, device_type, autoconnect } => {
            assert_eq!(name, "cpal");
            assert_eq!(device_type, NodeKind::OutputDevice);
            assert!(!autoconnect);
        }
        other => panic!("unexpected message {:?}", other),
    }
    client.terminate();
    assert!(matches!(pw_receiver.recv().unwrap(), Message::Terminate));
    // With the connection thread gone, a request fails with its own debug text.
    drop(pw_receiver);
    assert_eq!(client.get_settings().unwrap_err(), "GetSettings");
    let e = client.create_device_node("cpal".to_string(), NodeKind::InputDevice, true).unwrap_err();
    assert_eq!(e, "CreateDeviceNode { name: \"cpal\", device_type: InputDevice, autoconnect: true }");
}

fn empty_settings() -> Settings {
    Settings { allowed_sample_rates: Vec::new(), min_buffer_size: 0, max_buffer_size: 0, default_buffer_size: 0 }
}

#[test]
fn metadata_allowed_rates_list_is_read() {
    let mut s = empty_settings();
    s.apply_metadata_property(Some("clock.allowed-rates"), Some("[ 44100 48000 ]"));
    assert_eq!(s.allowed_sample_rates, vec![44100, 48000]);
}

#[test]
fn metadata_numeric_keys_set_buffer_sizes() {
    let mut s = empty_settings();
    s.allowed_sample_rates = vec![48000];
    s.apply_metadata_property(Some("clock.quantum"), Some("1024"));
    s.apply_metadata_property(Some("clock.min-quantum"), Some("32"));
    s.apply_metadata_property(Some("clock.max-quantum"), Some("8192"));
    assert_eq!((s.default_buffer_size, s.min_buffer_size, s.max_buffer_size), (1024, 32, 8192));
    assert_eq!(s.allowed_sample_rates, vec![48000]);
}

#[test]
fn metadata_clock_rate_fills_empty_rate_list() {
    let mut s = empty_settings();
    s.apply_metadata_property(Some("clock.rate"), Some("96000"));
    assert_eq!(s.allowed_sample_rates, vec![96000]);
    let mut t = empty_settings();
    t.apply_metadata_property(Some("log.level"), Some("2"));
    assert_eq!(t.allowed_sample_rates, vec![0]);
    let mut u = empty_settings();
    u.apply_metadata_property(None, None);
    assert_eq!(u.allowed_sample_rates, vec![0]);
}

#[test]
fn connection_state_records_audio_nodes() {
    let mut state = ConnectionState::new();
    assert_eq!(state.device_count(), 0);
    state.add_node(31, &props(&[("media.class", "Audio/Sink"), ("node.nick", "Speakers")]));
    state.add_node(32, &props(&[("media.class", "Video/Source"), ("node.nick", "Camera")]));
    state.add_node(33, &props(&[("media.class", "Audio/Source"), ("node.description", "Mic")]));
    assert_eq!(state.device_count(), 2);
    let sink = state.device(31).unwrap();
    assert_eq!((sink.name.as_str(), sink.id), ("Speakers", 31));
    assert!(state.device(32).is_none());
    assert_eq!(state.device(33).unwrap().name, "Mic");
    state.add_node(31, &props(&[("media.class", "Audio/Sink")]));
    assert_eq!(state.device_count(), 2);
    assert_eq!(state.device(31).unwrap().name, "Unknown device");
}

#[test]
fn connection_state_answers_messages() {
    let mut state = ConnectionState::new();
    state.settings.apply_metadata_property(Some("clock.allowed-rates"), Some("[ 44100 ]"));
    state.settings.apply_metadata_property(Some("clock.quantum"), Some("256"));
    assert!(matches!(state.handle_message(Message::Terminate), ThreadAction::Quit));
    assert!(matches!(state.handle_message(Message::EnumerateDevices), ThreadAction::Ignore));
    match state.handle_message(Message::GetSettings) {
        ThreadAction::Reply(MessageRepl::Settings(s)) => {
            assert_eq!(s.allowed_sample_rates, vec![44100]);
            assert_eq!(s.default_buffer_size, 256);
        }
        _ => panic!("expected a settings reply"),
    }
    let request = Message::CreateDeviceNode { name: "mix".to_string(), device_type: NodeKind::InputDevice, autoconnect: true };
    match state.handle_message(request) {
        ThreadAction::CreateNode { name, props } => {
            assert_eq!(name, "mix");
            assert_eq!(lookup(&props, "node.name"), Some("mix"));
            assert_eq!(lookup(&props, "media.category"), Some("Capture"));
            assert_eq!(lookup(&props, "node.autoconnect"), Some("true"));
        }
        _ => panic!("expected a node creation"),
    }
}

#[test]
fn promoter_serves_requests_until_shutdown() {
    assert_eq!(promoter_step(false, 0), PromoterStep::Park);
    assert_eq!(promoter_step(false, 512), PromoterStep::Promote(512));
    assert_eq!(promoter_step(true, 512), PromoterStep::Exit);
    let e = promotion_thread_error("out of memory");
    assert_eq!(e.kind, ErrorKind::ResourceExhausted);
    assert_eq!(e.message.as_deref(), Some("failed to create real-time promotion thread: out of memory"));
}

#[test]
fn stream_start_up_outcomes() {
    assert!(stream_init_outcome(Some(true)).is_ok());
    let rejected = stream_init_outcome(Some(false)).unwrap_err();
    assert_eq!(rejected.kind, ErrorKind::UnsupportedConfig);
    assert_eq!(rejected.message.as_deref(), Some("stream configuration rejected by PipeWire"));
    let timed_out = stream_init_outcome(None).unwrap_err();
    assert_eq!(timed_out.kind, ErrorKind::DeviceNotAvailable);
    let e = stream_thread_error("no resources");
    assert_eq!(e.kind, ErrorKind::Other);
    assert_eq!(e.message.as_deref(), Some("failed to create thread: no resources"));
}

#[test]
fn client_reports_lost_and_mismatched_replies() {
    let (pw_sender, pw_receiver) = channel::<Message>();
    let (main_sender, main_receiver) = channel::<MessageRepl>();
    let client = PWClient::from_channels(pw_sender, main_receiver);
    main_sender.send(MessageRepl::NodeInfo(NodeInfo { name: "cpal".to_string(), id: 3 })).unwrap();
    assert_eq!(client.get_settings().unwrap_err(), "");
    main_sender.send(MessageRepl::Settings(settings())).unwrap();
    assert_eq!(client.create_device_node("x".to_string(), NodeKind::InputDevice, false).unwrap_err(), "");
    drop(main_sender);
    assert_eq!(client.get_settings().unwrap_err(), "RecvError");
    assert!(matches!(pw_receiver.recv().unwrap(), Message::GetSettings));
}

#[test]
fn process_cycles_size_their_buffers() {
    assert!(output_cycle(0, SampleFormat::F32, 256, 8192).is_none());
    let c = output_cycle(2, SampleFormat::F32, 256, 8192).unwrap();
    assert_eq!((c.frames, c.samples, c.active_bytes), (256, 512, 2048));
    assert_eq!((c.chunk_offset, c.chunk_stride, c.chunk_size), (0, 8, 2048));
    let capped = output_cycle(2, SampleFormat::F32, 4096, 8192).unwrap();
    assert_eq!((capped.frames, capped.chunk_size), (1024, 8192));
    assert_eq!(input_cycle(2, SampleFormat::I16, 4096), Some((2048, 1024)));
    assert_eq!(input_cycle(0, SampleFormat::I16, 4096), None);
}
