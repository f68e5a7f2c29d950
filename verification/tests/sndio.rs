use cpal_host::sndio::{advance_transfer, idle_action, output_fill, resume_action, runner_latency, runner_timestamps, OutputFill, ResumeAction, Transfer,};
use cpal_host::time::Duration;
use cpal_host::format::{BufferSize, SampleFormat, StreamConfig, SupportedBufferSize};
use cpal_host::sndio::{
    check_negotiated, check_probe, determine_buffer_size, params_to_set, pause_stream,
    plan_stream, probe_params, set_xrun_behavior, supported_sample_rates, xrun_code,
    BufferXrunBehavior, DeviceStage, SampleRateMap, SioPar, SndioError,
};

fn par(rate: u32, round: u32) -> SioPar {
    SioPar {
        bits: 16,
        bps: 2,
        sig: 1,
        le: 1,
        msb: 1,
        rchan: 1,
        pchan: 2,
        rate,
        appbufsz: 0,
        bufsz: 0,
        round,
        xrun: 0,
    }
}

#[test]
fn probing() {
    assert_eq!(supported_sample_rates(), vec![8000, 44100, 48000]);
    assert_eq!(xrun_code(BufferXrunBehavior::Sync), 1);
    let p = probe_params(par(0, 0), 44_100, BufferXrunBehavior::Error, false);
    assert_eq!((p.bits, p.sig, p.le, p.rchan, p.pchan, p.rate, p.xrun), (16, 1, 0, 1, 1, 44_100, 2));
    assert!(check_negotiated(&par(48_000, 480)).is_ok());
    assert!(matches!(check_negotiated(&SioPar { bits: 24, ..par(48_000, 480) }), Err(SndioError::BackendSpecific(_))));
    assert!(check_negotiated(&SioPar { sig: 0, ..par(48_000, 480) }).is_err());
    assert!(check_probe(&SioPar { pchan: 1, ..par(48_000, 480) }, 48_000).is_ok());
    assert!(check_probe(&par(48_000, 480), 48_000).is_err());
    assert!(check_probe(&SioPar { pchan: 1, ..par(44_100, 480) }, 48_000).is_err());
    assert_eq!(params_to_set(par(1, 1), &par(48_000, 480)), par(48_000, 480));
}

#[test]
fn buffer_sizes_round_up_to_the_device_unit() {
    assert_eq!(determine_buffer_size(&BufferSize::Fixed(1000), 480, None).unwrap(), 1440);
    assert_eq!(determine_buffer_size(&BufferSize::Fixed(960), 480, None).unwrap(), 960);
    assert_eq!(determine_buffer_size(&BufferSize::Fixed(0), 480, None).unwrap(), 480);
    assert_eq!(determine_buffer_size(&BufferSize::Default, 480, None).unwrap(), 960);
    assert_eq!(determine_buffer_size(&BufferSize::Default, 480, Some(1440)).unwrap(), 1440);
    assert!(matches!(determine_buffer_size(&BufferSize::Fixed(100), 480, Some(960)), Err(SndioError::BackendSpecific(_))));
    for requested in 1..2000u32 {
        let size = determine_buffer_size(&BufferSize::Fixed(requested), 128, None).unwrap();
        assert_eq!(size % 128, 0);
        assert!(requested <= size && size < requested + 128);
    }
}

#[test]
fn rate_map_and_stream_plans() {
    let mut map = SampleRateMap::new();
    assert_eq!(map.insert(44_100, par(44_100, 441)), None);
    assert_eq!(map.insert(48_000, par(48_000, 441)), None);
    assert_eq!(map.insert(48_000, par(48_000, 480)), Some(par(48_000, 441)));
    assert_eq!(map.entries.len(), 2);
    assert_eq!(map.get(48_000), Some(par(48_000, 480)));
    assert_eq!(map.get(8_000), None);
    let configs = map.configs(false);
    assert_eq!(configs.len(), 2);
    assert_eq!(configs[1].channels, 2);
    assert_eq!(configs[1].buffer_size, SupportedBufferSize::Range { min: 480, max: 4800 });
    assert_eq!(configs[0].sample_format, SampleFormat::I16);
    let d = map.default_config(true).unwrap();
    assert_eq!((d.channels, d.sample_rate), (1, 48_000));
    assert!(SampleRateMap::new().default_config(true).is_err());

    let cfg = StreamConfig { channels: 2, sample_rate: 48_000, buffer_size: BufferSize::Fixed(1000) };
    assert!(plan_stream(DeviceStage::Init, &map, &cfg).is_err());
    let (p, size) = plan_stream(DeviceStage::Opened, &map, &cfg).unwrap();
    assert_eq!(size, 1440);
    assert_eq!(p.appbufsz, 1440);
    let running = DeviceStage::Running { par: p, buffer_size: size };
    assert_eq!(plan_stream(running, &map, &cfg).unwrap(), (p, 1440));
    let other_rate = StreamConfig { sample_rate: 44_100, ..cfg };
    assert!(plan_stream(running, &map, &other_rate).is_err());
    let other_size = StreamConfig { buffer_size: BufferSize::Fixed(100), ..cfg };
    assert!(plan_stream(running, &map, &other_size).is_err());
    let missing = StreamConfig { sample_rate: 96_000, ..cfg };
    assert!(plan_stream(DeviceStage::Opened, &map, &missing).is_err());
}

#[test]
fn xrun_behaviour_and_pausing() {
    assert_eq!(set_xrun_behavior(DeviceStage::Init, BufferXrunBehavior::Sync, BufferXrunBehavior::Ignore).unwrap(), BufferXrunBehavior::Ignore);
    assert!(set_xrun_behavior(DeviceStage::Opened, BufferXrunBehavior::Sync, BufferXrunBehavior::Ignore).is_err());
    assert!(matches!(pause_stream(), Err(SndioError::BackendSpecific(_))));
}

#[test]
fn runner_decisions() {
    assert_eq!(idle_action(true, false), None);
    assert_eq!(idle_action(false, false), Some(true));
    assert_eq!(idle_action(false, true), Some(false));
    assert_eq!(resume_action(false, false), ResumeAction::Run);
    assert_eq!(resume_action(false, true), ResumeAction::Spurious);
    assert_eq!(resume_action(true, true), ResumeAction::Start);
    assert_eq!(output_fill(0, true, false), (OutputFill::CallCallbacks, true));
    assert_eq!(output_fill(0, false, true), (OutputFill::Clear, false));
    assert_eq!(output_fill(0, false, false), (OutputFill::Keep, false));
    assert_eq!(output_fill(512, true, true), (OutputFill::Keep, true));
    assert_eq!(advance_transfer(0, 0, 1024), Transfer::Eof);
    assert_eq!(advance_transfer(0, 512, 1024), Transfer::Partial(512));
    assert_eq!(advance_transfer(512, 512, 1024), Transfer::Complete);
    assert_eq!(advance_transfer(512, 600, 1024), Transfer::Overrun);
    // 480 frames at 48 kHz are 10 ms.
    assert_eq!(runner_latency(480, 48_000), Duration::from_millis(10));
    assert_eq!(runner_latency(1, 3).as_nanos(), 333_333_333);
    let (cb, pl, cap) = runner_timestamps(Duration::from_millis(25), Duration::from_millis(10));
    assert_eq!((cb.as_nanos(), pl.as_nanos(), cap.as_nanos()), (25_000_000, 35_000_000, 15_000_000));
    let (cb, _, cap) = runner_timestamps(Duration::from_millis(5), Duration::from_millis(10));
    assert_eq!(cap, cb);
    // Past four seconds the sub-second part is the elapsed nanoseconds cut to 32 bits.
    let (cb, _, _) = runner_timestamps(Duration::new(5, 0), Duration::zero());
    assert_eq!(cb.as_nanos(), 5_000_000_000 + (5_000_000_000u64 as u32) as u128);
}
