use cpal_host::custom::SupportedConfigs;
use cpal_host::format::{
    BuildStreamError, DefaultStreamConfigError, SampleFormat, SupportedBufferSize,
    SupportedStreamConfigRange,
};
use cpal_host::latch::{is_released, wait_step, WaitStep};
use cpal_host::screencapturekit::{
    build_output_stream, default_input_config, default_output_config, display_name,
    media_time_to_stream_instant, needs_capture_call, raw_buffers_to_stream_data,
    supported_input_configs, supported_output_configs,
};

fn range(channels: u16) -> SupportedStreamConfigRange {
    SupportedStreamConfigRange {
        channels,
        min_sample_rate: 1,
        max_sample_rate: 2,
        buffer_size: SupportedBufferSize::Unknown,
        sample_format: SampleFormat::I16,
    }
}

#[test]
fn supported_configs_hand_out_ranges_in_order() {
    let mut configs = SupportedConfigs::new(vec![range(1), range(2)]);
    assert_eq!(configs.remaining(), 2);
    let copy = configs.clone();
    assert_eq!(configs.next(), Some(range(1)));
    assert_eq!(configs.next(), Some(range(2)));
    assert_eq!(configs.next(), None);
    assert_eq!(configs.remaining(), 0);
    assert_eq!(copy.remaining(), 2);
}

#[test]
fn latch_waits() {
    assert_eq!(wait_step(None), WaitStep::Abandoned);
    assert_eq!(wait_step(Some(false)), WaitStep::Park);
    assert_eq!(wait_step(Some(true)), WaitStep::Ready);
    assert!(is_released(Some(true)));
    assert!(!is_released(Some(false)));
    assert!(!is_released(None));
}

#[test]
fn screen_capture_configs() {
    let v = supported_input_configs();
    assert_eq!(v.len(), 1);
    assert_eq!((v[0].channels, v[0].max_sample_rate, v[0].sample_format), (2, 48_000, SampleFormat::F32));
    assert!(supported_output_configs().is_empty());
    let c = default_input_config();
    assert_eq!((c.channels, c.sample_rate, c.buffer_size), (2, 48_000, SupportedBufferSize::Unknown));
    assert!(matches!(default_output_config(), Err(DefaultStreamConfigError::StreamTypeNotSupported)));
    assert!(matches!(build_output_stream(), Err(BuildStreamError::StreamConfigNotSupported)));
    assert_eq!(display_name(1), "Display 1");
    assert_eq!(display_name(4_294_967_295), "Display 4294967295");
    assert!(needs_capture_call(false, true));
    assert!(!needs_capture_call(true, true));
}

#[test]
fn media_clock_and_buffers() {
    // 90_000 ticks per second: 135_045 ticks is 1.5005 s.
    assert_eq!(media_time_to_stream_instant(135_045, 90_000).as_nanos(), 1_500_500_000);
    assert_eq!(media_time_to_stream_instant(1, 3).as_nanos(), 333_333_333);
    let data = raw_buffers_to_stream_data(&vec![vec![1u16, 2, 3], vec![4, 5, 6, 7]], 0);
    assert_eq!(data, vec![1, 4, 2, 5, 3, 6]);
}
