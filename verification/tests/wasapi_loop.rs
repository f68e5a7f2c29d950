use cpal_host::format::{BuildStreamError, ErrorKind, SampleFormat, StreamError};
use cpal_host::wasapi_com::{
    com_initialized, error_from_hresult, error_kind, error_message, ErrorReport,
    RestrictedErrorDetails, AUDCLNT_E_BUFFER_SIZE_ERROR,
    AUDCLNT_E_DEVICE_IN_USE, AUDCLNT_E_NOT_STOPPED, AUDCLNT_E_RESOURCES_INVALIDATED,
    AUDCLNT_E_SERVICE_NOT_RUNNING, RPC_E_CHANGED_MODE,
};
use cpal_host::wasapi_format::AUDCLNT_E_DEVICE_INVALIDATED;
use cpal_host::wasapi_loop::{
    available_frames, buffer_samples, build_error_from_hresult, capture_stream_flags,
    next_stream_id, stream_error_from_hresult, Command, CommandAction, LoopStream, RunContext,
    AUDCLNT_STREAMFLAGS_EVENTCALLBACK, AUDCLNT_STREAMFLAGS_LOOPBACK,
};

fn stream(id: usize, event: u64) -> LoopStream {
    LoopStream {
        id,
        event,
        playing: false,
        max_frames_in_buffer: 480,
        bytes_per_frame: 8,
        sample_format: SampleFormat::F32,
    }
}

#[test]
fn com_results() {
    assert_eq!(com_initialized(0).unwrap().result, 0);
    assert!(com_initialized(1).unwrap().needs_uninitialize());
    let changed = com_initialized(RPC_E_CHANGED_MODE).unwrap();
    assert!(!changed.needs_uninitialize());
    assert!(com_initialized(-1).is_none());
}

#[test]
fn hresult_error_kinds() {
    assert_eq!(error_kind(AUDCLNT_E_SERVICE_NOT_RUNNING), ErrorKind::HostUnavailable);
    assert_eq!(error_kind(AUDCLNT_E_DEVICE_INVALIDATED), ErrorKind::DeviceNotAvailable);
    assert_eq!(error_kind(AUDCLNT_E_DEVICE_IN_USE), ErrorKind::DeviceBusy);
    assert_eq!(error_kind(AUDCLNT_E_RESOURCES_INVALIDATED), ErrorKind::StreamInvalidated);
    assert_eq!(error_kind(AUDCLNT_E_BUFFER_SIZE_ERROR), ErrorKind::UnsupportedConfig);
    assert_eq!(error_kind(AUDCLNT_E_NOT_STOPPED), ErrorKind::UnsupportedOperation);
    assert_eq!(error_kind(-1), ErrorKind::BackendError);
    let e = error_from_hresult(AUDCLNT_E_DEVICE_IN_USE, "in use");
    assert_eq!(e.kind, ErrorKind::DeviceBusy);
    assert_eq!(e.message.as_deref(), Some("in use"));
}

#[test]
fn stream_building_helpers() {
    assert_eq!(capture_stream_flags(false), AUDCLNT_STREAMFLAGS_EVENTCALLBACK);
    assert_eq!(capture_stream_flags(true), AUDCLNT_STREAMFLAGS_EVENTCALLBACK | AUDCLNT_STREAMFLAGS_LOOPBACK);
    assert!(matches!(build_error_from_hresult(AUDCLNT_E_DEVICE_INVALIDATED, "x"), BuildStreamError::DeviceNotAvailable));
    assert!(matches!(build_error_from_hresult(-5, "x"), BuildStreamError::BackendSpecific(d) if d == "x"));
    assert!(stream_error_from_hresult(0, "x").is_ok());
    assert!(matches!(stream_error_from_hresult(AUDCLNT_E_DEVICE_INVALIDATED, "x"), Err(StreamError::DeviceNotAvailable)));
    assert!(matches!(stream_error_from_hresult(-5, "boom"), Err(StreamError::BackendSpecific(d)) if d == "boom"));
    let mut counter = 7usize;
    assert_eq!(next_stream_id(&mut counter).unwrap(), 7);
    assert_eq!(counter, 8);
    let mut last = usize::MAX;
    assert!(matches!(next_stream_id(&mut last), Err(BuildStreamError::StreamIdOverflow)));
    assert_eq!(last, 0);
    assert_eq!(available_frames(480, 120), 360);
    assert_eq!(buffer_samples(360, 8, 4), 720);
}

#[test]
fn run_context_keeps_handles_in_step_with_streams() {
    let mut ctx = RunContext::new(100);
    assert_eq!(ctx.handles(), &vec![100]);
    assert_eq!(ctx.begin(Command::NewStream(stream(1, 11))), CommandAction::Nothing);
    assert_eq!(ctx.begin(Command::NewStream(stream(2, 22))), CommandAction::Nothing);
    assert_eq!(ctx.begin(Command::NewStream(stream(3, 33))), CommandAction::Nothing);
    assert_eq!(ctx.handles(), &vec![100, 11, 22, 33]);
    assert_eq!(ctx.signalled(0), None);
    assert_eq!(ctx.signalled(2), Some(1));
    assert_eq!(ctx.begin(Command::DestroyStream(2)), CommandAction::Nothing);
    assert_eq!(ctx.handles(), &vec![100, 11, 33]);
    assert_eq!(ctx.begin(Command::DestroyStream(9)), CommandAction::Nothing);
    assert_eq!(ctx.streams().len(), 2);
    assert_eq!(ctx.position(3), Some(1));
    assert_eq!(ctx.position(2), None);
}

#[test]
fn play_and_pause_go_through_the_device() {
    let mut ctx = RunContext::new(0);
    ctx.begin(Command::NewStream(stream(5, 50)));
    let a = ctx.begin(Command::PlayStream(5));
    assert_eq!(a, CommandAction::Start(0));
    assert!(!ctx.streams()[0].playing);
    assert!(ctx.complete(a, 0, "").is_none());
    assert!(ctx.streams()[0].playing);
    // Playing again needs no call.
    assert_eq!(ctx.begin(Command::PlayStream(5)), CommandAction::Nothing);
    let a = ctx.begin(Command::PauseStream(5));
    assert_eq!(a, CommandAction::Stop(0));
    assert!(ctx.complete(a, 1, "").is_none());
    assert!(!ctx.streams()[0].playing);
    assert_eq!(ctx.begin(Command::PauseStream(5)), CommandAction::Nothing);
    assert_eq!(ctx.begin(Command::PlayStream(6)), CommandAction::Nothing);
}

#[test]
fn a_failed_start_drops_the_stream() {
    let mut ctx = RunContext::new(0);
    ctx.begin(Command::NewStream(stream(5, 50)));
    ctx.begin(Command::NewStream(stream(6, 60)));
    let a = ctx.begin(Command::PlayStream(6));
    let (id, err) = ctx.complete(a, AUDCLNT_E_DEVICE_INVALIDATED, "gone").unwrap();
    assert_eq!(id, 6);
    assert!(matches!(err, StreamError::DeviceNotAvailable));
    assert_eq!(ctx.handles(), &vec![0, 50]);
    let a = ctx.begin(Command::PlayStream(5));
    let (id, err) = ctx.complete(a, -7, "failed").unwrap();
    assert_eq!(id, 5);
    assert!(matches!(err, StreamError::BackendSpecific(d) if d == "failed"));
    assert!(ctx.streams().is_empty());
}

#[test]
fn error_message_prefers_matching_restricted_details() {
    let details = |code: i32, message: &str| RestrictedErrorDetails {
        code,
        message: message.to_string(),
        fallback: "fallback text".to_string(),
    };
    let report = ErrorReport::ErrorInfo {
        restricted: Some(details(-5, "restricted text")),
        description: Some("description".to_string()),
    };
    assert_eq!(error_message(-5, report), "restricted text");
    let empty = ErrorReport::ErrorInfo { restricted: Some(details(-5, "")), description: None };
    assert_eq!(error_message(-5, empty), "fallback text");
    let other = ErrorReport::ErrorInfo {
        restricted: Some(details(-6, "restricted text")),
        description: Some("description".to_string()),
    };
    assert_eq!(error_message(-5, other), "description");
    let bare = ErrorReport::ErrorInfo { restricted: None, description: None };
    assert_eq!(error_message(-5, bare), "");
}

#[test]
fn error_message_appends_the_code_to_the_system_text() {
    let system = ErrorReport::System(Some("Access is denied.\r\n".to_string()));
    assert_eq!(error_message(-2147024891, system), "Access is denied.-2147024891");
    assert_eq!(error_message(-2147024891, ErrorReport::System(None)), "-2147024891");
    assert_eq!(error_message(0, ErrorReport::System(None)), "0");
    assert_eq!(error_message(1234, ErrorReport::System(Some(" x \u{3000}".to_string()))), " x1234");
}
