//! CoreAudio: stream descriptions for a configuration, host-clock conversion, latency
//! bookkeeping of the IO callbacks, and the decisions of the wait for a device property.
use vstd::prelude::*;
use crate::format::{
    ChannelCount, Error, ErrorKind, InterfaceType, SampleFormat, SampleRate, StreamConfig,
    SupportedBufferSize, SupportedStreamConfig, SupportedStreamConfigRange,
};
use crate::time::{StreamInstant, MAX_NANOS, NANOS_PER_SEC};

verus! {

/// `kAudioFormatFlagIsFloat`.
pub const FORMAT_FLAG_IS_FLOAT: u32 = 1;
/// `kAudioFormatFlagIsSignedInteger`.
pub const FORMAT_FLAG_IS_SIGNED_INTEGER: u32 = 4;
/// `kAudioFormatFlagIsPacked`.
pub const FORMAT_FLAG_IS_PACKED: u32 = 8;
/// `kAudioFormatLinearPCM` (`'lpcm'`).
pub const FORMAT_LINEAR_PCM: u32 = 0x6C70_636D;

/// The fields of an `AudioStreamBasicDescription`, with the sample rate in whole frames per
/// second.
#[derive(Clone, Copy, Debug, PartialEq, Eq, Structural)]
pub struct Asbd {
    pub sample_rate: u32,
    pub format_id: u32,
    pub format_flags: u32,
    pub bytes_per_packet: u32,
    pub frames_per_packet: u32,
    pub bytes_per_frame: u32,
    pub channels_per_frame: u32,
    pub bits_per_channel: u32,
}

/// The format flags of a sample format: float or signed integer, always packed.
pub open spec fn spec_format_flags(f: SampleFormat) -> u32 {
    if f.spec_is_float() {
        FORMAT_FLAG_IS_FLOAT | FORMAT_FLAG_IS_PACKED
    } else if f.spec_is_int() {
        FORMAT_FLAG_IS_SIGNED_INTEGER | FORMAT_FLAG_IS_PACKED
    } else {
        FORMAT_FLAG_IS_PACKED
    }
}

/// The linear-PCM description of `config` in `sample_format`: one frame per packet, each
/// frame holding one sample per channel.
pub open spec fn spec_asbd_from_config(config: StreamConfig, f: SampleFormat) -> Asbd {
    let bytes = f.spec_sample_size();
    Asbd {
        sample_rate: config.sample_rate,
        format_id: FORMAT_LINEAR_PCM,
        format_flags: spec_format_flags(f),
        bytes_per_packet: (config.channels * bytes) as u32,
        frames_per_packet: 1,
        bytes_per_frame: (config.channels * bytes) as u32,
        channels_per_frame: config.channels as u32,
        bits_per_channel: (8 * bytes) as u32,
    }
}

pub fn asbd_from_config(config: StreamConfig, sample_format: SampleFormat) -> (a: Asbd)
    ensures
        a == spec_asbd_from_config(config, sample_format),
{
    let bytes = sample_format.sample_size() as u32;
    let channels = config.channels as u32;
    assert(channels * bytes <= u16::MAX * 8) by (nonlinear_arith)
        requires channels <= u16::MAX, bytes <= 8;
    let flags = if sample_format.is_float() {
        FORMAT_FLAG_IS_FLOAT | FORMAT_FLAG_IS_PACKED
    } else if sample_format.is_int() {
        FORMAT_FLAG_IS_SIGNED_INTEGER | FORMAT_FLAG_IS_PACKED
    } else {
        FORMAT_FLAG_IS_PACKED
    };
    Asbd {
        sample_rate: config.sample_rate,
        format_id: FORMAT_LINEAR_PCM,
        format_flags: flags,
        bytes_per_packet: channels * bytes,
        frames_per_packet: 1,
        bytes_per_frame: channels * bytes,
        channels_per_frame: channels,
        bits_per_channel: 8 * bytes,
    }
}

/// Two descriptions describe the same stream format (the rates compared in whole frames per
/// second).
pub fn asbds_are_equal(left: &Asbd, right: &Asbd) -> (b: bool)
    ensures
        b == (*left == *right),
{
    left.sample_rate == right.sample_rate && left.format_id == right.format_id
        && left.format_flags == right.format_flags && left.bytes_per_packet
        == right.bytes_per_packet && left.frames_per_packet == right.frames_per_packet
        && left.bytes_per_frame == right.bytes_per_frame && left.channels_per_frame
        == right.channels_per_frame && left.bits_per_channel == right.bits_per_channel
}

/// The configuration an iOS audio unit offers: its channels and rate, 32-bit float, and no
/// known buffer-size range.
pub fn stream_config_from_asbd(asbd: &Asbd) -> (c: SupportedStreamConfig)
    ensures
        c == (SupportedStreamConfig {
            channels: asbd.channels_per_frame as u16,
            sample_rate: asbd.sample_rate,
            buffer_size: SupportedBufferSize::Range { min: 0, max: 0 },
            sample_format: SampleFormat::F32,
        }),
{
    SupportedStreamConfig {
        channels: asbd.channels_per_frame as u16,
        sample_rate: asbd.sample_rate,
        buffer_size: SupportedBufferSize::Range { min: 0, max: 0 },
        sample_format: SampleFormat::F32,
    }
}

/// A host-clock reading of `host_time` ticks, at `numer / denom` nanoseconds per tick, as an
/// instant; an error when the whole seconds do not fit in 64 bits.
pub fn host_time_to_stream_instant(host_time: u64, numer: u32, denom: u32) -> (r: Result<StreamInstant, Error>)
    requires
        denom > 0,
    ensures
        ({
            let nanos: nat = (host_time * numer) as nat / (denom as nat);
            &&& nanos / (NANOS_PER_SEC as nat) <= u64::MAX ==> (r matches Ok(i) && i@ == nanos)
            &&& nanos / (NANOS_PER_SEC as nat) > u64::MAX ==> (r matches Err(e) && e.kind == ErrorKind::Other
                && (e.message matches Some(m) && m@ == "mach absolute time overflow"@))
        }),
{
    assert(host_time as u128 * numer as u128 <= u64::MAX as u128 * u32::MAX as u128) by (nonlinear_arith)
        requires host_time <= u64::MAX, numer <= u32::MAX;
    let nanos: u128 = host_time as u128 * numer as u128 / denom as u128;
    let secs: u128 = nanos / NANOS_PER_SEC;
    if secs > u64::MAX as u128 {
        return Err(Error::with_message(ErrorKind::Other, "mach absolute time overflow"));
    }
    let sub: u128 = nanos % NANOS_PER_SEC;
    assert(nanos == secs * NANOS_PER_SEC + sub) by (nonlinear_arith)
        requires secs == nanos / NANOS_PER_SEC, sub == nanos % NANOS_PER_SEC;
    Ok(StreamInstant::new(secs as u64, sub as u32))
}

/// The fixed latency of a device: its own latency plus its safety offset, each zero when it
/// cannot be read.
pub fn extra_latency_frames(device_latency: Option<u32>, safety_offset: Option<u32>) -> (n: usize)
    requires
        (match device_latency { Some(x) => x, None => 0u32 }) + (match safety_offset { Some(x) => x, None => 0u32 }) <= u32::MAX,
    ensures
        n == (match device_latency { Some(x) => x, None => 0u32 }) + (match safety_offset { Some(x) => x, None => 0u32 }),
{
    let a: u32 = match device_latency {
        Some(x) => x,
        None => 0,
    };
    let b: u32 = match safety_offset {
        Some(x) => x,
        None => 0,
    };
    (a + b) as usize
}

/// Total buffer depth: the IO buffer plus the fixed latency, or zero when the IO buffer size
/// cannot be read.
pub fn device_latency_frames(buffer_frames: Option<usize>, extra: usize) -> (n: usize)
    requires
        buffer_frames matches Some(b) ==> b + extra <= usize::MAX,
    ensures
        n == match buffer_frames {
            Some(b) => (b + extra) as nat,
            None => 0,
        },
{
    match buffer_frames {
        Some(b) => b + extra,
        None => 0,
    }
}

/// Buffer depth for one callback: the cached depth, or when none is cached (zero) an estimate
/// from this callback's `len` samples over `channels` channels plus the fixed latency.
pub fn resolve_latency_frames(cached: usize, len: usize, channels: usize, extra_latency_frames: usize) -> (n: usize)
    requires
        cached == 0 ==> (if channels == 0 { 0 } else { len / channels }) + extra_latency_frames <= usize::MAX,
    ensures
        cached != 0 ==> n == cached,
        cached == 0 ==> n == (if channels == 0 { 0 } else { len / channels }) + extra_latency_frames,
{
    if cached != 0 {
        return cached;
    }
    let per_channel = if channels == 0 { 0 } else { len / channels };
    per_channel + extra_latency_frames
}

/// What a wait for a device property received.
#[derive(Clone, Copy, Debug, PartialEq, Eq, Structural)]
pub enum PropertyWaitEvent {
    /// The deadline passed before anything was received.
    DeadlinePassed,
    /// The property changed; whether its new value is the one waited for.
    Changed { is_target: bool },
    /// The device disappeared.
    Unavailable,
    /// The receive timed out.
    Timeout,
    /// The listener went away.
    Disconnected,
}

/// The message of a wait that ends in failure on `event`, `what` naming the property.
pub open spec fn spec_wait_message(event: PropertyWaitEvent, what: Seq<char>) -> Seq<char> {
    match event {
        PropertyWaitEvent::Unavailable => "Device disconnected while updating the "@ + what,
        PropertyWaitEvent::Disconnected => "Listener for the "@ + what + " disconnected unexpectedly"@,
        _ => "Timed out waiting for the "@ + what + " to change"@,
    }
}

/// The next step of a wait for the device property `what`: keep waiting while other values
/// are reported, succeed on the target value, and fail on a timeout (device not available),
/// on the device disappearing (device not available) or on the listener going away (stream
/// invalidated).
pub fn property_wait_step(event: PropertyWaitEvent, what: &str) -> (r: Option<Result<(), Error>>)
    ensures
        event matches PropertyWaitEvent::Changed { is_target } ==> (if is_target { r == Some(Ok::<(), Error>(())) } else { r is None }),
        (event is DeadlinePassed || event is Timeout || event is Unavailable) ==> (r matches Some(Err(e))
            && e.kind == ErrorKind::DeviceNotAvailable),
        event is Disconnected ==> (r matches Some(Err(e)) && e.kind == ErrorKind::StreamInvalidated),
        !(event is Changed) ==> (r matches Some(Err(e)) && (e.message matches Some(m)
            && m@ == spec_wait_message(event, what@))),
{
    match event {
        PropertyWaitEvent::Changed { is_target } => if is_target { Some(Ok(())) } else { None },
        PropertyWaitEvent::Unavailable => {
            let text = "Device disconnected while updating the ".to_owned().concat(what);
            Some(Err(Error { kind: ErrorKind::DeviceNotAvailable, message: Some(text) }))
        },
        PropertyWaitEvent::Disconnected => {
            let text = "Listener for the ".to_owned().concat(what).concat(" disconnected unexpectedly");
            Some(Err(Error { kind: ErrorKind::StreamInvalidated, message: Some(text) }))
        },
        _ => {
            let text = "Timed out waiting for the ".to_owned().concat(what).concat(" to change");
            Some(Err(Error { kind: ErrorKind::DeviceNotAvailable, message: Some(text) }))
        },
    }
}

/// Frames per second reported by a device, rounded down, is the target when it is within one
/// frame per second of it; the caller passes the whole and the fractional test separately.
pub fn rate_matches(reported_whole: u32, reported_is_whole: bool, target: SampleRate) -> (b: bool)
    ensures
        b == (reported_whole == target || (reported_whole + 1 == target && !reported_is_whole)),
{
    reported_whole == target || (reported_whole as u64 + 1 == target as u64 && !reported_is_whole)
}

/// `kAudio_ParamError`, what a render callback returns when it cannot run.
pub const AUDIO_PARAM_ERROR: i32 = -50;

/// What one cycle of the duplex render callback does.
#[derive(Clone, Copy, Debug, PartialEq, Eq, Structural)]
pub enum DuplexCycle {
    /// Return [`AUDIO_PARAM_ERROR`] without touching the output; when
    /// `buffer_size_changed` holds, also remember that the device's buffer size moved, so
    /// every later cycle is refused too.
    Reject { buffer_size_changed: bool },
    /// Leave the output silent and return success.
    Silence,
    /// Render the input, call back with `input_samples` input samples (`input_bytes`
    /// bytes) and `output_samples` output samples, and return success.
    Run { input_samples: usize, input_bytes: usize, output_samples: usize },
}

/// Bytes of input a duplex cycle of `num_frames` frames of `input_channels` channels of
/// `input_sample_bytes`-byte samples renders.
pub open spec fn spec_duplex_input_bytes(num_frames: u32, input_channels: usize, input_sample_bytes: usize) -> int {
    num_frames * input_channels * input_sample_bytes
}

/// Decides one cycle of the duplex render callback. It refuses once the device's buffer
/// size has changed, when there is no output buffer list or it is empty, when the input
/// this cycle would render does not fit the input buffer allocated for the device's
/// buffer size (remembering that the size changed), and when the first output buffer has
/// no data. Otherwise the output is cleared to silence, and left so while the stream
/// drains; else the cycle runs.
pub fn duplex_cycle(
    buffer_size_changed: bool,
    has_buffer_list: bool,
    number_buffers: u32,
    num_frames: u32,
    input_channels: usize,
    input_sample_bytes: usize,
    input_buffer_len: usize,
    output_has_data: bool,
    output_byte_len: u32,
    output_sample_bytes: usize,
    draining: bool,
) -> (c: DuplexCycle)
    requires
        num_frames * input_channels <= usize::MAX,
        spec_duplex_input_bytes(num_frames, input_channels, input_sample_bytes) <= usize::MAX,
        output_sample_bytes > 0,
    ensures
        buffer_size_changed || !has_buffer_list || number_buffers == 0 ==> c == (DuplexCycle::Reject {
            buffer_size_changed: false,
        }),
        !(buffer_size_changed || !has_buffer_list || number_buffers == 0) ==> {
            let input_bytes = spec_duplex_input_bytes(num_frames, input_channels, input_sample_bytes);
            if input_bytes != input_buffer_len {
                c == (DuplexCycle::Reject { buffer_size_changed: true })
            } else if !output_has_data {
                c == (DuplexCycle::Reject { buffer_size_changed: false })
            } else if draining {
                c == DuplexCycle::Silence
            } else {
                c == (DuplexCycle::Run {
                    input_samples: (num_frames * input_channels) as usize,
                    input_bytes: input_bytes as usize,
                    output_samples: (output_byte_len as nat / output_sample_bytes as nat) as usize,
                })
            }
        },
{
    if buffer_size_changed || !has_buffer_list || number_buffers == 0 {
        return DuplexCycle::Reject { buffer_size_changed: false };
    }
    let input_samples = num_frames as usize * input_channels;
    let input_bytes = input_samples * input_sample_bytes;
    if input_bytes != input_buffer_len {
        return DuplexCycle::Reject { buffer_size_changed: true };
    }
    if !output_has_data {
        return DuplexCycle::Reject { buffer_size_changed: false };
    }
    let output_samples = output_byte_len as usize / output_sample_bytes;
    if draining {
        return DuplexCycle::Silence;
    }
    DuplexCycle::Run { input_samples, input_bytes, output_samples }
}

/// Failures of an audio unit that the error mapping tells apart.
#[derive(Clone, Copy, Debug, PartialEq, Eq, Structural)]
pub enum AudioUnitError {
    FormatNotSupported,
    InvalidPropertyValue,
    TooManyFramesToProcess,
    NoConnection,
    FailedInitialization,
    Unauthorized,
    InvalidProperty,
    InvalidParameter,
    InvalidElement,
    InvalidScope,
    PropertyNotInUse,
    PropertyNotWritable,
    InvalidOfflineRender,
    Other,
}

/// Failures of an audio codec that the error mapping tells apart.
#[derive(Clone, Copy, Debug, PartialEq, Eq, Structural)]
pub enum AudioCodecError {
    UnsupportedFormat,
    UnknownProperty,
    BadPropertySize,
    IllegalOperation,
    Other,
}

/// Failures of the audio format services that the error mapping tells apart.
#[derive(Clone, Copy, Debug, PartialEq, Eq, Structural)]
pub enum AudioFormatError {
    UnsupportedDataFormat,
    UnknownFormat,
    UnsupportedProperty,
    BadPropertySize,
    BadSpecifierSize,
    Other,
}

/// General audio failures that the error mapping tells apart.
#[derive(Clone, Copy, Debug, PartialEq, Eq, Structural)]
pub enum AudioError {
    FileNotFound,
    FilePermission,
    Param,
    BadFilePath,
    Unimplemented,
    Other,
}

/// A CoreAudio failure, as far as the error mapping tells failures apart.
#[derive(Clone, Copy, Debug, PartialEq, Eq, Structural)]
pub enum CoreAudioError {
    RenderCallbackBufferFormatDoesNotMatchAudioUnitStreamFormat,
    NoKnownSubtype,
    UnsupportedSampleRate,
    UnsupportedStreamFormat,
    NonInterleavedInputOnlySupportsMono,
    SystemSoundClientMessageTimedOut,
    NoMatchingDefaultAudioUnitFound,
    AudioUnit(AudioUnitError),
    AudioCodec(AudioCodecError),
    AudioFormat(AudioFormatError),
    Audio(AudioError),
    Other,
}

/// The broad kind of a CoreAudio failure: configuration the device cannot take, a device
/// or unit that is not there, a refused permission, a bad argument, an operation the unit
/// does not support, or something else.
pub open spec fn spec_coreaudio_error_kind(e: CoreAudioError) -> ErrorKind {
    match e {
        CoreAudioError::RenderCallbackBufferFormatDoesNotMatchAudioUnitStreamFormat
        | CoreAudioError::NoKnownSubtype
        | CoreAudioError::UnsupportedSampleRate
        | CoreAudioError::UnsupportedStreamFormat
        | CoreAudioError::NonInterleavedInputOnlySupportsMono
        | CoreAudioError::AudioUnit(AudioUnitError::FormatNotSupported)
        | CoreAudioError::AudioUnit(AudioUnitError::InvalidPropertyValue)
        | CoreAudioError::AudioUnit(AudioUnitError::TooManyFramesToProcess)
        | CoreAudioError::AudioCodec(AudioCodecError::UnsupportedFormat)
        | CoreAudioError::AudioFormat(AudioFormatError::UnsupportedDataFormat)
        | CoreAudioError::AudioFormat(AudioFormatError::UnknownFormat) => ErrorKind::UnsupportedConfig,
        CoreAudioError::SystemSoundClientMessageTimedOut
        | CoreAudioError::NoMatchingDefaultAudioUnitFound
        | CoreAudioError::AudioUnit(AudioUnitError::NoConnection)
        | CoreAudioError::AudioUnit(AudioUnitError::FailedInitialization)
        | CoreAudioError::Audio(AudioError::FileNotFound) => ErrorKind::DeviceNotAvailable,
        CoreAudioError::AudioUnit(AudioUnitError::Unauthorized)
        | CoreAudioError::Audio(AudioError::FilePermission) => ErrorKind::PermissionDenied,
        CoreAudioError::AudioUnit(AudioUnitError::InvalidProperty)
        | CoreAudioError::AudioUnit(AudioUnitError::InvalidParameter)
        | CoreAudioError::AudioUnit(AudioUnitError::InvalidElement)
        | CoreAudioError::AudioUnit(AudioUnitError::InvalidScope)
        | CoreAudioError::AudioUnit(AudioUnitError::PropertyNotInUse)
        | CoreAudioError::AudioCodec(AudioCodecError::UnknownProperty)
        | CoreAudioError::AudioCodec(AudioCodecError::BadPropertySize)
        | CoreAudioError::AudioFormat(AudioFormatError::UnsupportedProperty)
        | CoreAudioError::AudioFormat(AudioFormatError::BadPropertySize)
        | CoreAudioError::AudioFormat(AudioFormatError::BadSpecifierSize)
        | CoreAudioError::Audio(AudioError::Param)
        | CoreAudioError::Audio(AudioError::BadFilePath) => ErrorKind::InvalidInput,
        CoreAudioError::Audio(AudioError::Unimplemented)
        | CoreAudioError::AudioUnit(AudioUnitError::PropertyNotWritable)
        | CoreAudioError::AudioUnit(AudioUnitError::InvalidOfflineRender)
        | CoreAudioError::AudioCodec(AudioCodecError::IllegalOperation) => ErrorKind::UnsupportedOperation,
        _ => ErrorKind::Other,
    }
}

/// The library error for the CoreAudio failure `e`, carrying its description `message`.
pub fn error_from_coreaudio(e: CoreAudioError, message: &str) -> (r: Error)
    ensures
        r.kind == spec_coreaudio_error_kind(e),
        r.message matches Some(m) && m@ == message@,
{
    let kind = match e {
        CoreAudioError::RenderCallbackBufferFormatDoesNotMatchAudioUnitStreamFormat
        | CoreAudioError::NoKnownSubtype
        | CoreAudioError::UnsupportedSampleRate
        | CoreAudioError::UnsupportedStreamFormat
        | CoreAudioError::NonInterleavedInputOnlySupportsMono
        | CoreAudioError::AudioUnit(AudioUnitError::FormatNotSupported)
        | CoreAudioError::AudioUnit(AudioUnitError::InvalidPropertyValue)
        | CoreAudioError::AudioUnit(AudioUnitError::TooManyFramesToProcess)
        | CoreAudioError::AudioCodec(AudioCodecError::UnsupportedFormat)
        | CoreAudioError::AudioFormat(AudioFormatError::UnsupportedDataFormat)
        | CoreAudioError::AudioFormat(AudioFormatError::UnknownFormat) => ErrorKind::UnsupportedConfig,
        CoreAudioError::SystemSoundClientMessageTimedOut
        | CoreAudioError::NoMatchingDefaultAudioUnitFound
        | CoreAudioError::AudioUnit(AudioUnitError::NoConnection)
        | CoreAudioError::AudioUnit(AudioUnitError::FailedInitialization)
        | CoreAudioError::Audio(AudioError::FileNotFound) => ErrorKind::DeviceNotAvailable,
        CoreAudioError::AudioUnit(AudioUnitError::Unauthorized)
        | CoreAudioError::Audio(AudioError::FilePermission) => ErrorKind::PermissionDenied,
        CoreAudioError::AudioUnit(AudioUnitError::InvalidProperty)
        | CoreAudioError::AudioUnit(AudioUnitError::InvalidParameter)
        | CoreAudioError::AudioUnit(AudioUnitError::InvalidElement)
        | CoreAudioError::AudioUnit(AudioUnitError::InvalidScope)
        | CoreAudioError::AudioUnit(AudioUnitError::PropertyNotInUse)
        | CoreAudioError::AudioCodec(AudioCodecError::UnknownProperty)
        | CoreAudioError::AudioCodec(AudioCodecError::BadPropertySize)
        | CoreAudioError::AudioFormat(AudioFormatError::UnsupportedProperty)
        | CoreAudioError::AudioFormat(AudioFormatError::BadPropertySize)
        | CoreAudioError::AudioFormat(AudioFormatError::BadSpecifierSize)
        | CoreAudioError::Audio(AudioError::Param)
        | CoreAudioError::Audio(AudioError::BadFilePath) => ErrorKind::InvalidInput,
        CoreAudioError::Audio(AudioError::Unimplemented)
        | CoreAudioError::AudioUnit(AudioUnitError::PropertyNotWritable)
        | CoreAudioError::AudioUnit(AudioUnitError::InvalidOfflineRender)
        | CoreAudioError::AudioCodec(AudioCodecError::IllegalOperation) => ErrorKind::UnsupportedOperation,
        _ => ErrorKind::Other,
    };
    Error::with_message(kind, message)
}

/// Why the audio session's route changed.
#[derive(Clone, Copy, Debug, PartialEq, Eq, Structural)]
pub enum RouteChangeReason {
    Unknown,
    NewDeviceAvailable,
    OldDeviceUnavailable,
    CategoryChange,
    Override,
    WakeFromSleep,
    NoSuitableRouteForCategory,
    RouteConfigurationChange,
}

/// The error a route change reports to a running stream: the device it used went away
/// (device changed), the route was reconfigured under it (stream invalidated), or no route
/// suits the session (device not available); other changes report nothing.
pub fn route_change_error(reason: RouteChangeReason) -> (r: Option<Error>)
    ensures
        reason is OldDeviceUnavailable ==> (r matches Some(e) && e.kind == ErrorKind::DeviceChanged
            && (e.message matches Some(m) && m@ == "Audio route changed"@)),
        (reason is CategoryChange || reason is Override || reason is RouteConfigurationChange) ==> (r matches Some(e)
            && e.kind == ErrorKind::StreamInvalidated && (e.message matches Some(m) && m@ == "Audio route changed"@)),
        reason is NoSuitableRouteForCategory ==> (r matches Some(e) && e.kind == ErrorKind::DeviceNotAvailable
            && (e.message matches Some(m) && m@ == "No suitable audio route for the session category"@)),
        (reason is Unknown || reason is NewDeviceAvailable || reason is WakeFromSleep) ==> r is None,
{
    match reason {
        RouteChangeReason::OldDeviceUnavailable => Some(Error::with_message(ErrorKind::DeviceChanged, "Audio route changed")),
        RouteChangeReason::CategoryChange
        | RouteChangeReason::Override
        | RouteChangeReason::RouteConfigurationChange => Some(Error::with_message(ErrorKind::StreamInvalidated, "Audio route changed")),
        RouteChangeReason::NoSuitableRouteForCategory => Some(
            Error::with_message(ErrorKind::DeviceNotAvailable, "No suitable audio route for the session category"),
        ),
        _ => None,
    }
}

/// The range an iOS session captures with: the session's configuration at its one rate,
/// in `F32`.
pub fn ios_input_configs(config: SupportedStreamConfig) -> (v: Vec<SupportedStreamConfigRange>)
    ensures
        v@ == seq![SupportedStreamConfigRange {
            channels: config.channels,
            min_sample_rate: config.sample_rate,
            max_sample_rate: config.sample_rate,
            buffer_size: config.buffer_size,
            sample_format: SampleFormat::F32,
        }],
{
    vec![
        SupportedStreamConfigRange {
            channels: config.channels,
            min_sample_rate: config.sample_rate,
            max_sample_rate: config.sample_rate,
            buffer_size: config.buffer_size,
            sample_format: SampleFormat::F32,
        },
    ]
}

/// The ranges an iOS session plays with: every channel count from one up to the session's
/// channels per frame (cut to 16 bits), at the session's one rate, in `F32`.
pub fn ios_output_configs(config: SupportedStreamConfig, channels_per_frame: u32) -> (v: Vec<SupportedStreamConfigRange>)
    ensures
        v@.len() == channels_per_frame as u16,
        forall|k: int| 0 <= k < v@.len() ==> #[trigger] v@[k] == (SupportedStreamConfigRange {
            channels: (k + 1) as u16,
            min_sample_rate: config.sample_rate,
            max_sample_rate: config.sample_rate,
            buffer_size: config.buffer_size,
            sample_format: SampleFormat::F32,
        }),
{
    let top = channels_per_frame as u16;
    let mut configs: Vec<SupportedStreamConfigRange> = Vec::new();
    let mut c: u16 = 0;
    while c < top
        invariant
            c <= top,
            configs@.len() == c,
            forall|k: int| 0 <= k < configs@.len() ==> #[trigger] configs@[k] == (SupportedStreamConfigRange {
                channels: (k + 1) as u16,
                min_sample_rate: config.sample_rate,
                max_sample_rate: config.sample_rate,
                buffer_size: config.buffer_size,
                sample_format: SampleFormat::F32,
            }),
        decreases top - c,
    {
        configs.push(
            SupportedStreamConfigRange {
                channels: c + 1,
                min_sample_rate: config.sample_rate,
                max_sample_rate: config.sample_rate,
                buffer_size: config.buffer_size,
                sample_format: SampleFormat::F32,
            },
        );
        c = c + 1;
    }
    configs
}

/// Whether an event ends the wait for a device property.
pub open spec fn spec_ends_wait(event: PropertyWaitEvent) -> bool {
    !(event matches PropertyWaitEvent::Changed { is_target } && !is_target)
}

/// Runs the wait for the device property `what` over the events received, in order: the outcome of
/// the first event that ends it, or `None` while every event reported some other value.
pub fn wait_for_property(events: &Vec<PropertyWaitEvent>, what: &str) -> (r: Option<Result<(), Error>>)
    ensures
        (forall|i: int| 0 <= i < events@.len() ==> !spec_ends_wait(#[trigger] events@[i])) <==> r is None,
        r is Some ==> exists|k: int|
            0 <= k < events@.len() && spec_ends_wait(#[trigger] events@[k]) && (forall|i: int|
                0 <= i < k ==> !spec_ends_wait(#[trigger] events@[i])) && (match events@[k] {
                PropertyWaitEvent::Changed { .. } => r == Some(Ok::<(), Error>(())),
                PropertyWaitEvent::Disconnected => r matches Some(Err(e)) && e.kind == ErrorKind::StreamInvalidated
                    && (e.message matches Some(m) && m@ == spec_wait_message(events@[k], what@)),
                _ => r matches Some(Err(e)) && e.kind == ErrorKind::DeviceNotAvailable
                    && (e.message matches Some(m) && m@ == spec_wait_message(events@[k], what@)),
            }),
{
    let mut i: usize = 0;
    while i < events.len()
        invariant
            i <= events@.len(),
            forall|j: int| 0 <= j < i ==> !spec_ends_wait(#[trigger] events@[j]),
        decreases events@.len() - i,
    {
        let step = property_wait_step(events[i], what);
        if step.is_some() {
            assert(spec_ends_wait(events@[i as int]));
            return step;
        }
        i = i + 1;
    }
    None
}

/// `kAudioDeviceTransportTypeBuiltIn` (`'bltn'`).
pub const TRANSPORT_BUILT_IN: u32 = 0x626C_746E;
/// `kAudioDeviceTransportTypeUSB` (`'usb '`).
pub const TRANSPORT_USB: u32 = 0x7573_6220;
/// `kAudioDeviceTransportTypeBluetooth` (`'blue'`).
pub const TRANSPORT_BLUETOOTH: u32 = 0x626C_7565;
/// `kAudioDeviceTransportTypeBluetoothLE` (`'blea'`).
pub const TRANSPORT_BLUETOOTH_LE: u32 = 0x626C_6561;
/// `kAudioDeviceTransportTypeVirtual` (`'virt'`).
pub const TRANSPORT_VIRTUAL: u32 = 0x7669_7274;
/// `kAudioDeviceTransportTypeAggregate` (`'grup'`).
pub const TRANSPORT_AGGREGATE: u32 = 0x6772_7570;
/// `kAudioDeviceTransportTypeThunderbolt` (`'thun'`).
pub const TRANSPORT_THUNDERBOLT: u32 = 0x7468_756E;
/// `kAudioDeviceTransportTypeHDMI` (`'hdmi'`).
pub const TRANSPORT_HDMI: u32 = 0x6864_6D69;
/// `kAudioDeviceTransportTypeDisplayPort` (`'dprt'`).
pub const TRANSPORT_DISPLAY_PORT: u32 = 0x6470_7274;
/// `kAudioDeviceTransportTypeFireWire` (`'1394'`).
pub const TRANSPORT_FIRE_WIRE: u32 = 0x3133_3934;
/// `kAudioDeviceTransportTypePCI` (`'pci '`).
pub const TRANSPORT_PCI: u32 = 0x7063_6920;
/// `kAudioDeviceTransportTypeAirPlay` (`'airp'`).
pub const TRANSPORT_AIR_PLAY: u32 = 0x6169_7270;
/// `kAudioDeviceTransportTypeAVB` (`'eavb'`).
pub const TRANSPORT_AVB: u32 = 0x6561_7662;

/// How a device with transport type `transport` is attached; `None` for a transport with
/// no counterpart, so the field is left unset rather than wrong.
pub open spec fn spec_transport_interface_type(transport: u32) -> Option<InterfaceType> {
    if transport == TRANSPORT_BUILT_IN {
        Some(InterfaceType::BuiltIn)
    } else if transport == TRANSPORT_USB {
        Some(InterfaceType::Usb)
    } else if transport == TRANSPORT_BLUETOOTH || transport == TRANSPORT_BLUETOOTH_LE {
        Some(InterfaceType::Bluetooth)
    } else if transport == TRANSPORT_VIRTUAL {
        Some(InterfaceType::Virtual)
    } else if transport == TRANSPORT_AGGREGATE {
        Some(InterfaceType::Aggregate)
    } else if transport == TRANSPORT_THUNDERBOLT {
        Some(InterfaceType::Thunderbolt)
    } else if transport == TRANSPORT_HDMI {
        Some(InterfaceType::Hdmi)
    } else if transport == TRANSPORT_DISPLAY_PORT {
        Some(InterfaceType::DisplayPort)
    } else if transport == TRANSPORT_FIRE_WIRE {
        Some(InterfaceType::FireWire)
    } else if transport == TRANSPORT_PCI {
        Some(InterfaceType::Pci)
    } else if transport == TRANSPORT_AIR_PLAY || transport == TRANSPORT_AVB {
        Some(InterfaceType::Network)
    } else {
        None
    }
}

/// How a device with transport type `transport` is attached.
pub fn transport_interface_type(transport: u32) -> (r: Option<InterfaceType>)
    ensures
        r == spec_transport_interface_type(transport),
{
    if transport == TRANSPORT_BUILT_IN {
        Some(InterfaceType::BuiltIn)
    } else if transport == TRANSPORT_USB {
        Some(InterfaceType::Usb)
    } else if transport == TRANSPORT_BLUETOOTH || transport == TRANSPORT_BLUETOOTH_LE {
        Some(InterfaceType::Bluetooth)
    } else if transport == TRANSPORT_VIRTUAL {
        Some(InterfaceType::Virtual)
    } else if transport == TRANSPORT_AGGREGATE {
        Some(InterfaceType::Aggregate)
    } else if transport == TRANSPORT_THUNDERBOLT {
        Some(InterfaceType::Thunderbolt)
    } else if transport == TRANSPORT_HDMI {
        Some(InterfaceType::Hdmi)
    } else if transport == TRANSPORT_DISPLAY_PORT {
        Some(InterfaceType::DisplayPort)
    } else if transport == TRANSPORT_FIRE_WIRE {
        Some(InterfaceType::FireWire)
    } else if transport == TRANSPORT_PCI {
        Some(InterfaceType::Pci)
    } else if transport == TRANSPORT_AIR_PLAY || transport == TRANSPORT_AVB {
        Some(InterfaceType::Network)
    } else {
        None
    }
}

/// What a device's stream description decodes to.
#[derive(Clone, Copy, Debug, PartialEq, Eq, Structural)]
pub enum DecodedFormat {
    /// Not linear PCM.
    NotLinearPcm,
    /// Linear PCM, in the sample format its flags and bit depth name, if any.
    Pcm(Option<SampleFormat>),
}

/// The sample format a device's default stream is offered in: only `F32` and `I16` linear
/// PCM are; any other format is an unsupported configuration.
pub fn default_sample_format(decoded: DecodedFormat) -> (r: Result<SampleFormat, Error>)
    ensures
        decoded == DecodedFormat::Pcm(Some(SampleFormat::F32)) ==> r == Ok::<SampleFormat, Error>(SampleFormat::F32),
        decoded == DecodedFormat::Pcm(Some(SampleFormat::I16)) ==> r == Ok::<SampleFormat, Error>(SampleFormat::I16),
        decoded is NotLinearPcm ==> (r matches Err(e) && e.kind == ErrorKind::UnsupportedConfig
            && (e.message matches Some(m) && m@ == "Audio format is not linear PCM"@)),
        (decoded is Pcm && !(decoded == DecodedFormat::Pcm(Some(SampleFormat::F32)) || decoded == DecodedFormat::Pcm(
            Some(SampleFormat::I16),
        ))) ==> (r matches Err(e) && e.kind == ErrorKind::UnsupportedConfig
            && (e.message matches Some(m) && m@ == "Sample format is not supported; supported formats are F32 and I16"@)),
{
    match decoded {
        DecodedFormat::NotLinearPcm => Err(Error::with_message(ErrorKind::UnsupportedConfig, "Audio format is not linear PCM")),
        DecodedFormat::Pcm(Some(SampleFormat::F32)) => Ok(SampleFormat::F32),
        DecodedFormat::Pcm(Some(SampleFormat::I16)) => Ok(SampleFormat::I16),
        DecodedFormat::Pcm(_) => Err(
            Error::with_message(ErrorKind::UnsupportedConfig, "Sample format is not supported; supported formats are F32 and I16"),
        ),
    }
}

/// A physical format a device reports: what its description decodes to, its channels, and
/// the range of whole rates it runs at.
#[derive(Clone, Copy, Debug, PartialEq, Eq, Structural)]
pub struct PhysicalFormat {
    pub decoded: DecodedFormat,
    pub channels_per_frame: u32,
    pub min_rate: u32,
    pub max_rate: u32,
}

/// The sum of the channel counts of a device's buffers.
pub open spec fn spec_channel_sum(buffers: Seq<u32>) -> nat
    decreases buffers.len(),
{
    if buffers.len() == 0 {
        0
    } else {
        spec_channel_sum(buffers.drop_last()) + buffers.last() as nat
    }
}

/// Whether a physical format is advertised on its own: an integer linear-PCM format (`F32`
/// is already offered at every nominal rate).
pub open spec fn spec_physical_row(f: PhysicalFormat) -> bool {
    f.decoded == DecodedFormat::Pcm(Some(SampleFormat::I8)) || f.decoded == DecodedFormat::Pcm(
        Some(SampleFormat::I16),
    ) || f.decoded == DecodedFormat::Pcm(Some(SampleFormat::I24)) || f.decoded
        == DecodedFormat::Pcm(Some(SampleFormat::I32))
}

/// The rows the physical formats add, in order.
pub open spec fn spec_physical_rows(
    physical: Seq<PhysicalFormat>,
    buffer_size: SupportedBufferSize,
) -> Seq<SupportedStreamConfigRange>
    decreases physical.len(),
{
    if physical.len() == 0 {
        Seq::empty()
    } else {
        let f = physical.last();
        let rest = spec_physical_rows(physical.drop_last(), buffer_size);
        if spec_physical_row(f) {
            rest.push(
                SupportedStreamConfigRange {
                    channels: f.channels_per_frame as u16,
                    min_sample_rate: f.min_rate,
                    max_sample_rate: f.max_rate,
                    buffer_size,
                    sample_format: f.decoded->Pcm_0->0,
                },
            )
        } else {
            rest
        }
    }
}

/// The configurations a device offers in one direction: `F32` at every nominal rate range
/// with all the channels of all its buffers (cut to 16 bits), then each integer physical
/// format at its own channels and rates; nothing when the device has no buffers in that
/// direction.
pub open spec fn spec_device_config_ranges(
    buffer_channels: Seq<u32>,
    nominal_rates: Seq<(u32, u32)>,
    buffer_size: SupportedBufferSize,
    physical: Seq<PhysicalFormat>,
) -> Seq<SupportedStreamConfigRange> {
    if buffer_channels.len() == 0 {
        Seq::empty()
    } else {
        Seq::new(
            nominal_rates.len(),
            |k: int|
                SupportedStreamConfigRange {
                    channels: spec_channel_sum(buffer_channels) as u16,
                    min_sample_rate: nominal_rates[k].0,
                    max_sample_rate: nominal_rates[k].1,
                    buffer_size,
                    sample_format: SampleFormat::F32,
                },
        ) + spec_physical_rows(physical, buffer_size)
    }
}

/// Every integer linear-PCM physical format a device with buffers in a direction reports
/// (8, 16, 24 or 32 bits) is offered there as a configuration of its own, in that sample
/// format, at its channels and its rates.
pub proof fn lemma_integer_physical_formats_offered(
    buffer_channels: Seq<u32>,
    nominal_rates: Seq<(u32, u32)>,
    buffer_size: SupportedBufferSize,
    physical: Seq<PhysicalFormat>,
    i: int,
    f: SampleFormat,
)
    requires
        buffer_channels.len() > 0,
        0 <= i < physical.len(),
        physical[i].decoded == DecodedFormat::Pcm(Some(f)),
        f == SampleFormat::I8 || f == SampleFormat::I16 || f == SampleFormat::I24 || f == SampleFormat::I32,
    ensures
        spec_device_config_ranges(buffer_channels, nominal_rates, buffer_size, physical).contains(
            SupportedStreamConfigRange {
                channels: physical[i].channels_per_frame as u16,
                min_sample_rate: physical[i].min_rate,
                max_sample_rate: physical[i].max_rate,
                buffer_size,
                sample_format: f,
            },
        ),
{
    let row = SupportedStreamConfigRange {
        channels: physical[i].channels_per_frame as u16,
        min_sample_rate: physical[i].min_rate,
        max_sample_rate: physical[i].max_rate,
        buffer_size,
        sample_format: f,
    };
    lemma_physical_row_present(physical, buffer_size, i, f);
    let f32_rows = Seq::new(
        nominal_rates.len(),
        |k: int|
            SupportedStreamConfigRange {
                channels: spec_channel_sum(buffer_channels) as u16,
                min_sample_rate: nominal_rates[k].0,
                max_sample_rate: nominal_rates[k].1,
                buffer_size,
                sample_format: SampleFormat::F32,
            },
    );
    let rows = spec_physical_rows(physical, buffer_size);
    let j = choose|j: int| 0 <= j < rows.len() && rows[j] == row;
    assert((f32_rows + rows)[f32_rows.len() + j] == row);
}

proof fn lemma_physical_row_present(physical: Seq<PhysicalFormat>, buffer_size: SupportedBufferSize, i: int, f: SampleFormat)
    requires
        0 <= i < physical.len(),
        physical[i].decoded == DecodedFormat::Pcm(Some(f)),
        f == SampleFormat::I8 || f == SampleFormat::I16 || f == SampleFormat::I24 || f == SampleFormat::I32,
    ensures
        spec_physical_rows(physical, buffer_size).contains(
            SupportedStreamConfigRange {
                channels: physical[i].channels_per_frame as u16,
                min_sample_rate: physical[i].min_rate,
                max_sample_rate: physical[i].max_rate,
                buffer_size,
                sample_format: f,
            },
        ),
    decreases physical.len(),
{
    let rest = spec_physical_rows(physical.drop_last(), buffer_size);
    if i == physical.len() - 1 {
        let row = SupportedStreamConfigRange {
            channels: physical[i].channels_per_frame as u16,
            min_sample_rate: physical[i].min_rate,
            max_sample_rate: physical[i].max_rate,
            buffer_size,
            sample_format: f,
        };
        assert(spec_physical_rows(physical, buffer_size) == rest.push(row));
        assert(rest.push(row)[rest.len() as int] == row);
    } else {
        assert(physical.drop_last()[i] == physical[i]);
        lemma_physical_row_present(physical.drop_last(), buffer_size, i, f);
        let row = SupportedStreamConfigRange {
            channels: physical[i].channels_per_frame as u16,
            min_sample_rate: physical[i].min_rate,
            max_sample_rate: physical[i].max_rate,
            buffer_size,
            sample_format: f,
        };
        let j = choose|j: int| 0 <= j < rest.len() && rest[j] == row;
        let all = spec_physical_rows(physical, buffer_size);
        if spec_physical_row(physical.last()) {
            assert(all[j] == row);
        } else {
            assert(all[j] == row);
        }
    }
}

pub fn device_config_ranges(
    buffer_channels: &Vec<u32>,
    nominal_rates: &Vec<(u32, u32)>,
    buffer_size: SupportedBufferSize,
    physical: &Vec<PhysicalFormat>,
) -> (v: Vec<SupportedStreamConfigRange>)
    requires
        spec_channel_sum(buffer_channels@) <= usize::MAX,
    ensures
        v@ == spec_device_config_ranges(buffer_channels@, nominal_rates@, buffer_size, physical@),
{
    let mut out: Vec<SupportedStreamConfigRange> = Vec::new();
    if buffer_channels.len() == 0 {
        return out;
    }
    let mut total: usize = 0;
    let mut i: usize = 0;
    while i < buffer_channels.len()
        invariant
            i <= buffer_channels@.len(),
            spec_channel_sum(buffer_channels@) <= usize::MAX,
            total == spec_channel_sum(buffer_channels@.subrange(0, i as int)),
        decreases buffer_channels@.len() - i,
    {
        proof {
            lemma_channel_sum_prefix(buffer_channels@, i as int);
            assert(buffer_channels@.subrange(0, i + 1).drop_last() =~= buffer_channels@.subrange(0, i as int));
        }
        total = total + buffer_channels[i] as usize;
        i = i + 1;
    }
    assert(buffer_channels@.subrange(0, buffer_channels@.len() as int) =~= buffer_channels@);
    let channels = total as u16;
    let mut k: usize = 0;
    while k < nominal_rates.len()
        invariant
            k <= nominal_rates@.len(),
            channels == spec_channel_sum(buffer_channels@) as u16,
            out@ == Seq::new(
                k as nat,
                |j: int|
                    SupportedStreamConfigRange {
                        channels: spec_channel_sum(buffer_channels@) as u16,
                        min_sample_rate: nominal_rates@[j].0,
                        max_sample_rate: nominal_rates@[j].1,
                        buffer_size,
                        sample_format: SampleFormat::F32,
                    },
            ),
        decreases nominal_rates@.len() - k,
    {
        let (lo, hi) = nominal_rates[k];
        out.push(
            SupportedStreamConfigRange {
                channels,
                min_sample_rate: lo,
                max_sample_rate: hi,
                buffer_size,
                sample_format: SampleFormat::F32,
            },
        );
        k = k + 1;
        assert(out@ =~= Seq::new(
            k as nat,
            |j: int|
                SupportedStreamConfigRange {
                    channels: spec_channel_sum(buffer_channels@) as u16,
                    min_sample_rate: nominal_rates@[j].0,
                    max_sample_rate: nominal_rates@[j].1,
                    buffer_size,
                    sample_format: SampleFormat::F32,
                },
        ));
    }
    let ghost f32_rows = out@;
    let mut p: usize = 0;
    while p < physical.len()
        invariant
            p <= physical@.len(),
            out@ == f32_rows + spec_physical_rows(physical@.subrange(0, p as int), buffer_size),
        decreases physical@.len() - p,
    {
        let f = physical[p];
        proof {
            assert(physical@.subrange(0, p + 1).drop_last() =~= physical@.subrange(0, p as int));
            assert(physical@.subrange(0, p + 1).last() == f);
        }
        let row = match f.decoded {
            DecodedFormat::Pcm(Some(SampleFormat::I8)) => Some(SampleFormat::I8),
            DecodedFormat::Pcm(Some(SampleFormat::I16)) => Some(SampleFormat::I16),
            DecodedFormat::Pcm(Some(SampleFormat::I24)) => Some(SampleFormat::I24),
            DecodedFormat::Pcm(Some(SampleFormat::I32)) => Some(SampleFormat::I32),
            _ => None,
        };
        if let Some(sample_format) = row {
            out.push(
                SupportedStreamConfigRange {
                    channels: f.channels_per_frame as u16,
                    min_sample_rate: f.min_rate,
                    max_sample_rate: f.max_rate,
                    buffer_size,
                    sample_format,
                },
            );
        }
        p = p + 1;
        assert(out@ =~= f32_rows + spec_physical_rows(physical@.subrange(0, p as int), buffer_size));
    }
    assert(physical@.subrange(0, physical@.len() as int) =~= physical@);
    out
}

proof fn lemma_channel_sum_prefix(s: Seq<u32>, i: int)
    requires
        0 <= i < s.len(),
    ensures
        spec_channel_sum(s.subrange(0, i + 1)) == spec_channel_sum(s.subrange(0, i)) + s[i],
        spec_channel_sum(s.subrange(0, i + 1)) <= spec_channel_sum(s),
    decreases s.len(),
{
    assert(s.subrange(0, i + 1).drop_last() =~= s.subrange(0, i));
    lemma_channel_sum_prefix_bound(s, i + 1);
}

proof fn lemma_channel_sum_prefix_bound(s: Seq<u32>, n: int)
    requires
        0 <= n <= s.len(),
    ensures
        spec_channel_sum(s.subrange(0, n)) <= spec_channel_sum(s),
    decreases s.len() - n,
{
    if n < s.len() {
        lemma_channel_sum_prefix_bound(s, n + 1);
        assert(s.subrange(0, n + 1).drop_last() =~= s.subrange(0, n));
    } else {
        assert(s.subrange(0, n) =~= s);
    }
}

/// A device property a running stream listens to.
#[derive(Clone, Copy, Debug, PartialEq, Eq, Structural)]
pub enum MonitoredProperty {
    /// Whether the device is still present.
    DeviceIsAlive,
    /// The device's nominal sample rate.
    NominalSampleRate,
    /// The device's buffer size in frames, which other processes may change.
    BufferFrameSize,
    /// The device's overload notification.
    ProcessorOverload,
}

/// What a stream does when a property it listens to fires.
pub enum MonitorAction {
    /// Pause the stream and report this error.
    ReportLost(Error),
    /// Read the device's latency again.
    RefreshLatency,
    /// Remember an overrun, to report from the audio callback.
    MarkXrun,
}

/// The reaction to `property` firing on the stream's device: a vanished device is reported as
/// disconnected, a changed sample rate invalidates the stream, a resized buffer only changes
/// the latency, and an overload marks an overrun.
pub fn device_monitor_action(property: MonitoredProperty) -> (a: MonitorAction)
    ensures
        property == MonitoredProperty::DeviceIsAlive ==> (a matches MonitorAction::ReportLost(e)
            && e.kind == ErrorKind::DeviceNotAvailable && (e.message matches Some(m) && m@ == "Device disconnected"@)),
        property == MonitoredProperty::NominalSampleRate ==> (a matches MonitorAction::ReportLost(e)
            && e.kind == ErrorKind::StreamInvalidated && (e.message matches Some(m) && m@ == "Device sample rate changed"@)),
        property == MonitoredProperty::BufferFrameSize ==> a is RefreshLatency,
        property == MonitoredProperty::ProcessorOverload ==> a is MarkXrun,
{
    match property {
        MonitoredProperty::DeviceIsAlive => MonitorAction::ReportLost(
            Error::with_message(ErrorKind::DeviceNotAvailable, "Device disconnected"),
        ),
        MonitoredProperty::NominalSampleRate => MonitorAction::ReportLost(
            Error::with_message(ErrorKind::StreamInvalidated, "Device sample rate changed"),
        ),
        MonitoredProperty::BufferFrameSize => MonitorAction::RefreshLatency,
        MonitoredProperty::ProcessorOverload => MonitorAction::MarkXrun,
    }
}

/// The outcome of registering the four device listeners, in the order alive, sample rate,
/// buffer size, overload: the first failure, or success when all four are registered.
pub fn listeners_registered(
    alive: Result<(), Error>,
    rate: Result<(), Error>,
    buffer: Result<(), Error>,
    overload: Result<(), Error>,
) -> (r: Result<(), Error>)
    ensures
        r == (if alive is Err {
            alive
        } else if rate is Err {
            rate
        } else if buffer is Err {
            buffer
        } else {
            overload
        }),
{
    if alive.is_err() {
        alive
    } else if rate.is_err() {
        rate
    } else if buffer.is_err() {
        buffer
    } else {
        overload
    }
}

/// What the listener thread reported back when the stream waited for it to be ready: its
/// registration outcome, or nothing when the thread ended first, which invalidates the
/// stream.
pub fn monitor_ready(reply: Option<Result<(), Error>>) -> (r: Result<(), Error>)
    ensures
        reply matches Some(x) ==> r == x,
        reply is None ==> (r matches Err(e) && e.kind == ErrorKind::StreamInvalidated
            && (e.message matches Some(m) && m@ == "Stream monitor terminated unexpectedly"@)),
{
    match reply {
        Some(x) => x,
        None => Err(Error::with_message(ErrorKind::StreamInvalidated, "Stream monitor terminated unexpectedly")),
    }
}

/// What the default-output monitor hears: the system's default output device changed, or
/// the current device's buffer was resized.
#[derive(Clone, Copy, Debug, PartialEq, Eq, Structural)]
pub enum DefaultOutputEvent {
    DeviceChanged,
    LatencyChanged,
}

/// What a stream on the default output does about an event.
pub enum DefaultOutputAction {
    /// Read the device's latency again; nothing else changed.
    RefreshLatency,
    /// No default output is left: stop listening to the old device, pause the stream and
    /// report this error.
    ReportLost(Error),
    /// The output was rerouted to the new default: read the latency again, listen to the new
    /// device and report this error.
    Rerouted(Error),
}

/// The reaction to `event` on a stream that plays to the default output, where
/// `default_present` tells whether a default output device exists after it.
pub fn default_output_action(event: DefaultOutputEvent, default_present: bool) -> (a: DefaultOutputAction)
    ensures
        event == DefaultOutputEvent::LatencyChanged ==> a is RefreshLatency,
        (event == DefaultOutputEvent::DeviceChanged && !default_present) ==> (a matches DefaultOutputAction::ReportLost(e)
            && e.kind == ErrorKind::DeviceNotAvailable && (e.message matches Some(m) && m@ == "no default output device"@)),
        (event == DefaultOutputEvent::DeviceChanged && default_present) ==> (a matches DefaultOutputAction::Rerouted(e)
            && e.kind == ErrorKind::DeviceChanged && (e.message matches Some(m) && m@ == "default output device changed"@)),
{
    match event {
        DefaultOutputEvent::LatencyChanged => DefaultOutputAction::RefreshLatency,
        DefaultOutputEvent::DeviceChanged => if default_present {
            DefaultOutputAction::Rerouted(
                Error::with_message(ErrorKind::DeviceChanged, "default output device changed"),
            )
        } else {
            DefaultOutputAction::ReportLost(
                Error::with_message(ErrorKind::DeviceNotAvailable, "no default output device"),
            )
        },
    }
}

} // verus!
