//! JACK: devices derived from the server's ports, stream state shared with the process
//! thread, the per-cycle plan of the process callback, its timestamps and channel
//! (de)interleaving.
use vstd::prelude::*;
use crate::format::{
    BufferSize, ChannelCount, DeviceDirection, Error, ErrorKind, FrameCount, SampleFormat,
    SampleRate, SupportedBufferSize, SupportedStreamConfig, SupportedStreamConfigRange,
};
use crate::time::{Duration, StreamInstant, MAX_NANOS};
use crate::timing::{frames_to_duration, spec_frames_to_nanos};
use crate::text::{decimal_text, spec_decimal};
use vstd::string::StrSliceExecFns;

verus! {

/// JACK ports carry 32-bit float samples.
pub const JACK_SAMPLE_FORMAT: SampleFormat = SampleFormat::F32;
/// Channels offered when the server reports fewer system ports.
pub const DEFAULT_NUM_CHANNELS: ChannelCount = 2;

/// Playback state shared between a stream handle and the process thread.
#[derive(Clone, Copy, Debug, PartialEq, Eq, Structural)]
pub enum StreamState {
    Starting,
    Paused,
    Playing,
}

impl StreamState {
    /// The state stored as `code`; unknown codes read as `Starting`.
    pub open spec fn spec_load(code: u8) -> StreamState {
        if code == 1 {
            StreamState::Paused
        } else if code == 2 {
            StreamState::Playing
        } else {
            StreamState::Starting
        }
    }

    /// The code a state is stored as.
    pub open spec fn spec_code(self) -> u8 {
        match self {
            StreamState::Starting => 0u8,
            StreamState::Paused => 1u8,
            StreamState::Playing => 2u8,
        }
    }

    /// The state stored as `code`; unknown codes read as `Starting`.
    pub fn load(code: u8) -> (s: StreamState)
        ensures
            s == StreamState::spec_load(code),
    {
        match code {
            1 => StreamState::Paused,
            2 => StreamState::Playing,
            _ => StreamState::Starting,
        }
    }

    /// The code the state is stored as.
    pub fn store(self) -> (code: u8)
        ensures
            code == self.spec_code(),
    {
        match self {
            StreamState::Starting => 0,
            StreamState::Paused => 1,
            StreamState::Playing => 2,
        }
    }
}

/// Storing a state and loading it back gives the same state.
pub proof fn lemma_stream_state_round_trip(s: StreamState)
    ensures
        StreamState::spec_load(s.spec_code()) == s,
{
}

/// The channels offered for `port_count` system ports: at least two, and two when the count
/// does not fit a channel count.
pub open spec fn spec_port_channel_count(port_count: usize) -> ChannelCount {
    if port_count <= u16::MAX { if port_count >= 2 { port_count as u16 } else { 2u16 } } else { 2u16 }
}

pub fn port_channel_count(port_count: usize) -> (c: ChannelCount)
    ensures
        c == spec_port_channel_count(port_count),
{
    if port_count <= u16::MAX as usize {
        let c = port_count as u16;
        if c >= DEFAULT_NUM_CHANNELS { c } else { DEFAULT_NUM_CHANNELS }
    } else {
        DEFAULT_NUM_CHANNELS
    }
}

/// A JACK device as seen when it was created.
#[derive(Clone, Debug)]
pub struct Device {
    pub name: String,
    pub sample_rate: SampleRate,
    pub buffer_size: SupportedBufferSize,
    pub max_input_channels: ChannelCount,
    pub max_output_channels: ChannelCount,
    pub direction: DeviceDirection,
    pub start_server_automatically: bool,
    pub connect_ports_automatically: bool,
}

impl Device {
    /// A device of `direction` for a server running at `sample_rate` with `buffer_size`
    /// frames, offering as many channels as it has system capture and playback ports. Only the
    /// input, output and duplex directions exist.
    pub fn from_server(
        name: String,
        sample_rate: SampleRate,
        buffer_size: FrameCount,
        capture_ports: usize,
        playback_ports: usize,
        direction: DeviceDirection,
        start_server_automatically: bool,
        connect_ports_automatically: bool,
    ) -> (r: Result<Device, Error>)
        ensures
            direction is Unknown ==> (r matches Err(e) && e.kind == ErrorKind::UnsupportedOperation
                && (e.message matches Some(m) && m@ == "JACK does not support Unknown direction"@)),
            !(direction is Unknown) ==> (r matches Ok(d) && d.name == name && d.sample_rate == sample_rate
                && d.buffer_size == (SupportedBufferSize::Range { min: buffer_size, max: buffer_size })
                && d.direction == direction
                && d.max_input_channels == (if direction is Output { 0 } else { spec_port_channel_count(capture_ports) })
                && d.max_output_channels == (if direction is Input { 0 } else { spec_port_channel_count(playback_ports) })
                && d.start_server_automatically == start_server_automatically
                && d.connect_ports_automatically == connect_ports_automatically),
    {
        let (max_in, max_out) = match direction {
            DeviceDirection::Input => (port_channel_count(capture_ports), 0),
            DeviceDirection::Output => (0, port_channel_count(playback_ports)),
            DeviceDirection::Duplex => (port_channel_count(capture_ports), port_channel_count(playback_ports)),
            _ => return Err(Error::with_message(ErrorKind::UnsupportedOperation, "JACK does not support Unknown direction")),
        };
        Ok(Device {
            name,
            sample_rate,
            buffer_size: SupportedBufferSize::Range { min: buffer_size, max: buffer_size },
            max_input_channels: max_in,
            max_output_channels: max_out,
            direction,
            start_server_automatically,
            connect_ports_automatically,
        })
    }

    /// The stable part of the device's identity: its direction.
    pub fn id(&self) -> (s: &'static str)
        ensures
            s@ == match self.direction {
                DeviceDirection::Input => "input"@,
                DeviceDirection::Output => "output"@,
                DeviceDirection::Duplex => "duplex"@,
                DeviceDirection::Unknown => "unknown"@,
            },
    {
        match self.direction {
            DeviceDirection::Input => "input",
            DeviceDirection::Output => "output",
            DeviceDirection::Duplex => "duplex",
            DeviceDirection::Unknown => "unknown",
        }
    }

    /// The default configuration: two channels of 32-bit float at the server's rate and buffer
    /// size.
    pub fn default_config(&self) -> (c: SupportedStreamConfig)
        ensures
            c == (SupportedStreamConfig {
                channels: DEFAULT_NUM_CHANNELS,
                sample_rate: self.sample_rate,
                buffer_size: self.buffer_size,
                sample_format: JACK_SAMPLE_FORMAT,
            }),
    {
        SupportedStreamConfig {
            channels: DEFAULT_NUM_CHANNELS,
            sample_rate: self.sample_rate,
            buffer_size: self.buffer_size,
            sample_format: JACK_SAMPLE_FORMAT,
        }
    }

    /// One configuration per channel count from one up to the device's maximum in
    /// `direction`; none for other directions.
    pub fn supported_configs(&self, direction: DeviceDirection) -> (v: Vec<SupportedStreamConfigRange>)
        ensures
            ({
                let max = match direction {
                    DeviceDirection::Input => self.max_input_channels as int,
                    DeviceDirection::Output => self.max_output_channels as int,
                    _ => 0,
                };
                &&& v@.len() == max
                &&& forall|i: int| 0 <= i < max ==> #[trigger] v@[i] == (SupportedStreamConfigRange {
                    channels: (i + 1) as u16,
                    min_sample_rate: self.sample_rate,
                    max_sample_rate: self.sample_rate,
                    buffer_size: self.buffer_size,
                    sample_format: JACK_SAMPLE_FORMAT,
                })
            }),
    {
        let max: u16 = match direction {
            DeviceDirection::Input => self.max_input_channels,
            DeviceDirection::Output => self.max_output_channels,
            _ => 0,
        };
        let f = self.default_config();
        let mut v: Vec<SupportedStreamConfigRange> = Vec::new();
        let mut k: u32 = 0;
        while k < max as u32
            invariant
                k <= max,
                v@.len() == k,
                f.sample_rate == self.sample_rate,
                f.buffer_size == self.buffer_size,
                f.sample_format == JACK_SAMPLE_FORMAT,
                forall|i: int| 0 <= i < k ==> #[trigger] v@[i] == (SupportedStreamConfigRange {
                    channels: (i + 1) as u16,
                    min_sample_rate: self.sample_rate,
                    max_sample_rate: self.sample_rate,
                    buffer_size: self.buffer_size,
                    sample_format: JACK_SAMPLE_FORMAT,
                }),
            decreases max - k,
        {
            v.push(SupportedStreamConfigRange {
                channels: (k + 1) as u16,
                min_sample_rate: f.sample_rate,
                max_sample_rate: f.sample_rate,
                buffer_size: f.buffer_size,
                sample_format: f.sample_format,
            });
            k = k + 1;
        }
        v
    }

    pub fn is_input(&self) -> (b: bool)
        ensures
            b == (self.direction is Input),
    {
        matches!(self.direction, DeviceDirection::Input)
    }

    pub fn is_output(&self) -> (b: bool)
        ensures
            b == (self.direction is Output),
    {
        matches!(self.direction, DeviceDirection::Output)
    }

    pub fn is_duplex(&self) -> (b: bool)
        ensures
            b == (self.direction is Duplex),
    {
        matches!(self.direction, DeviceDirection::Duplex)
    }
}

/// Only 32-bit float streams are supported.
pub fn validate_sample_format(sample_format: SampleFormat) -> (r: Result<(), Error>)
    ensures
        r is Ok <==> sample_format == JACK_SAMPLE_FORMAT,
        r matches Err(e) ==> e.kind == ErrorKind::UnsupportedConfig && (e.message matches Some(m)
            && m@ == "sample format is not supported; required format is f32"@),
{
    if sample_format != JACK_SAMPLE_FORMAT {
        return Err(Error::with_message(ErrorKind::UnsupportedConfig, "sample format is not supported; required format is f32"));
    }
    Ok(())
}

/// Checks a freshly opened client against what the stream asks for: the server's rate must
/// match, and so must its buffer size when the stream asks for a fixed one.
pub fn validate_client(sample_rate: SampleRate, buffer_size: BufferSize, server_rate: SampleRate, server_buffer_size: FrameCount) -> (r: Result<(), Error>)
    ensures
        r is Ok <==> (sample_rate == server_rate && (buffer_size matches BufferSize::Fixed(n) ==> n == server_buffer_size)),
        r matches Err(e) ==> e.kind == ErrorKind::UnsupportedConfig && (e.message matches Some(m) && m@ == (
            if sample_rate != server_rate {
                "Sample rate "@ + spec_decimal(sample_rate as nat) + " Hz does not match the server rate "@
                    + spec_decimal(server_rate as nat) + " Hz"@
            } else {
                "Buffer size "@ + spec_decimal(buffer_size->Fixed_0 as nat) + " does not match the server buffer size "@
                    + spec_decimal(server_buffer_size as nat)
            })),
{
    if sample_rate != server_rate {
        let text = "Sample rate ".to_owned()
            .concat(decimal_text(sample_rate).as_str())
            .concat(" Hz does not match the server rate ")
            .concat(decimal_text(server_rate).as_str())
            .concat(" Hz");
        return Err(Error { kind: ErrorKind::UnsupportedConfig, message: Some(text) });
    }
    if let BufferSize::Fixed(size) = buffer_size {
        if size != server_buffer_size {
            let text = "Buffer size ".to_owned()
                .concat(decimal_text(size).as_str())
                .concat(" does not match the server buffer size ")
                .concat(decimal_text(server_buffer_size).as_str());
            return Err(Error { kind: ErrorKind::UnsupportedConfig, message: Some(text) });
        }
    }
    Ok(())
}

/// The failure bits of the status JACK reports when a client is opened.
#[derive(Clone, Copy, Debug, PartialEq, Eq, Structural)]
pub struct ClientStatus {
    pub server_error: bool,
    pub server_failed: bool,
    pub version_error: bool,
    pub init_failure: bool,
    pub shm_failure: bool,
    pub no_such_client: bool,
    pub invalid_option: bool,
}

/// The message of the first failure bit set in an opened client's status, in a fixed order.
pub open spec fn spec_client_status_message(status: ClientStatus) -> Option<Seq<char>> {
    if status.server_error {
        Some("There was an error communicating with the JACK server!"@)
    } else if status.server_failed {
        Some("Could not connect to the JACK server!"@)
    } else if status.version_error {
        Some("Error connecting to JACK server: Client's protocol version does not match!"@)
    } else if status.init_failure {
        Some("Error connecting to JACK server: Unable to initialize client!"@)
    } else if status.shm_failure {
        Some("Error connecting to JACK server: Unable to access shared memory!"@)
    } else if status.no_such_client {
        Some("Error connecting to JACK server: Requested client does not exist!"@)
    } else if status.invalid_option {
        Some("Error connecting to JACK server: The operation contained an invalid or unsupported option!"@)
    } else {
        None
    }
}

/// The error an opened client's status reports, the first failure bit in a fixed order
/// deciding the message, or `None` when no failure bit is set.
pub fn client_status_error(status: ClientStatus) -> (r: Option<String>)
    ensures
        r is None <==> spec_client_status_message(status) is None,
        r matches Some(m) ==> spec_client_status_message(status) == Some(m@),
{
    if status.server_error {
        Some("There was an error communicating with the JACK server!".to_owned())
    } else if status.server_failed {
        Some("Could not connect to the JACK server!".to_owned())
    } else if status.version_error {
        Some("Error connecting to JACK server: Client's protocol version does not match!".to_owned())
    } else if status.init_failure {
        Some("Error connecting to JACK server: Unable to initialize client!".to_owned())
    } else if status.shm_failure {
        Some("Error connecting to JACK server: Unable to access shared memory!".to_owned())
    } else if status.no_such_client {
        Some("Error connecting to JACK server: Requested client does not exist!".to_owned())
    } else if status.invalid_option {
        Some("Error connecting to JACK server: The operation contained an invalid or unsupported option!".to_owned())
    } else {
        None
    }
}

/// The largest element of `s`, or 0 for an empty sequence.
pub open spec fn max_of(s: Seq<FrameCount>) -> nat
    decreases s.len(),
{
    if s.len() == 0 {
        0
    } else {
        let m = max_of(s.drop_last());
        if s.last() as nat > m { s.last() as nat } else { m }
    }
}

/// The worst-case latency between the ports and the hardware, from each port's maximum
/// latency, or `None` when it is zero.
pub fn hardware_latency_frames(port_latencies: &Vec<FrameCount>) -> (r: Option<FrameCount>)
    ensures
        max_of(port_latencies@) == 0 ==> r is None,
        max_of(port_latencies@) > 0 ==> r == Some(max_of(port_latencies@) as FrameCount),
{
    let mut m: FrameCount = 0;
    let mut i: usize = 0;
    while i < port_latencies.len()
        invariant
            i <= port_latencies@.len(),
            m == max_of(port_latencies@.subrange(0, i as int)),
        decreases port_latencies@.len() - i,
    {
        assert(port_latencies@.subrange(0, i + 1).drop_last() =~= port_latencies@.subrange(0, i as int));
        if port_latencies[i] > m {
            m = port_latencies[i];
        }
        i = i + 1;
    }
    assert(port_latencies@.subrange(0, i as int) =~= port_latencies@);
    if m > 0 { Some(m) } else { None }
}

/// Microseconds on JACK's clock as an instant.
pub fn micros_to_stream_instant(micros: u64) -> (i: StreamInstant)
    ensures
        i@ == micros * 1000,
{
    StreamInstant::from_micros(micros)
}

/// When the first captured frame of a cycle was sampled: the capture latency before the cycle
/// start, or the clock's epoch if that precedes it.
pub fn capture_instant(latency_frames: Option<FrameCount>, start_cycle: StreamInstant, sample_rate: SampleRate) -> (i: StreamInstant)
    ensures
        ({
            let lat = match latency_frames {
                Some(f) => spec_frames_to_nanos(f as nat, sample_rate as nat),
                None => 0,
            };
            i@ == if lat <= start_cycle@ { start_cycle@ - lat } else { 0 }
        }),
{
    let latency = match latency_frames {
        Some(frames) => frames_to_duration(frames, sample_rate),
        None => Duration::zero(),
    };
    match start_cycle.checked_sub(latency) {
        Some(i) => i,
        None => StreamInstant::zero(),
    }
}

/// When the first frame written in a cycle reaches the hardware: the playback latency after
/// the cycle start; without a latency, JACK's deadline for the next cycle; without that, one
/// buffer after the cycle start.
pub fn playback_instant(
    latency_frames: Option<FrameCount>,
    start_cycle: StreamInstant,
    next_usecs: Option<u64>,
    frame_count: FrameCount,
    sample_rate: SampleRate,
) -> (i: StreamInstant)
    requires
        start_cycle@ + spec_frames_to_nanos(
            match latency_frames { Some(f) => f, None => frame_count } as nat,
            sample_rate as nat,
        ) <= MAX_NANOS,
    ensures
        latency_frames matches Some(f) ==> i@ == start_cycle@ + spec_frames_to_nanos(f as nat, sample_rate as nat),
        latency_frames is None ==> i@ == match next_usecs {
            Some(n) => (n * 1000) as nat,
            None => start_cycle@ + spec_frames_to_nanos(frame_count as nat, sample_rate as nat),
        },
{
    match latency_frames {
        Some(frames) => start_cycle.add(frames_to_duration(frames, sample_rate)),
        None => match next_usecs {
            Some(n) => micros_to_stream_instant(n),
            None => start_cycle.add(frames_to_duration(frame_count, sample_rate)),
        },
    }
}

/// Whether a server shutdown is reported: not while the stream is still starting.
pub fn shutdown_reported(state: StreamState) -> (b: bool)
    ensures
        b == (state != StreamState::Starting),
{
    state != StreamState::Starting
}

/// The error reporting that the server stopped, for the `reason` it gave.
pub fn shutdown_error(reason: &str) -> (e: Error)
    ensures
        e.kind == ErrorKind::DeviceNotAvailable,
        e.message matches Some(m) && m@ == "JACK server shut down: "@ + reason@,
{
    let text = "JACK server shut down: ".to_owned().concat(reason);
    Error { kind: ErrorKind::DeviceNotAvailable, message: Some(text) }
}

/// The error reporting that the server now runs at `srate` frames per second, which
/// invalidates the stream.
pub fn rate_change_error(srate: u32) -> (e: Error)
    ensures
        e.kind == ErrorKind::StreamInvalidated,
        e.message matches Some(m) && m@ == "JACK server changed sample rate to "@ + spec_decimal(srate as nat) + " Hz"@,
{
    let text = "JACK server changed sample rate to ".to_owned().concat(decimal_text(srate).as_str()).concat(" Hz");
    Error { kind: ErrorKind::StreamInvalidated, message: Some(text) }
}

/// What the notification thread does after a sample-rate change.
#[derive(Clone, Debug)]
pub struct RateChangeAction {
    /// Keep the client running (`true`) or quit it.
    pub continue_client: bool,
    /// The error to report, if any.
    pub report: Option<Error>,
}

/// Receives the server's notifications for one stream.
#[derive(Clone, Copy, Debug, PartialEq, Eq, Structural)]
pub struct JackNotificationHandler {
    pub configured_sample_rate: u32,
    pub pending_xrun: bool,
}

impl JackNotificationHandler {
    /// A handler for a stream configured at `configured_sample_rate`, with no overrun pending.
    pub fn new(configured_sample_rate: u32) -> (h: JackNotificationHandler)
        ensures
            h.configured_sample_rate == configured_sample_rate,
            !h.pending_xrun,
    {
        JackNotificationHandler { configured_sample_rate, pending_xrun: false }
    }

    /// A notification of the configured rate (sent whenever a client starts) changes nothing;
    /// any other rate ends the client, and is reported as invalidating the stream, naming the
    /// new rate, unless the stream is still starting.
    pub fn sample_rate(&self, state: StreamState, srate: u32) -> (a: RateChangeAction)
        ensures
            a.continue_client == (srate == self.configured_sample_rate),
            a.report is Some <==> (srate != self.configured_sample_rate && state != StreamState::Starting),
            a.report matches Some(e) ==> e.kind == ErrorKind::StreamInvalidated && (e.message matches Some(m)
                && m@ == "JACK server changed sample rate to "@ + spec_decimal(srate as nat) + " Hz"@),
    {
        if srate == self.configured_sample_rate {
            return RateChangeAction { continue_client: true, report: None };
        }
        let report = if state != StreamState::Starting { Some(rate_change_error(srate)) } else { None };
        RateChangeAction { continue_client: false, report }
    }

    /// An overrun is remembered for the next callback only while the stream plays.
    pub fn xrun(&mut self, state: StreamState)
        ensures
            final(self).pending_xrun == (old(self).pending_xrun || state == StreamState::Playing),
            final(self).configured_sample_rate == old(self).configured_sample_rate,
    {
        if state == StreamState::Playing {
            self.pending_xrun = true;
        }
    }

    /// Takes the pending overrun flag, clearing it.
    pub fn take_xrun(&mut self) -> (b: bool)
        ensures
            b == old(self).pending_xrun,
            !final(self).pending_xrun,
            final(self).configured_sample_rate == old(self).configured_sample_rate,
    {
        let b = self.pending_xrun;
        self.pending_xrun = false;
        b
    }
}

/// What the process callback does in one cycle.
#[derive(Clone, Copy, Debug, PartialEq, Eq, Structural)]
pub struct CyclePlan {
    /// Only silence the outputs: the stream is not playing.
    pub silence_only: bool,
    /// Frames handed to the user's callback.
    pub frames: usize,
    /// Report that the period exceeded the configured buffer size.
    pub report_oversized: bool,
    /// Whether an oversized period is known to have been reported. When this cycle reports
    /// one, whether that report is delivered decides it: see [`oversized_reported_after`].
    pub oversized_reported: bool,
}

/// Plans a cycle of `requested` frames with buffers of `buffer_size` frames: a stream that is
/// not playing only silences its outputs; otherwise the period is truncated to the buffers,
/// and an oversized period is reported until a report is delivered, and again once a period
/// has fitted in between.
pub fn plan_cycle(state: StreamState, requested: usize, buffer_size: usize, oversized_reported: bool) -> (p: CyclePlan)
    ensures
        state != StreamState::Playing ==> p.silence_only && p.frames == 0 && !p.report_oversized
            && p.oversized_reported == oversized_reported,
        state == StreamState::Playing ==> !p.silence_only
            && p.frames == (if requested <= buffer_size { requested } else { buffer_size })
            && p.report_oversized == (requested > buffer_size && !oversized_reported)
            && p.oversized_reported == (requested > buffer_size && oversized_reported),
{
    if state != StreamState::Playing {
        return CyclePlan { silence_only: true, frames: 0, report_oversized: false, oversized_reported };
    }
    let frames = if requested <= buffer_size { requested } else { buffer_size };
    if requested > buffer_size {
        CyclePlan { silence_only: false, frames, report_oversized: !oversized_reported, oversized_reported }
    } else {
        CyclePlan { silence_only: false, frames, report_oversized: false, oversized_reported: false }
    }
}

/// Whether an oversized period counts as reported after the cycle planned as `plan`, where
/// `delivered` tells whether the report this cycle made, if any, reached the error callback.
pub fn oversized_reported_after(plan: CyclePlan, delivered: bool) -> (b: bool)
    ensures
        b == (if plan.report_oversized { delivered } else { plan.oversized_reported }),
{
    if plan.report_oversized { delivered } else { plan.oversized_reported }
}

/// The error reporting a period of `requested` frames longer than the configured
/// `buffer_size`, which is truncated.
pub fn oversized_period_error(requested: u32, buffer_size: u32) -> (e: Error)
    ensures
        e.kind == ErrorKind::BackendError,
        e.message matches Some(m) && m@ == "JACK delivered a "@ + spec_decimal(requested as nat)
            + "-frame period, exceeding the configured buffer size of "@ + spec_decimal(buffer_size as nat)
            + "; truncated"@,
{
    let text = "JACK delivered a ".to_owned()
        .concat(decimal_text(requested).as_str())
        .concat("-frame period, exceeding the configured buffer size of ")
        .concat(decimal_text(buffer_size).as_str())
        .concat("; truncated");
    Error { kind: ErrorKind::BackendError, message: Some(text) }
}

/// How long stopping an output stream waits for buffered audio: the playback latency (or one
/// buffer when none is reported) at the server's rate, capped by the caller's timeout; input
/// streams and a zero timeout do not wait.
pub fn stop_wait(is_output: bool, timeout: Option<Duration>, latency_frames: Option<FrameCount>, buffer_size: FrameCount, sample_rate: SampleRate) -> (w: Duration)
    ensures
        (!is_output || (timeout matches Some(t) && t@ == 0)) ==> w@ == 0,
        (is_output && !(timeout matches Some(t) && t@ == 0)) ==> ({
            let buffered = spec_frames_to_nanos(
                match latency_frames { Some(f) => f, None => buffer_size } as nat,
                sample_rate as nat,
            );
            w@ == match timeout {
                Some(t) => if t@ < buffered { t@ } else { buffered },
                None => buffered,
            }
        }),
{
    let zero_timeout = match timeout {
        Some(t) => t.as_nanos() == 0,
        None => false,
    };
    if !is_output || zero_timeout {
        return Duration::zero();
    }
    let frames = match latency_frames {
        Some(f) => f,
        None => buffer_size,
    };
    let buffered = frames_to_duration(frames, sample_rate);
    match timeout {
        Some(t) => if t.as_nanos() < buffered.as_nanos() { t } else { buffered },
        None => buffered,
    }
}

/// Copies the first `frames` samples of each channel into `out` interleaved: sample `i` of
/// channel `c` goes to `c + i * channels`.
pub fn interleave<T: Copy>(channels: &Vec<Vec<T>>, frames: usize, out: &mut Vec<T>)
    requires
        frames * channels@.len() <= old(out)@.len(),
        forall|c: int| 0 <= c < channels@.len() ==> frames <= (#[trigger] channels@[c])@.len(),
    ensures
        final(out)@.len() == old(out)@.len(),
        forall|c: int, i: int| 0 <= c < channels@.len() && 0 <= i < frames ==>
            final(out)@[c + i * channels@.len()] == #[trigger] channels@[c]@[i],
        forall|k: int| frames * channels@.len() <= k < final(out)@.len() ==> #[trigger] final(out)@[k] == old(out)@[k],
{
    let n = channels.len();
    let olen = out.len();
    let mut c: usize = 0;
    while c < n
        invariant
            n == channels@.len(),
            olen == out@.len(),
            c <= n,
            frames * n <= out@.len(),
            out@.len() == old(out)@.len(),
            forall|ch: int| 0 <= ch < n ==> frames <= (#[trigger] channels@[ch])@.len(),
            forall|cc: int, i: int| 0 <= cc < c && 0 <= i < frames ==> out@[cc + i * n] == #[trigger] channels@[cc]@[i],
            forall|k: int| frames * n <= k < out@.len() ==> #[trigger] out@[k] == old(out)@[k],
        decreases n - c,
    {
        let mut i: usize = 0;
        while i < frames
            invariant
                n == channels@.len(),
                olen == out@.len(),
                c < n,
                i <= frames,
                frames * n <= out@.len(),
                out@.len() == old(out)@.len(),
                forall|ch: int| 0 <= ch < n ==> frames <= (#[trigger] channels@[ch])@.len(),
                forall|cc: int, j: int| 0 <= cc < c && 0 <= j < frames ==> out@[cc + j * n] == #[trigger] channels@[cc]@[j],
                forall|j: int| 0 <= j < i ==> out@[c + j * n] == #[trigger] channels@[c as int]@[j],
                forall|k: int| frames * n <= k < out@.len() ==> #[trigger] out@[k] == old(out)@[k],
            decreases frames - i,
        {
            proof {
                lemma_slot_bound(c as int, i as int, n as int, frames as int);
            }
            let idx = c + i * n;
            let v = channels[c][i];
            let ghost prev = out@;
            out.set(idx, v);
            proof {
                assert forall|cc: int, j: int| 0 <= cc < c && 0 <= j < frames implies out@[cc + j * n] == #[trigger] channels@[cc]@[j] by {
                    lemma_distinct_slots(cc, j, c as int, i as int, n as int);
                    lemma_slot_bound(cc, j, n as int, frames as int);
                    assert(out@[cc + j * n] == prev[cc + j * n]);
                }
                assert forall|j: int| 0 <= j < i + 1 implies out@[c + j * n] == #[trigger] channels@[c as int]@[j] by {
                    if j < i {
                        lemma_distinct_slots(c as int, j, c as int, i as int, n as int);
                        lemma_slot_bound(c as int, j, n as int, frames as int);
                        assert(out@[c + j * n] == prev[c + j * n]);
                    }
                }
                assert forall|k: int| frames * n <= k < out@.len() implies #[trigger] out@[k] == old(out)@[k] by {
                    assert(out@[k] == prev[k]);
                }
            }
            i = i + 1;
        }
        c = c + 1;
    }
}

/// The interleaved slot of channel `c`, frame `i` lies inside the interleaved buffer.
proof fn lemma_slot_bound(c: int, i: int, n: int, frames: int)
    requires
        0 <= c < n,
        0 <= i < frames,
    ensures
        0 <= i * n <= c + i * n < frames * n,
{
    assert(0 <= i * n <= c + i * n < frames * n) by (nonlinear_arith)
        requires 0 <= c < n, 0 <= i < frames;
}

/// Interleaved slots of different (channel, frame) pairs differ.
proof fn lemma_distinct_slots(c1: int, i1: int, c2: int, i2: int, n: int)
    requires
        0 <= c1 < n,
        0 <= c2 < n,
        0 <= i1,
        0 <= i2,
        c1 != c2 || i1 != i2,
    ensures
        c1 + i1 * n != c2 + i2 * n,
{
    if c1 + i1 * n == c2 + i2 * n {
        assert(c1 - c2 == (i2 - i1) * n) by (nonlinear_arith)
            requires c1 + i1 * n == c2 + i2 * n;
        assert(i1 == i2) by (nonlinear_arith)
            requires c1 - c2 == (i2 - i1) * n, 0 <= c1 < n, 0 <= c2 < n;
    }
}

/// Copies channel `c` of the first `frames` interleaved frames of `data` into `channel`, and
/// fills the rest of `channel` with `silence`.
pub fn deinterleave_channel<T: Copy>(data: &Vec<T>, channels: usize, c: usize, frames: usize, silence: T, channel: &mut Vec<T>)
    requires
        c < channels,
        frames * channels <= data@.len(),
        frames <= old(channel)@.len(),
    ensures
        final(channel)@.len() == old(channel)@.len(),
        forall|i: int| 0 <= i < frames ==> #[trigger] final(channel)@[i] == data@[c + i * channels],
        forall|i: int| frames <= i < final(channel)@.len() ==> #[trigger] final(channel)@[i] == silence,
{
    let len = channel.len();
    let dlen = data.len();
    let mut i: usize = 0;
    while i < len
        invariant
            dlen == data@.len(),
            c < channels,
            frames * channels <= data@.len(),
            frames <= len == channel@.len(),
            i <= len,
            forall|j: int| 0 <= j < i && j < frames ==> #[trigger] channel@[j] == data@[c + j * channels],
            forall|j: int| frames <= j < i ==> #[trigger] channel@[j] == silence,
        decreases len - i,
    {
        if i < frames {
            proof {
                lemma_slot_bound(c as int, i as int, channels as int, frames as int);
            }
            channel.set(i, data[c + i * channels]);
        } else {
            channel.set(i, silence);
        }
        i = i + 1;
    }
}

/// Fills the first `count` elements of `buffer` with `value`.
pub fn fill_prefix<T: Copy>(buffer: &mut Vec<T>, count: usize, value: T)
    requires
        count <= old(buffer)@.len(),
    ensures
        final(buffer)@.len() == old(buffer)@.len(),
        forall|i: int| 0 <= i < count ==> #[trigger] final(buffer)@[i] == value,
        forall|i: int| count <= i < final(buffer)@.len() ==> #[trigger] final(buffer)@[i] == old(buffer)@[i],
{
    let mut i: usize = 0;
    while i < count
        invariant
            count <= buffer@.len(),
            buffer@.len() == old(buffer)@.len(),
            i <= count,
            forall|j: int| 0 <= j < i ==> #[trigger] buffer@[j] == value,
            forall|j: int| count <= j < buffer@.len() ==> #[trigger] buffer@[j] == old(buffer)@[j],
        decreases count - i,
    {
        buffer.set(i, value);
        i = i + 1;
    }
}

} // verus!
