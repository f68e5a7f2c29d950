//! The screen-capture backend's decisions: the one configuration a display captures with,
//! the media clock's conversion to stream instants, and the interleaving of the planar
//! buffers it delivers.
use vstd::prelude::*;
use crate::format::{
    BuildStreamError, DefaultStreamConfigError, SampleFormat, SupportedBufferSize,
    SupportedStreamConfig, SupportedStreamConfigRange,
};
use crate::jack::interleave;
use crate::text::decimal_text;
use crate::text::spec_decimal;
use crate::time::{StreamInstant, MAX_NANOS};

verus! {

/// The one range a display captures with: stereo, 48 kHz, `F32`, buffer size unknown.
pub open spec fn spec_capture_range() -> SupportedStreamConfigRange {
    SupportedStreamConfigRange {
        channels: 2,
        min_sample_rate: 48_000,
        max_sample_rate: 48_000,
        buffer_size: SupportedBufferSize::Unknown,
        sample_format: SampleFormat::F32,
    }
}

/// The ranges a display captures with.
pub fn supported_input_configs() -> (v: Vec<SupportedStreamConfigRange>)
    ensures
        v@ == seq![spec_capture_range()],
{
    vec![
        SupportedStreamConfigRange {
            channels: 2,
            min_sample_rate: 48_000,
            max_sample_rate: 48_000,
            buffer_size: SupportedBufferSize::Unknown,
            sample_format: SampleFormat::F32,
        },
    ]
}

/// The ranges a display plays with: none.
pub fn supported_output_configs() -> (v: Vec<SupportedStreamConfigRange>)
    ensures
        v@.len() == 0,
{
    Vec::new()
}

/// A display's default capture configuration: its one range at its highest rate.
pub fn default_input_config() -> (c: SupportedStreamConfig)
    ensures
        c == (SupportedStreamConfig {
            channels: spec_capture_range().channels,
            sample_rate: spec_capture_range().max_sample_rate,
            buffer_size: spec_capture_range().buffer_size,
            sample_format: spec_capture_range().sample_format,
        }),
{
    let ranges = supported_input_configs();
    let r = ranges[0];
    SupportedStreamConfig {
        channels: r.channels,
        sample_rate: r.max_sample_rate,
        buffer_size: r.buffer_size,
        sample_format: r.sample_format,
    }
}

/// A display cannot play: its default output configuration is refused.
pub fn default_output_config() -> (r: Result<SupportedStreamConfig, DefaultStreamConfigError>)
    ensures
        r matches Err(DefaultStreamConfigError::StreamTypeNotSupported),
{
    Err(DefaultStreamConfigError::StreamTypeNotSupported)
}

/// A display cannot play: building an output stream is refused.
pub fn build_output_stream() -> (r: Result<(), BuildStreamError>)
    ensures
        r matches Err(BuildStreamError::StreamConfigNotSupported),
{
    Err(BuildStreamError::StreamConfigNotSupported)
}

/// The name of the display numbered `display_id`.
pub fn display_name(display_id: u32) -> (s: String)
    ensures
        s@ == "Display "@ + spec_decimal(display_id as nat),
{
    let digits = decimal_text(display_id);
    "Display ".to_owned().concat(digits.as_str())
}

/// The stream instant of a media-clock time of `value` ticks at `timescale` ticks per
/// second: whole seconds, then the remaining ticks in nanoseconds, rounded down.
pub open spec fn spec_media_time_nanos(value: i64, timescale: i32) -> int {
    ((value as int) / (timescale as int)) * 1_000_000_000 + ((value as int) % (timescale as int))
        * 1_000_000_000 / (timescale as int)
}

/// The stream instant of a media-clock time of `value` ticks at `timescale` ticks per
/// second.
pub fn media_time_to_stream_instant(value: i64, timescale: i32) -> (i: StreamInstant)
    requires
        value >= 0,
        timescale > 0,
    ensures
        i@ == spec_media_time_nanos(value, timescale),
{
    let ts = timescale as i64;
    let secs = value / ts;
    let rem = value % ts;
    assert(0 <= rem < ts);
    assert(rem * 1_000_000_000 <= i64::MAX) by (nonlinear_arith)
        requires
            0 <= rem < ts,
            ts <= 0x7fff_ffff,
    ;
    let sub = rem * 1_000_000_000 / ts;
    assert(0 <= sub < 1_000_000_000) by (nonlinear_arith)
        requires
            0 <= rem < ts,
            sub as int == (rem as int) * 1_000_000_000 / (ts as int),
    ;
    assert(0 <= secs <= value) by (nonlinear_arith)
        requires
            value >= 0,
            ts >= 1,
            secs as int == (value as int) / (ts as int),
    ;
    assert(secs * 1_000_000_000 + sub <= MAX_NANOS) by (nonlinear_arith)
        requires
            0 <= secs <= 0x7fff_ffff_ffff_ffff,
            0 <= sub < 1_000_000_000,
    ;
    StreamInstant::new(secs as u64, sub as u32)
}

/// Interleaves the planar buffers of one delivery: frame `j` of buffer `i` goes to
/// `i + j * buffers.len()`; each buffer contributes as many frames as the first holds.
pub fn raw_buffers_to_stream_data<T: Copy>(buffers: &Vec<Vec<T>>, zero: T) -> (v: Vec<T>)
    requires
        buffers@.len() > 0,
        buffers@.len() * buffers@[0]@.len() <= usize::MAX,
        forall|i: int| 0 <= i < buffers@.len() ==> buffers@[0]@.len() <= (#[trigger] buffers@[i])@.len(),
    ensures
        v@.len() == buffers@.len() * buffers@[0]@.len(),
        forall|i: int, j: int|
            0 <= i < buffers@.len() && 0 <= j < buffers@[0]@.len() ==> v@[i + j * buffers@.len()]
                == #[trigger] buffers@[i]@[j],
{
    let n = buffers.len();
    let frames = buffers[0].len();
    let total = n * frames;
    let mut out: Vec<T> = Vec::new();
    let mut k: usize = 0;
    while k < total
        invariant
            k <= total,
            out@.len() == k,
        decreases total - k,
    {
        out.push(zero);
        k = k + 1;
    }
    assert(frames * n == total) by (nonlinear_arith)
        requires
            total == n * frames,
    ;
    interleave(buffers, frames, &mut out);
    out
}

/// Whether starting or pausing capture needs the capture call: only when the stream is not
/// already in the requested state.
pub fn needs_capture_call(playing: bool, play: bool) -> (b: bool)
    ensures
        b == (playing != play),
{
    playing != play
}

} // verus!
