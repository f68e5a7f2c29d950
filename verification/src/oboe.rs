//! Android (oboe): the configurations probed through Android's minimum-buffer-size queries,
//! stream clock conversion and the mapping of oboe's errors.
use vstd::prelude::*;
use crate::format::{
    Error, ErrorKind, SampleFormat, SampleRate, SupportedBufferSize, SupportedStreamConfigRange,
};
use crate::time::{Duration, StreamInstant, NANOS_PER_SEC};

verus! {

/// `AudioFormat.CHANNEL_OUT_MONO`.
pub const CHANNEL_OUT_MONO: i32 = 4;
/// `AudioFormat.CHANNEL_OUT_STEREO`.
pub const CHANNEL_OUT_STEREO: i32 = 12;
/// `AudioFormat.ENCODING_PCM_16BIT`.
pub const ENCODING_PCM_16BIT: i32 = 2;
/// `AudioFormat.ENCODING_PCM_FLOAT`.
pub const ENCODING_PCM_FLOAT: i32 = 4;

/// The sample rates probed when a device lists none.
pub open spec fn spec_sample_rates() -> Seq<i32> {
    seq![5512, 8000, 11025, 16000, 22050, 32000, 44100, 48000, 64000, 88200, 96000, 176_400, 192_000]
}

pub fn sample_rates() -> (v: Vec<i32>)
    ensures
        v@ == spec_sample_rates(),
{
    let v = vec![5512, 8000, 11025, 16000, 22050, 32000, 44100, 48000, 64000, 88200, 96000, 176_400, 192_000];
    assert(v@ =~= spec_sample_rates());
    v
}

/// The number of (format, channel count, rate) combinations probed by default.
pub const PROBE_COUNT: usize = 52;

/// The combination probed at position `k`: formats (16-bit, then float) outermost, then the
/// channel masks (mono, stereo), then the rates.
pub open spec fn spec_probe(k: int) -> (SampleFormat, u16, i32) {
    let f = if k / 26 == 0 { SampleFormat::I16 } else { SampleFormat::F32 };
    let channels = (k % 26) / 13 + 1;
    let rate = spec_sample_rates()[k % 13];
    (f, channels as u16, rate)
}

/// The parameters of the Android minimum-buffer-size query for combination `k`: the channel
/// mask, the rate and the encoding.
pub fn probe_query(k: usize) -> (q: (i32, i32, i32))
    requires
        k < PROBE_COUNT,
    ensures
        q.0 == (if spec_probe(k as int).1 == 1 { CHANNEL_OUT_MONO } else { CHANNEL_OUT_STEREO }),
        q.1 == spec_probe(k as int).2,
        q.2 == (if spec_probe(k as int).0 == SampleFormat::I16 { ENCODING_PCM_16BIT } else { ENCODING_PCM_FLOAT }),
{
    let rates = sample_rates();
    let mask = if (k % 26) / 13 == 0 { CHANNEL_OUT_MONO } else { CHANNEL_OUT_STEREO };
    let encoding = if k / 26 == 0 { ENCODING_PCM_16BIT } else { ENCODING_PCM_FLOAT };
    (mask, rates[k % 13], encoding)
}

/// The buffer sizes a stream can use given Android's minimum buffer size for its parameters:
/// from that minimum up to `i32::MAX`, or unknown when the query fails (a result of zero or
/// less).
pub fn buffer_size_range(min_buffer_size: i32) -> (b: SupportedBufferSize)
    ensures
        min_buffer_size > 0 ==> b == (SupportedBufferSize::Range { min: min_buffer_size as u32, max: i32::MAX as u32 }),
        min_buffer_size <= 0 ==> b == SupportedBufferSize::Unknown,
{
    if min_buffer_size > 0 {
        SupportedBufferSize::Range { min: min_buffer_size as u32, max: i32::MAX as u32 }
    } else {
        SupportedBufferSize::Unknown
    }
}

/// The configuration range of combination `k` with minimum buffer size `min`.
pub open spec fn spec_probe_range(k: int, min: i32) -> SupportedStreamConfigRange {
    let (f, channels, rate) = spec_probe(k);
    SupportedStreamConfigRange {
        channels,
        min_sample_rate: rate as u32,
        max_sample_rate: rate as u32,
        buffer_size: SupportedBufferSize::Range { min: min as u32, max: i32::MAX as u32 },
        sample_format: f,
    }
}

/// The configurations of the first `k` combinations: those whose query succeeded, in order.
pub open spec fn spec_default_configs(min_sizes: Seq<i32>, k: int) -> Seq<SupportedStreamConfigRange>
    decreases k,
{
    if k <= 0 {
        Seq::empty()
    } else {
        let prev = spec_default_configs(min_sizes, k - 1);
        if min_sizes[k - 1] > 0 { prev.push(spec_probe_range(k - 1, min_sizes[k - 1])) } else { prev }
    }
}

/// The configurations offered by a device that lists none of its own: every combination
/// whose minimum-buffer-size query (`min_sizes[k]` for combination `k`) succeeded.
pub fn default_supported_configs(min_sizes: &Vec<i32>) -> (v: Vec<SupportedStreamConfigRange>)
    requires
        min_sizes@.len() == PROBE_COUNT,
    ensures
        v@ == spec_default_configs(min_sizes@, PROBE_COUNT as int),
{
    let rates = sample_rates();
    let mut out: Vec<SupportedStreamConfigRange> = Vec::new();
    let mut k: usize = 0;
    while k < PROBE_COUNT
        invariant
            min_sizes@.len() == PROBE_COUNT,
            rates@ == spec_sample_rates(),
            k <= PROBE_COUNT,
            out@ == spec_default_configs(min_sizes@, k as int),
        decreases PROBE_COUNT - k,
    {
        let min = min_sizes[k];
        if let SupportedBufferSize::Range { min: lo, max: hi } = buffer_size_range(min) {
            let f = if k / 26 == 0 { SampleFormat::I16 } else { SampleFormat::F32 };
            let channels: u16 = ((k % 26) / 13 + 1) as u16;
            let rate = rates[k % 13];
            out.push(SupportedStreamConfigRange {
                channels,
                min_sample_rate: rate as u32,
                max_sample_rate: rate as u32,
                buffer_size: SupportedBufferSize::Range { min: lo, max: hi },
                sample_format: f,
            });
        }
        k = k + 1;
    }
    out
}

/// A monotonic-clock reading as an instant.
pub fn to_stream_instant(duration: Duration) -> (i: StreamInstant)
    requires
        duration@ / (NANOS_PER_SEC as nat) <= i64::MAX,
    ensures
        i@ == duration@,
{
    let secs = duration.as_secs();
    let nanos = duration.subsec_nanos();
    proof {
        assert(duration@ == secs * NANOS_PER_SEC + nanos) by (nonlinear_arith)
            requires
                secs == duration@ / (NANOS_PER_SEC as nat),
                nanos == duration@ % (NANOS_PER_SEC as nat);
    }
    StreamInstant::new(secs, nanos)
}

/// The instant of a stream's latest timestamp in nanoseconds, or the clock's epoch when the
/// stream has none.
pub fn stream_instant(timestamp_nanos: Option<i64>) -> (i: StreamInstant)
    ensures
        i@ == match timestamp_nanos {
            Some(t) => (t as u64) as nat,
            None => 0,
        },
{
    let ts: i64 = match timestamp_nanos {
        Some(t) => t,
        None => 0,
    };
    let d = Duration::from_nanos(ts as u64);
    assert(d@ / (NANOS_PER_SEC as nat) <= i64::MAX) by (nonlinear_arith)
        requires d@ <= u64::MAX;
    to_stream_instant(d)
}

/// The errors oboe reports.
#[derive(Clone, Copy, Debug, PartialEq, Eq, Structural)]
pub enum OboeError {
    Disconnected,
    Unavailable,
    Closed,
    NoFreeHandles,
    InvalidFormat,
    InvalidRate,
    IllegalArgument,
    Other,
}

/// The kind of error an oboe error is reported as while building a stream: a gone device is
/// unavailable, an unsupported format or rate an unsupported configuration, a bad argument
/// invalid input, and anything else a backend error.
pub fn build_error_kind(e: OboeError) -> (k: ErrorKind)
    ensures
        k == match e {
            OboeError::Disconnected | OboeError::Unavailable | OboeError::Closed => ErrorKind::DeviceNotAvailable,
            OboeError::NoFreeHandles => ErrorKind::ResourceExhausted,
            OboeError::InvalidFormat | OboeError::InvalidRate => ErrorKind::UnsupportedConfig,
            OboeError::IllegalArgument => ErrorKind::InvalidInput,
            OboeError::Other => ErrorKind::BackendError,
        },
{
    match e {
        OboeError::Disconnected | OboeError::Unavailable | OboeError::Closed => ErrorKind::DeviceNotAvailable,
        OboeError::NoFreeHandles => ErrorKind::ResourceExhausted,
        OboeError::InvalidFormat | OboeError::InvalidRate => ErrorKind::UnsupportedConfig,
        OboeError::IllegalArgument => ErrorKind::InvalidInput,
        OboeError::Other => ErrorKind::BackendError,
    }
}

/// The kind of error an oboe error is reported as while a stream runs, plays or pauses: a gone
/// device is unavailable, anything else a backend error.
pub fn stream_error_kind(e: OboeError) -> (k: ErrorKind)
    ensures
        k == match e {
            OboeError::Disconnected | OboeError::Unavailable | OboeError::Closed => ErrorKind::DeviceNotAvailable,
            _ => ErrorKind::BackendError,
        },
{
    match e {
        OboeError::Disconnected | OboeError::Unavailable | OboeError::Closed => ErrorKind::DeviceNotAvailable,
        _ => ErrorKind::BackendError,
    }
}

} // verus!
