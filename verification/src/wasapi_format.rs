//! WAVEFORMATEX(TENSIBLE) descriptions of stream formats for WASAPI, and the conversions
//! between frame counts and WASAPI's 100-nanosecond buffer durations.
use vstd::prelude::*;
use crate::format::{
    BufferSize, FrameCount, SampleFormat, StreamConfig, SupportedBufferSize, SupportedStreamConfig,
    Error, ErrorKind,
};

verus! {

/// `wFormatTag` of integer PCM.
pub const WAVE_FORMAT_PCM: u16 = 1;
/// `wFormatTag` of IEEE floating point.
pub const WAVE_FORMAT_IEEE_FLOAT: u16 = 3;
/// `wFormatTag` of the extensible layout, whose sub-format names the encoding.
pub const WAVE_FORMAT_EXTENSIBLE: u16 = 0xFFFE;
/// Bytes the extensible layout adds after the basic header.
pub const EXTENSIBLE_EXTRA_BYTES: u16 = 22;
/// Channel mask that passes channels straight through without speaker positions.
pub const SPEAKER_DIRECTOUT: u32 = 0;
/// `HRESULT` of a device that was removed or reconfigured.
pub const AUDCLNT_E_DEVICE_INVALIDATED: i32 = -2004287484;
/// `HRESULT` of a query answered with a close but inexact match.
pub const S_FALSE: i32 = 1;

/// The encoding named by an extensible format's sub-format GUID.
#[derive(Clone, Copy, Debug, PartialEq, Eq, Structural)]
pub enum SubFormat {
    Pcm,
    IeeeFloat,
    Other,
}

/// The fields of a WAVEFORMATEXTENSIBLE (for plain PCM or float formats the extensible fields
/// are unused).
#[derive(Clone, Copy, Debug, PartialEq, Eq, Structural)]
pub struct WaveFormat {
    pub format_tag: u16,
    pub channels: u16,
    pub samples_per_sec: u32,
    pub avg_bytes_per_sec: u32,
    pub block_align: u16,
    pub bits_per_sample: u16,
    pub cb_size: u16,
    pub valid_bits_per_sample: u16,
    pub channel_mask: u32,
    pub sub_format: SubFormat,
}

/// Sample formats that can be described by a WAVEFORMATEXTENSIBLE.
pub open spec fn spec_wave_supported(f: SampleFormat) -> bool {
    f is I16 || f is I24 || f is F32
}

/// Whether `f` can be described by a WAVEFORMATEXTENSIBLE.
pub fn wave_supported(f: SampleFormat) -> (b: bool)
    ensures
        b == spec_wave_supported(f),
{
    matches!(f, SampleFormat::I16 | SampleFormat::I24 | SampleFormat::F32)
}

/// The sample formats [`config_to_waveformatextensible`] accepts, in a fixed order.
pub fn waveformatextensible_sample_formats() -> (v: Vec<SampleFormat>)
    ensures
        forall|f: SampleFormat| v@.contains(f) <==> spec_wave_supported(f),
        v@.len() == 3,
{
    let v = vec![SampleFormat::I16, SampleFormat::I24, SampleFormat::F32];
    assert(v@[0] == SampleFormat::I16 && v@[1] == SampleFormat::I24 && v@[2] == SampleFormat::F32);
    assert forall|f: SampleFormat| v@.contains(f) <==> spec_wave_supported(f) by {
        if spec_wave_supported(f) {
            if f is I16 { assert(v@[0] == f); }
            else if f is I24 { assert(v@[1] == f); }
            else { assert(v@[2] == f); }
        }
    }
    v
}

/// The description WASAPI receives for a stream of `config` in `sample_format`.
pub open spec fn spec_config_wave(
    config: StreamConfig,
    sample_format: SampleFormat,
    channel_mask: Option<u32>,
) -> WaveFormat {
    let bytes = sample_format.spec_sample_size();
    WaveFormat {
        format_tag: if sample_format is I16 { WAVE_FORMAT_PCM } else { WAVE_FORMAT_EXTENSIBLE },
        channels: config.channels,
        samples_per_sec: config.sample_rate,
        avg_bytes_per_sec: (config.channels * config.sample_rate * bytes) as u32,
        block_align: (config.channels * bytes) as u16,
        bits_per_sample: (8 * bytes) as u16,
        cb_size: if sample_format is I16 { 0 } else { EXTENSIBLE_EXTRA_BYTES },
        valid_bits_per_sample: sample_format.spec_bits_per_sample() as u16,
        channel_mask: match channel_mask {
            Some(m) => m,
            None => SPEAKER_DIRECTOUT,
        },
        sub_format: if sample_format.spec_is_float() { SubFormat::IeeeFloat } else { SubFormat::Pcm },
    }
}

/// A stream description is self-consistent: a frame holds one sample per channel, each the
/// container size the bit depth names, and a second holds one frame per sample.
pub proof fn lemma_wave_description_consistent(config: StreamConfig, sample_format: SampleFormat, channel_mask: Option<u32>)
    requires
        spec_wave_supported(sample_format),
        config.channels * config.sample_rate * sample_format.spec_sample_size() <= u32::MAX,
        config.channels * sample_format.spec_sample_size() <= u16::MAX,
    ensures
        ({
            let w = spec_config_wave(config, sample_format, channel_mask);
            &&& w.avg_bytes_per_sec == w.samples_per_sec * w.block_align
            &&& w.block_align * 8 == w.channels * w.bits_per_sample
            &&& w.bits_per_sample == 8 * sample_format.spec_sample_size()
            &&& w.channels == config.channels && w.samples_per_sec == config.sample_rate
        }),
{
    let w = spec_config_wave(config, sample_format, channel_mask);
    let bytes = sample_format.spec_sample_size();
    assert(bytes <= 4);
    assert(config.channels * config.sample_rate * bytes == config.sample_rate * (config.channels * bytes)) by (nonlinear_arith);
    assert((config.channels * bytes) * 8 == config.channels * (8 * bytes)) by (nonlinear_arith);
}

/// Describes `config` in `sample_format` as a WAVEFORMATEXTENSIBLE, or `None` when the format
/// cannot be described. 16-bit integers use the plain PCM tag; the other formats use the
/// extensible layout, with 24-bit samples in a four-byte container. Without a channel mask
/// the channels pass straight through.
pub fn config_to_waveformatextensible(
    config: StreamConfig,
    sample_format: SampleFormat,
    channel_mask: Option<u32>,
) -> (w: Option<WaveFormat>)
    requires
        spec_wave_supported(sample_format) ==> config.channels * config.sample_rate
            * sample_format.spec_sample_size() <= u32::MAX,
        spec_wave_supported(sample_format) ==> config.channels * sample_format.spec_sample_size()
            <= u16::MAX,
    ensures
        w is Some <==> spec_wave_supported(sample_format),
        w matches Some(wf) ==> wf == spec_config_wave(config, sample_format, channel_mask),
{
    if !wave_supported(sample_format) {
        return None;
    }
    let bytes = sample_format.sample_size();
    let channels = config.channels;
    let rate = config.sample_rate;
    assert(channels as u32 * rate <= u32::MAX) by (nonlinear_arith)
        requires
            channels * rate * bytes <= u32::MAX,
            bytes >= 1,
    ;
    let avg: u32 = channels as u32 * rate * bytes as u32;
    let align: u16 = channels * bytes as u16;
    let bits: u16 = 8 * bytes as u16;
    let is_i16 = sample_format == SampleFormat::I16;
    Some(WaveFormat {
        format_tag: if is_i16 { WAVE_FORMAT_PCM } else { WAVE_FORMAT_EXTENSIBLE },
        channels,
        samples_per_sec: rate,
        avg_bytes_per_sec: avg,
        block_align: align,
        bits_per_sample: bits,
        cb_size: if is_i16 { 0 } else { EXTENSIBLE_EXTRA_BYTES },
        valid_bits_per_sample: sample_format.bits_per_sample() as u16,
        channel_mask: match channel_mask {
            Some(m) => m,
            None => SPEAKER_DIRECTOUT,
        },
        sub_format: if sample_format.is_float() { SubFormat::IeeeFloat } else { SubFormat::Pcm },
    })
}

/// The sample format a device format describes, if it is one this library handles.
pub open spec fn spec_wave_sample_format(w: WaveFormat) -> Option<SampleFormat> {
    if w.format_tag == WAVE_FORMAT_PCM && w.bits_per_sample == 16 {
        Some(SampleFormat::I16)
    } else if w.format_tag == WAVE_FORMAT_IEEE_FLOAT && w.bits_per_sample == 32 {
        Some(SampleFormat::F32)
    } else if w.format_tag == WAVE_FORMAT_EXTENSIBLE {
        match w.sub_format {
            SubFormat::Pcm => if w.bits_per_sample == 16 {
                Some(SampleFormat::I16)
            } else if w.bits_per_sample == 32 && w.valid_bits_per_sample == 24 {
                Some(SampleFormat::I24)
            } else if w.bits_per_sample == 32 && w.valid_bits_per_sample == 32 {
                Some(SampleFormat::I32)
            } else {
                None
            },
            SubFormat::IeeeFloat => if w.bits_per_sample == 32 {
                Some(SampleFormat::F32)
            } else if w.bits_per_sample == 64 {
                Some(SampleFormat::F64)
            } else {
                None
            },
            SubFormat::Other => None,
        }
    } else {
        None
    }
}

/// The sample format a device format describes, or `None` for an unknown encoding.
pub fn wave_sample_format(w: &WaveFormat) -> (f: Option<SampleFormat>)
    ensures
        f == spec_wave_sample_format(*w),
{
    if w.format_tag == WAVE_FORMAT_PCM && w.bits_per_sample == 16 {
        Some(SampleFormat::I16)
    } else if w.format_tag == WAVE_FORMAT_IEEE_FLOAT && w.bits_per_sample == 32 {
        Some(SampleFormat::F32)
    } else if w.format_tag == WAVE_FORMAT_EXTENSIBLE {
        match w.sub_format {
            SubFormat::Pcm => if w.bits_per_sample == 16 {
                Some(SampleFormat::I16)
            } else if w.bits_per_sample == 32 && w.valid_bits_per_sample == 24 {
                Some(SampleFormat::I24)
            } else if w.bits_per_sample == 32 && w.valid_bits_per_sample == 32 {
                Some(SampleFormat::I32)
            } else {
                None
            },
            SubFormat::IeeeFloat => if w.bits_per_sample == 32 {
                Some(SampleFormat::F32)
            } else if w.bits_per_sample == 64 {
                Some(SampleFormat::F64)
            } else {
                None
            },
            SubFormat::Other => None,
        }
    } else {
        None
    }
}

/// A buffer of `frames` frames as a WASAPI duration in 100-nanosecond units, rounded to
/// nearest; zero (let the device choose) for the default size.
pub open spec fn spec_buffer_size_to_duration(buffer_size: BufferSize, rate: nat) -> int {
    match buffer_size {
        BufferSize::Fixed(frames) => ((frames * 10_000_000 + rate / 2) as nat / rate) as int,
        BufferSize::Default => 0,
    }
}

pub fn buffer_size_to_duration(buffer_size: &BufferSize, sample_rate: u32) -> (d: i64)
    requires
        sample_rate > 0,
    ensures
        d == spec_buffer_size_to_duration(*buffer_size, sample_rate as nat),
{
    match buffer_size {
        BufferSize::Fixed(frames) => {
            assert(*frames as u64 * 10_000_000 <= u32::MAX as u64 * 10_000_000) by (nonlinear_arith)
                requires *frames <= u32::MAX;
            let n: u64 = *frames as u64 * 10_000_000 + sample_rate as u64 / 2;
            let d: u64 = n / sample_rate as u64;
            assert(d <= n) by (nonlinear_arith)
                requires
                    d == n / (sample_rate as u64),
                    sample_rate >= 1;
            d as i64
        },
        BufferSize::Default => 0,
    }
}

/// A WASAPI duration in 100-nanosecond units as a frame count at `rate`, rounded to nearest
/// for a non-negative duration (the quotient is taken towards zero, as integer division does).
pub open spec fn spec_buffer_duration_to_frames(duration: int, rate: nat) -> int {
    let p = duration * rate + 5_000_000;
    if p >= 0 {
        p / 10_000_000
    } else {
        -((-p) / 10_000_000)
    }
}

/// The frame count a WASAPI duration stands for at `sample_rate`, cut to 32 bits.
pub fn buffer_duration_to_frames(buffer_duration: i64, sample_rate: u32) -> (f: FrameCount)
    requires
        i64::MIN <= buffer_duration * sample_rate,
        buffer_duration * sample_rate + 5_000_000 <= i64::MAX,
    ensures
        f == spec_buffer_duration_to_frames(buffer_duration as int, sample_rate as nat) as u32,
{
    let p: i64 = buffer_duration * sample_rate as i64 + 5_000_000;
    let q: i64 = p / 10_000_000;
    let f: u32 = #[verifier::truncate] (q as u32);
    f
}

/// The configuration a device's mix format offers. `limits` holds the minimum and maximum
/// buffer durations when the device limits them (hardware-offloaded processing); without
/// limits any buffer size is accepted.
pub fn supported_config_from_wave(w: &WaveFormat, limits: Option<(i64, i64)>) -> (c: Option<
    SupportedStreamConfig,
>)
    requires
        limits matches Some((lo, hi)) ==> i64::MIN <= lo * w.samples_per_sec && lo * w.samples_per_sec
            + 5_000_000 <= i64::MAX && i64::MIN <= hi * w.samples_per_sec && hi * w.samples_per_sec
            + 5_000_000 <= i64::MAX,
    ensures
        c is Some <==> spec_wave_sample_format(*w) is Some,
        c matches Some(cfg) ==> {
            &&& cfg.sample_format == spec_wave_sample_format(*w)->0
            &&& cfg.channels == w.channels
            &&& cfg.sample_rate == w.samples_per_sec
            &&& cfg.buffer_size == match limits {
                Some((lo, hi)) => SupportedBufferSize::Range {
                    min: spec_buffer_duration_to_frames(lo as int, w.samples_per_sec as nat) as u32,
                    max: spec_buffer_duration_to_frames(hi as int, w.samples_per_sec as nat) as u32,
                },
                None => SupportedBufferSize::Range { min: 0, max: u32::MAX },
            }
        },
{
    let sample_format = match wave_sample_format(w) {
        Some(f) => f,
        None => return None,
    };
    let buffer_size = match limits {
        Some((lo, hi)) => SupportedBufferSize::Range {
            min: buffer_duration_to_frames(lo, w.samples_per_sec),
            max: buffer_duration_to_frames(hi, w.samples_per_sec),
        },
        None => SupportedBufferSize::Range { min: 0, max: u32::MAX },
    };
    Some(SupportedStreamConfig {
        channels: w.channels,
        sample_rate: w.samples_per_sec,
        buffer_size,
        sample_format,
    })
}

/// Whether WASAPI should be asked about a format with tag `tag`: only the plain PCM, float and
/// extensible layouts can be queried; any other tag is reported unsupported without asking.
pub fn format_tag_is_queryable(tag: u16) -> (b: bool)
    ensures
        b <==> (tag == WAVE_FORMAT_PCM || tag == WAVE_FORMAT_IEEE_FLOAT
            || tag == WAVE_FORMAT_EXTENSIBLE),
{
    tag == WAVE_FORMAT_PCM || tag == WAVE_FORMAT_IEEE_FLOAT || tag == WAVE_FORMAT_EXTENSIBLE
}

/// Interprets the `HRESULT` of a shared-mode format query: a removed device is an error, an
/// inexact match (`S_FALSE`) or any failure means unsupported, anything else supported.
pub fn format_query_result(hr: i32) -> (r: Result<bool, Error>)
    ensures
        hr == AUDCLNT_E_DEVICE_INVALIDATED ==> (r matches Err(e) && e.kind
            == ErrorKind::DeviceNotAvailable),
        hr != AUDCLNT_E_DEVICE_INVALIDATED ==> r == Ok::<bool, Error>(hr >= 0 && hr != S_FALSE),
{
    if hr == AUDCLNT_E_DEVICE_INVALIDATED {
        Err(Error::new(ErrorKind::DeviceNotAvailable))
    } else if hr == S_FALSE || hr < 0 {
        Ok(false)
    } else {
        Ok(true)
    }
}

/// Every format the description accepts is read back as the same sample format.
pub proof fn lemma_wave_round_trip(config: StreamConfig, f: SampleFormat, mask: Option<u32>)
    requires
        spec_wave_supported(f),
    ensures
        spec_wave_sample_format(spec_config_wave(config, f, mask)) == Some(f),
{
}

/// A fixed buffer size survives the conversion to a WASAPI duration and back, for every
/// sample rate below ten million frames per second.
pub proof fn lemma_buffer_duration_round_trip(frames: u32, rate: nat)
    requires
        0 < rate < 10_000_000,
    ensures
        spec_buffer_duration_to_frames(
            spec_buffer_size_to_duration(BufferSize::Fixed(frames), rate) as int,
            rate,
        ) == frames,
{
    let x: nat = (frames * 10_000_000 + rate / 2) as nat;
    let d: nat = x / rate;
    let r: nat = x % rate;
    assert(x == d * rate + r && 0 <= r < rate && d >= 0) by (nonlinear_arith)
        requires
            rate > 0,
            d == x / rate,
            r == x % rate,
            x >= 0,
    ;
    let y = d * rate + 5_000_000;
    assert(frames * 10_000_000 <= y < frames * 10_000_000 + 10_000_000);
    assert(y / 10_000_000 == frames) by (nonlinear_arith)
        requires
            frames * 10_000_000 <= y < frames * 10_000_000 + 10_000_000,
    ;
}

} // verus!
