//! The PulseAudio backend's decisions: which sample formats map onto the protocol's
//! encodings, the configurations a sink or source offers, the channel layout and buffer
//! attributes a stream is opened with, and the latency bookkeeping behind its timestamps.
use vstd::prelude::*;
use crate::format::{
    BufferSize, BuildStreamError, DefaultStreamConfigError, DeviceDirection, FrameCount,
    SampleFormat, StreamConfig, SupportedBufferSize, SupportedStreamConfig,
    SupportedStreamConfigRange,
};
use crate::text::decimal_text;
use crate::text::{all_digits, digits_value};
use crate::time::{Duration, StreamInstant, StreamTimestamp, MAX_NANOS, NANOS_PER_SEC};

verus! {

/// The largest sample rate the protocol carries, in Hz.
#[verifier::external_body]
fn max_rate() -> (r: u32)
    ensures
        r == 768_000,
{
    pulseaudio::protocol::sample_spec::MAX_RATE
}

/// The most channels a protocol stream can have.
#[verifier::external_body]
fn max_channels() -> (n: u8)
    ensures
        n == 32,
{
    pulseaudio::protocol::sample_spec::MAX_CHANNELS
}

/// The largest server-side queue, in bytes.
#[verifier::external_body]
fn max_memblockq_length() -> (n: usize)
    ensures
        n == 4_194_304,
{
    pulseaudio::protocol::MAX_MEMBLOCKQ_LENGTH
}

/// How the protocol encodes individual samples.
#[derive(Clone, Copy, Debug, PartialEq, Eq, Structural)]
pub enum PulseSampleFormat {
    Invalid,
    U8,
    Alaw,
    Ulaw,
    S16Le,
    S16Be,
    Float32Le,
    Float32Be,
    S32Le,
    S32Be,
    S24Le,
    S24Be,
    S24In32Le,
    S24In32Be,
}

impl PulseSampleFormat {
    /// Bytes one sample of this encoding occupies.
    pub open spec fn spec_bytes_per_sample(self) -> nat {
        match self {
            PulseSampleFormat::Invalid => 0,
            PulseSampleFormat::U8 | PulseSampleFormat::Alaw | PulseSampleFormat::Ulaw => 1,
            PulseSampleFormat::S16Le | PulseSampleFormat::S16Be => 2,
            PulseSampleFormat::S24Le | PulseSampleFormat::S24Be => 3,
            _ => 4,
        }
    }

    /// Bytes one sample of this encoding occupies; zero for `Invalid`.
    pub fn bytes_per_sample(&self) -> (n: usize)
        ensures
            n == self.spec_bytes_per_sample(),
    {
        match self {
            PulseSampleFormat::Invalid => 0,
            PulseSampleFormat::U8 | PulseSampleFormat::Alaw | PulseSampleFormat::Ulaw => 1,
            PulseSampleFormat::S16Le | PulseSampleFormat::S16Be => 2,
            PulseSampleFormat::S24Le | PulseSampleFormat::S24Be => 3,
            _ => 4,
        }
    }
}

/// The sample formats this backend offers, in the order it lists them.
pub open spec fn spec_pulse_formats() -> Seq<SampleFormat> {
    seq![SampleFormat::U8, SampleFormat::I16, SampleFormat::I24, SampleFormat::I32, SampleFormat::F32]
}

/// The sample formats this backend offers.
pub fn pulse_formats() -> (v: Vec<SampleFormat>)
    ensures
        v@ == spec_pulse_formats(),
{
    vec![SampleFormat::U8, SampleFormat::I16, SampleFormat::I24, SampleFormat::I32, SampleFormat::F32]
}

/// The sample format a protocol encoding carries, if this backend supports it; both byte
/// orders of an encoding give the same format.
pub open spec fn spec_sample_format_from_pulse(f: PulseSampleFormat) -> Option<SampleFormat> {
    match f {
        PulseSampleFormat::U8 => Some(SampleFormat::U8),
        PulseSampleFormat::S16Le | PulseSampleFormat::S16Be => Some(SampleFormat::I16),
        PulseSampleFormat::S24Le | PulseSampleFormat::S24Be => Some(SampleFormat::I24),
        PulseSampleFormat::S32Le | PulseSampleFormat::S32Be => Some(SampleFormat::I32),
        PulseSampleFormat::Float32Le | PulseSampleFormat::Float32Be => Some(SampleFormat::F32),
        _ => None,
    }
}

/// The sample format a protocol encoding carries, or `None` for one this backend does
/// not support.
pub fn sample_format_from_pulse(f: PulseSampleFormat) -> (r: Option<SampleFormat>)
    ensures
        r == spec_sample_format_from_pulse(f),
{
    match f {
        PulseSampleFormat::U8 => Some(SampleFormat::U8),
        PulseSampleFormat::S16Le | PulseSampleFormat::S16Be => Some(SampleFormat::I16),
        PulseSampleFormat::S24Le | PulseSampleFormat::S24Be => Some(SampleFormat::I24),
        PulseSampleFormat::S32Le | PulseSampleFormat::S32Be => Some(SampleFormat::I32),
        PulseSampleFormat::Float32Le | PulseSampleFormat::Float32Be => Some(SampleFormat::F32),
        _ => None,
    }
}

/// The protocol encoding of `format` in the machine's byte order.
pub open spec fn spec_pulse_format_for(format: SampleFormat, little_endian: bool) -> Option<
    PulseSampleFormat,
> {
    match format {
        SampleFormat::U8 => Some(PulseSampleFormat::U8),
        SampleFormat::I16 => Some(
            if little_endian { PulseSampleFormat::S16Le } else { PulseSampleFormat::S16Be },
        ),
        SampleFormat::I24 => Some(
            if little_endian { PulseSampleFormat::S24Le } else { PulseSampleFormat::S24Be },
        ),
        SampleFormat::I32 => Some(
            if little_endian { PulseSampleFormat::S32Le } else { PulseSampleFormat::S32Be },
        ),
        SampleFormat::F32 => Some(
            if little_endian { PulseSampleFormat::Float32Le } else { PulseSampleFormat::Float32Be },
        ),
        _ => None,
    }
}

/// The protocol encoding of `format` on a machine whose byte order is little-endian when
/// `little_endian` holds, or `None` for a format the protocol cannot carry.
pub fn pulse_format_for(format: SampleFormat, little_endian: bool) -> (r: Option<PulseSampleFormat>)
    ensures
        r == spec_pulse_format_for(format, little_endian),
{
    match format {
        SampleFormat::U8 => Some(PulseSampleFormat::U8),
        SampleFormat::I16 => Some(
            if little_endian { PulseSampleFormat::S16Le } else { PulseSampleFormat::S16Be },
        ),
        SampleFormat::I24 => Some(
            if little_endian { PulseSampleFormat::S24Le } else { PulseSampleFormat::S24Be },
        ),
        SampleFormat::I32 => Some(
            if little_endian { PulseSampleFormat::S32Le } else { PulseSampleFormat::S32Be },
        ),
        SampleFormat::F32 => Some(
            if little_endian { PulseSampleFormat::Float32Le } else { PulseSampleFormat::Float32Be },
        ),
        _ => None,
    }
}

/// A format goes onto the wire exactly when this backend lists it, and reading the wire
/// encoding back gives the same format, in either byte order.
pub proof fn lemma_pulse_format_round_trip(format: SampleFormat, little_endian: bool)
    ensures
        spec_pulse_format_for(format, little_endian) is Some <==> spec_pulse_formats().contains(
            format,
        ),
        spec_pulse_format_for(format, little_endian) matches Some(p)
            ==> spec_sample_format_from_pulse(p) == Some(format),
{
    let fs = spec_pulse_formats();
    if spec_pulse_formats().contains(format) {
        let i = choose|i: int| 0 <= i < fs.len() && fs[i] == format;
        assert(0 <= i < 5);
    }
    assert(fs[0] == SampleFormat::U8);
    assert(fs[1] == SampleFormat::I16);
    assert(fs[2] == SampleFormat::I24);
    assert(fs[3] == SampleFormat::I32);
    assert(fs[4] == SampleFormat::F32);
}

/// The largest buffer, in frames, of frames `bytes_per_frame` bytes long that fits in the
/// server's queue.
pub open spec fn spec_max_frames(bytes_per_frame: nat) -> nat {
    4_194_304nat / bytes_per_frame
}

/// How many channel counts each format is offered with: one up to, but not including, the
/// protocol's channel limit.
pub open spec fn spec_channel_counts() -> nat {
    31
}

/// The range at position `k` of the list a sink or source offers: formats in the listed
/// order, each with every channel count from one upwards.
pub open spec fn spec_pulse_range(k: int) -> SupportedStreamConfigRange {
    let format = spec_pulse_formats()[k / 31];
    let channels = k % 31 + 1;
    SupportedStreamConfigRange {
        channels: channels as u16,
        min_sample_rate: 1,
        max_sample_rate: 768_000,
        buffer_size: SupportedBufferSize::Range {
            min: 0,
            max: spec_max_frames((channels * format.spec_sample_size()) as nat) as u32,
        },
        sample_format: format,
    }
}

/// Every configuration range a sink or source offers.
pub fn supported_config_ranges() -> (v: Vec<SupportedStreamConfigRange>)
    ensures
        v@.len() == 5 * spec_channel_counts(),
        forall|k: int| 0 <= k < v@.len() ==> #[trigger] v@[k] == spec_pulse_range(k),
{
    let formats = pulse_formats();
    let limit = max_channels();
    let rate = max_rate();
    let queue = max_memblockq_length();
    let mut ranges: Vec<SupportedStreamConfigRange> = Vec::new();
    let mut fi: usize = 0;
    while fi < formats.len()
        invariant
            formats@ == spec_pulse_formats(),
            limit == 32,
            rate == 768_000,
            queue == 4_194_304,
            fi <= 5,
            ranges@.len() == fi * 31,
            forall|k: int| 0 <= k < ranges@.len() ==> #[trigger] ranges@[k] == spec_pulse_range(k),
        decreases 5 - fi,
    {
        let format = formats[fi];
        assert(1 <= format.spec_sample_size() <= 8);
        let mut channel_count: u8 = 1;
        while channel_count < limit
            invariant
                formats@ == spec_pulse_formats(),
                limit == 32,
                rate == 768_000,
                queue == 4_194_304,
                fi < 5,
                format == spec_pulse_formats()[fi as int],
                1 <= format.spec_sample_size() <= 8,
                1 <= channel_count <= 32,
                ranges@.len() == fi * 31 + channel_count - 1,
                forall|k: int| 0 <= k < ranges@.len() ==> #[trigger] ranges@[k] == spec_pulse_range(k),
            decreases 32 - channel_count,
        {
            let size = format.sample_size();
            assert(1 <= size <= 8);
            assert(1 <= channel_count as usize * size <= 256) by (nonlinear_arith)
                requires
                    1 <= size <= 8,
                    1 <= channel_count <= 32,
            ;
            let bytes_per_frame = channel_count as usize * size;
            let max_frames = (queue / bytes_per_frame) as FrameCount;
            let range = SupportedStreamConfigRange {
                channels: channel_count as u16,
                min_sample_rate: 1,
                max_sample_rate: rate,
                buffer_size: SupportedBufferSize::Range { min: 0, max: max_frames },
                sample_format: format,
            };
            proof {
                let k = fi * 31 + channel_count - 1;
                assert(k / 31 == fi as int && k % 31 == channel_count - 1) by (nonlinear_arith)
                    requires
                        k == fi * 31 + channel_count - 1,
                        1 <= channel_count <= 31,
                        0 <= fi,
                ;
            }
            ranges.push(range);
            channel_count = channel_count + 1;
        }
        fi = fi + 1;
    }
    ranges
}

/// The sample format, channel count and rate of a protocol stream or device.
#[derive(Clone, Copy, Debug, PartialEq, Eq, Structural)]
pub struct PulseSampleSpec {
    pub format: PulseSampleFormat,
    pub channels: u8,
    pub sample_rate: u32,
}

/// The default configuration of a device whose native sample spec is `sample_spec` and
/// whose channel map has `num_channels` channels: the native format, rate and channel
/// count, with any buffer size the server's queue can hold; an error when the native
/// encoding is one this backend does not support.
pub fn default_config_from_spec(sample_spec: &PulseSampleSpec, num_channels: u8) -> (r: Result<
    SupportedStreamConfig,
    DefaultStreamConfigError,
>)
    requires
        spec_sample_format_from_pulse(sample_spec.format) is Some ==> num_channels > 0,
    ensures
        spec_sample_format_from_pulse(sample_spec.format) is None ==> (r matches Err(
            DefaultStreamConfigError::StreamTypeNotSupported,
        )),
        spec_sample_format_from_pulse(sample_spec.format) matches Some(f) ==> r matches Ok(c) && c
            == (SupportedStreamConfig {
            channels: num_channels as u16,
            sample_rate: sample_spec.sample_rate,
            buffer_size: SupportedBufferSize::Range {
                min: 0,
                max: spec_max_frames((num_channels * f.spec_sample_size()) as nat) as u32,
            },
            sample_format: f,
        }),
{
    let sample_format = match sample_format_from_pulse(sample_spec.format) {
        Some(f) => f,
        None => {
            return Err(DefaultStreamConfigError::StreamTypeNotSupported);
        },
    };
    let size = sample_format.sample_size();
    assert(1 <= size <= 4);
    assert(1 <= num_channels as usize * size <= 1020) by (nonlinear_arith)
        requires
            1 <= size <= 4,
            1 <= num_channels <= 255,
    ;
    let bytes_per_frame = num_channels as usize * size;
    let max_frames = (max_memblockq_length() / bytes_per_frame) as u32;
    Ok(
        SupportedStreamConfig {
            channels: num_channels as u16,
            sample_rate: sample_spec.sample_rate,
            buffer_size: SupportedBufferSize::Range { min: 0, max: max_frames },
            sample_format,
        },
    )
}

/// Where a channel of a stream is meant to be heard. `Aux(n)` is the protocol's `n`-th
/// auxiliary position, `n` below 32.
#[derive(Clone, Copy, Debug, PartialEq, Eq, Structural)]
pub enum ChannelPosition {
    Mono,
    FrontLeft,
    FrontRight,
    FrontCenter,
    RearCenter,
    RearLeft,
    RearRight,
    Lfe,
    FrontLeftOfCenter,
    FrontRightOfCenter,
    SideLeft,
    SideRight,
    Aux(u8),
    TopCenter,
    TopFrontLeft,
    TopFrontRight,
    TopFrontCenter,
    TopRearLeft,
    TopRearRight,
    TopRearCenter,
}

/// The 7.1 layout that the larger standard layouts extend.
pub open spec fn spec_layout_7_1() -> Seq<ChannelPosition> {
    seq![
        ChannelPosition::FrontLeft,
        ChannelPosition::FrontRight,
        ChannelPosition::FrontCenter,
        ChannelPosition::Lfe,
        ChannelPosition::RearLeft,
        ChannelPosition::RearRight,
        ChannelPosition::SideLeft,
        ChannelPosition::SideRight,
    ]
}

/// The standard layout for `channels` channels: the server's default map for one to
/// eight channels, 7.1.2 for ten and 7.1.4 for twelve; empty for any other count.
pub open spec fn spec_standard_layout(channels: u16) -> Seq<ChannelPosition> {
    if channels == 1 {
        seq![ChannelPosition::Mono]
    } else if channels == 2 {
        seq![ChannelPosition::FrontLeft, ChannelPosition::FrontRight]
    } else if channels == 3 {
        seq![ChannelPosition::FrontLeft, ChannelPosition::FrontRight, ChannelPosition::FrontCenter]
    } else if channels == 4 {
        seq![
            ChannelPosition::FrontLeft,
            ChannelPosition::FrontRight,
            ChannelPosition::RearLeft,
            ChannelPosition::RearRight,
        ]
    } else if channels == 5 {
        seq![
            ChannelPosition::FrontLeft,
            ChannelPosition::FrontRight,
            ChannelPosition::FrontCenter,
            ChannelPosition::RearLeft,
            ChannelPosition::RearRight,
        ]
    } else if channels == 6 {
        seq![
            ChannelPosition::FrontLeft,
            ChannelPosition::FrontRight,
            ChannelPosition::FrontCenter,
            ChannelPosition::Lfe,
            ChannelPosition::RearLeft,
            ChannelPosition::RearRight,
        ]
    } else if channels == 7 {
        seq![
            ChannelPosition::FrontLeft,
            ChannelPosition::FrontRight,
            ChannelPosition::FrontCenter,
            ChannelPosition::Lfe,
            ChannelPosition::RearLeft,
            ChannelPosition::RearRight,
            ChannelPosition::RearCenter,
        ]
    } else if channels == 8 {
        spec_layout_7_1()
    } else if channels == 10 {
        spec_layout_7_1() + seq![ChannelPosition::TopFrontLeft, ChannelPosition::TopFrontRight]
    } else if channels == 12 {
        spec_layout_7_1() + seq![
            ChannelPosition::TopFrontLeft,
            ChannelPosition::TopFrontRight,
            ChannelPosition::TopRearLeft,
            ChannelPosition::TopRearRight,
        ]
    } else {
        Seq::empty()
    }
}

/// The channel map of a stream with `channels` channels: its standard layout where it has
/// one, else the first `channels` auxiliary positions, at most all 32 of them.
pub open spec fn spec_channel_map(channels: u16) -> Seq<ChannelPosition> {
    if spec_standard_layout(channels).len() > 0 {
        spec_standard_layout(channels)
    } else {
        Seq::new(
            if channels <= 32 { channels as nat } else { 32 },
            |i: int| ChannelPosition::Aux(i as u8),
        )
    }
}

fn layout_7_1() -> (v: Vec<ChannelPosition>)
    ensures
        v@ == spec_layout_7_1(),
{
    vec![
        ChannelPosition::FrontLeft,
        ChannelPosition::FrontRight,
        ChannelPosition::FrontCenter,
        ChannelPosition::Lfe,
        ChannelPosition::RearLeft,
        ChannelPosition::RearRight,
        ChannelPosition::SideLeft,
        ChannelPosition::SideRight,
    ]
}

fn standard_layout(channels: u16) -> (v: Vec<ChannelPosition>)
    ensures
        v@ == spec_standard_layout(channels),
{
    if channels == 1 {
        vec![ChannelPosition::Mono]
    } else if channels == 2 {
        vec![ChannelPosition::FrontLeft, ChannelPosition::FrontRight]
    } else if channels == 3 {
        vec![ChannelPosition::FrontLeft, ChannelPosition::FrontRight, ChannelPosition::FrontCenter]
    } else if channels == 4 {
        vec![
            ChannelPosition::FrontLeft,
            ChannelPosition::FrontRight,
            ChannelPosition::RearLeft,
            ChannelPosition::RearRight,
        ]
    } else if channels == 5 {
        vec![
            ChannelPosition::FrontLeft,
            ChannelPosition::FrontRight,
            ChannelPosition::FrontCenter,
            ChannelPosition::RearLeft,
            ChannelPosition::RearRight,
        ]
    } else if channels == 6 {
        vec![
            ChannelPosition::FrontLeft,
            ChannelPosition::FrontRight,
            ChannelPosition::FrontCenter,
            ChannelPosition::Lfe,
            ChannelPosition::RearLeft,
            ChannelPosition::RearRight,
        ]
    } else if channels == 7 {
        vec![
            ChannelPosition::FrontLeft,
            ChannelPosition::FrontRight,
            ChannelPosition::FrontCenter,
            ChannelPosition::Lfe,
            ChannelPosition::RearLeft,
            ChannelPosition::RearRight,
            ChannelPosition::RearCenter,
        ]
    } else if channels == 8 {
        layout_7_1()
    } else if channels == 10 {
        let mut v = layout_7_1();
        v.push(ChannelPosition::TopFrontLeft);
        v.push(ChannelPosition::TopFrontRight);
        assert(v@ =~= spec_standard_layout(channels));
        v
    } else if channels == 12 {
        let mut v = layout_7_1();
        v.push(ChannelPosition::TopFrontLeft);
        v.push(ChannelPosition::TopFrontRight);
        v.push(ChannelPosition::TopRearLeft);
        v.push(ChannelPosition::TopRearRight);
        assert(v@ =~= spec_standard_layout(channels));
        v
    } else {
        Vec::new()
    }
}

/// The channel map a stream with `config.channels` channels is opened with.
pub fn make_channel_map(config: StreamConfig) -> (v: Vec<ChannelPosition>)
    ensures
        v@ == spec_channel_map(config.channels),
{
    let standard = standard_layout(config.channels);
    if standard.len() > 0 {
        return standard;
    }
    let n: u8 = if config.channels <= 32 { config.channels as u8 } else { 32 };
    let mut aux: Vec<ChannelPosition> = Vec::new();
    let mut i: u8 = 0;
    while i < n
        invariant
            i <= n <= 32,
            aux@.len() == i,
            forall|j: int| 0 <= j < i ==> #[trigger] aux@[j] == ChannelPosition::Aux(j as u8),
        decreases n - i,
    {
        aux.push(ChannelPosition::Aux(i));
        i = i + 1;
    }
    assert(aux@ =~= spec_channel_map(config.channels));
    aux
}

/// A stream's channel map has one position per channel, for every channel count the
/// protocol allows.
pub proof fn lemma_channel_map_len(channels: u16)
    requires
        channels <= 32,
    ensures
        spec_channel_map(channels).len() == channels,
{
    assert(spec_layout_7_1().len() == 8);
}

/// Speakers keep their place across the standard layouts: a single channel is mono; from two
/// channels on the first two are front left and right; the third is the front centre in
/// every layout that has one (all but quadraphonic); from 5.1 on the fourth is the
/// subwoofer and the fifth and sixth the rear pair, which quadraphonic and 5.0 carry right
/// after their front channels; and each larger surround layout extends 7.1, which extends
/// 5.1.
pub proof fn lemma_standard_speaker_places(c: u16)
    ensures
        c == 1 ==> spec_channel_map(c) == seq![ChannelPosition::Mono],
        ((2 <= c <= 8) || c == 10 || c == 12) ==> spec_channel_map(c)[0] == ChannelPosition::FrontLeft
            && spec_channel_map(c)[1] == ChannelPosition::FrontRight,
        (c == 3 || (5 <= c <= 8) || c == 10 || c == 12) ==> spec_channel_map(c)[2] == ChannelPosition::FrontCenter,
        ((6 <= c <= 8) || c == 10 || c == 12) ==> spec_channel_map(c)[3] == ChannelPosition::Lfe
            && spec_channel_map(c)[4] == ChannelPosition::RearLeft
            && spec_channel_map(c)[5] == ChannelPosition::RearRight,
        c == 4 ==> spec_channel_map(c)[2] == ChannelPosition::RearLeft
            && spec_channel_map(c)[3] == ChannelPosition::RearRight,
        c == 5 ==> spec_channel_map(c)[3] == ChannelPosition::RearLeft
            && spec_channel_map(c)[4] == ChannelPosition::RearRight,
        (c == 7 || c == 8) ==> spec_channel_map(6).is_prefix_of(spec_channel_map(c)),
        (c == 10 || c == 12) ==> spec_channel_map(8).is_prefix_of(spec_channel_map(c)),
{
    assert(spec_layout_7_1().len() == 8);
    assert(spec_channel_map(6).is_prefix_of(spec_channel_map(7)));
    assert(spec_channel_map(6).is_prefix_of(spec_channel_map(8)));
    assert(spec_channel_map(8).is_prefix_of(spec_channel_map(10)));
    assert(spec_channel_map(8).is_prefix_of(spec_channel_map(12)));
}

/// No speaker position appears twice in a stream's channel map.
pub proof fn lemma_channel_map_distinct(c: u16, i: int, j: int)
    requires
        0 <= i < j < spec_channel_map(c).len(),
    ensures
        spec_channel_map(c)[i] != spec_channel_map(c)[j],
{
    assert(spec_layout_7_1().len() == 8);
}

/// The sample spec a stream of `config` in encoding `format` is opened with; the channel
/// count is cut to the protocol's byte.
pub fn make_sample_spec(config: StreamConfig, format: PulseSampleFormat) -> (s: PulseSampleSpec)
    ensures
        s == (PulseSampleSpec {
            format,
            sample_rate: config.sample_rate,
            channels: config.channels as u8,
        }),
{
    PulseSampleSpec { format, sample_rate: config.sample_rate, channels: config.channels as u8 }
}

/// The server-side buffer settings of a stream, all in bytes; `u32::MAX` lets the server
/// choose.
#[derive(Clone, Copy, Debug, PartialEq, Eq, Structural)]
pub struct BufferAttr {
    pub max_length: u32,
    pub target_length: u32,
    pub pre_buffering: u32,
    pub minimum_request_length: u32,
    pub fragment_size: u32,
}

/// Buffer settings that leave every choice to the server.
pub open spec fn spec_server_chosen() -> BufferAttr {
    BufferAttr {
        max_length: u32::MAX,
        target_length: u32::MAX,
        pre_buffering: u32::MAX,
        minimum_request_length: u32::MAX,
        fragment_size: u32::MAX,
    }
}

/// Buffer settings that leave every choice to the server.
pub fn server_chosen() -> (a: BufferAttr)
    ensures
        a == spec_server_chosen(),
{
    BufferAttr {
        max_length: u32::MAX,
        target_length: u32::MAX,
        pre_buffering: u32::MAX,
        minimum_request_length: u32::MAX,
        fragment_size: u32::MAX,
    }
}

/// Bytes in one period of `frames` frames of `channels` channels in `format`.
pub open spec fn spec_period_bytes(frames: u32, channels: u16, format: PulseSampleFormat) -> int {
    frames * channels * format.spec_bytes_per_sample()
}

fn period_bytes(frames: u32, channels: u16, format: PulseSampleFormat) -> (len: u32)
    requires
        frames * channels <= u32::MAX,
        spec_period_bytes(frames, channels, format) <= u32::MAX,
    ensures
        len == spec_period_bytes(frames, channels, format),
{
    let bps = format.bytes_per_sample() as u32;
    frames * channels as u32 * bps
}

/// The buffer settings of a playback stream: the server's choice for the default buffer
/// size; for a fixed size of one period, two periods in all and in the target, and one
/// period as the smallest request, so the server asks for exactly one period per callback.
pub fn make_playback_buffer_attr(config: StreamConfig, format: PulseSampleFormat) -> (a: BufferAttr)
    requires
        config.buffer_size matches BufferSize::Fixed(n) ==> n * config.channels <= u32::MAX && 2
            * spec_period_bytes(n, config.channels, format) <= u32::MAX,
    ensures
        config.buffer_size is Default ==> a == spec_server_chosen(),
        config.buffer_size matches BufferSize::Fixed(n) ==> a == (BufferAttr {
            max_length: (2 * spec_period_bytes(n, config.channels, format)) as u32,
            target_length: (2 * spec_period_bytes(n, config.channels, format)) as u32,
            minimum_request_length: spec_period_bytes(n, config.channels, format) as u32,
            ..spec_server_chosen()
        }),
{
    match config.buffer_size {
        BufferSize::Default => server_chosen(),
        BufferSize::Fixed(frame_count) => {
            let len = period_bytes(frame_count, config.channels, format);
            BufferAttr {
                max_length: 2 * len,
                target_length: 2 * len,
                minimum_request_length: len,
                ..server_chosen()
            }
        },
    }
}

/// The buffer settings of a record stream: the server's choice for the default buffer
/// size; for a fixed size, one period as both the most the server holds and the chunk it
/// delivers.
pub fn make_record_buffer_attr(config: StreamConfig, format: PulseSampleFormat) -> (a: BufferAttr)
    requires
        config.buffer_size matches BufferSize::Fixed(n) ==> n * config.channels <= u32::MAX
            && spec_period_bytes(n, config.channels, format) <= u32::MAX,
    ensures
        config.buffer_size is Default ==> a == spec_server_chosen(),
        config.buffer_size matches BufferSize::Fixed(n) ==> a == (BufferAttr {
            max_length: spec_period_bytes(n, config.channels, format) as u32,
            fragment_size: spec_period_bytes(n, config.channels, format) as u32,
            ..spec_server_chosen()
        }),
{
    match config.buffer_size {
        BufferSize::Default => server_chosen(),
        BufferSize::Fixed(frame_count) => {
            let len = period_bytes(frame_count, config.channels, format);
            BufferAttr { max_length: len, fragment_size: len, ..server_chosen() }
        },
    }
}

/// What the server reports of a sink or source.
#[derive(Clone, Debug)]
pub struct DeviceInfo {
    pub index: u32,
    pub name: String,
    pub description: Option<String>,
    pub sample_spec: PulseSampleSpec,
    /// Channels in the device's channel map.
    pub channel_count: u8,
}

/// A sink plays audio; a source captures it.
#[derive(Clone, Debug)]
pub enum Device {
    Sink { info: DeviceInfo },
    Source { info: DeviceInfo },
}

/// Everything a stream is created with: its sample spec, channel map and buffer settings,
/// that it starts corked, and whether the server should tune the device's latency to the
/// requested buffer size.
#[derive(Clone, Debug)]
pub struct StreamPlan {
    pub sample_spec: PulseSampleSpec,
    pub channel_map: Vec<ChannelPosition>,
    pub buffer_attr: BufferAttr,
    pub start_corked: bool,
    pub adjust_latency: bool,
}

/// Whether the buffer settings of a stream of `config` in `format` can be computed: the
/// period's byte count, twice it for playback, must fit in 32 bits.
pub open spec fn spec_buffer_fits(config: StreamConfig, format: PulseSampleFormat, playback: bool) -> bool {
    config.buffer_size matches BufferSize::Fixed(n) ==> n * config.channels <= u32::MAX && (if playback {
        2 * spec_period_bytes(n, config.channels, format)
    } else {
        spec_period_bytes(n, config.channels, format)
    }) <= u32::MAX
}

/// The plan a stream of `config` carrying `format` samples in `encoding` is created with.
pub open spec fn spec_plan_matches(
    plan: StreamPlan,
    config: StreamConfig,
    encoding: PulseSampleFormat,
    playback: bool,
) -> bool {
    &&& plan.sample_spec == (PulseSampleSpec {
        format: encoding,
        sample_rate: config.sample_rate,
        channels: config.channels as u8,
    })
    &&& plan.channel_map@ == spec_channel_map(config.channels)
    &&& plan.start_corked
    &&& plan.adjust_latency == (config.buffer_size is Fixed)
    &&& (config.buffer_size is Default ==> plan.buffer_attr == spec_server_chosen())
    &&& (config.buffer_size matches BufferSize::Fixed(n) ==> plan.buffer_attr == if playback {
        BufferAttr {
            max_length: (2 * spec_period_bytes(n, config.channels, encoding)) as u32,
            target_length: (2 * spec_period_bytes(n, config.channels, encoding)) as u32,
            minimum_request_length: spec_period_bytes(n, config.channels, encoding) as u32,
            ..spec_server_chosen()
        }
    } else {
        BufferAttr {
            max_length: spec_period_bytes(n, config.channels, encoding) as u32,
            fragment_size: spec_period_bytes(n, config.channels, encoding) as u32,
            ..spec_server_chosen()
        }
    })
}

fn plan_stream(config: StreamConfig, encoding: PulseSampleFormat, playback: bool) -> (plan: StreamPlan)
    requires
        spec_buffer_fits(config, encoding, playback),
    ensures
        spec_plan_matches(plan, config, encoding, playback),
{
    let buffer_attr = if playback {
        make_playback_buffer_attr(config, encoding)
    } else {
        make_record_buffer_attr(config, encoding)
    };
    StreamPlan {
        sample_spec: make_sample_spec(config, encoding),
        channel_map: make_channel_map(config),
        buffer_attr,
        start_corked: true,
        adjust_latency: matches!(config.buffer_size, BufferSize::Fixed(_)),
    }
}

impl Device {
    pub open spec fn spec_info(&self) -> DeviceInfo {
        match self {
            Device::Sink { info } => *info,
            Device::Source { info } => *info,
        }
    }

    /// The server's name of the device.
    pub fn name(&self) -> (s: String)
        ensures
            s@ == self.spec_info().name@,
    {
        match self {
            Device::Sink { info } => info.name.clone(),
            Device::Source { info } => info.name.clone(),
        }
    }

    /// The device's identifier: its server index in decimal.
    pub fn id(&self) -> (s: String)
        ensures
            all_digits(s@),
            s@.len() > 0,
            digits_value(s@) == self.spec_info().index,
            s@.len() > 1 ==> s@[0] != '0',
    {
        let index = match self {
            Device::Sink { info } => info.index,
            Device::Source { info } => info.index,
        };
        decimal_text(index)
    }

    /// Output for a sink, input for a source.
    pub fn direction(&self) -> (d: DeviceDirection)
        ensures
            d == (if self is Sink { DeviceDirection::Output } else { DeviceDirection::Input }),
    {
        match self {
            Device::Sink { .. } => DeviceDirection::Output,
            Device::Source { .. } => DeviceDirection::Input,
        }
    }

    /// Every range a source captures with; none for a sink.
    pub fn supported_input_configs(&self) -> (v: Vec<SupportedStreamConfigRange>)
        ensures
            self is Sink ==> v@.len() == 0,
            self is Source ==> v@.len() == 5 * spec_channel_counts() && forall|k: int|
                0 <= k < v@.len() ==> #[trigger] v@[k] == spec_pulse_range(k),
    {
        match self {
            Device::Source { .. } => supported_config_ranges(),
            Device::Sink { .. } => Vec::new(),
        }
    }

    /// Every range a sink plays with; none for a source.
    pub fn supported_output_configs(&self) -> (v: Vec<SupportedStreamConfigRange>)
        ensures
            self is Source ==> v@.len() == 0,
            self is Sink ==> v@.len() == 5 * spec_channel_counts() && forall|k: int|
                0 <= k < v@.len() ==> #[trigger] v@[k] == spec_pulse_range(k),
    {
        match self {
            Device::Sink { .. } => supported_config_ranges(),
            Device::Source { .. } => Vec::new(),
        }
    }

    /// A source's default configuration, as [`default_config_from_spec`] gives it; for a
    /// sink, an unsupported-stream-type error.
    pub fn default_input_config(&self) -> (r: Result<SupportedStreamConfig, DefaultStreamConfigError>)
        requires
            self is Source && spec_sample_format_from_pulse(self.spec_info().sample_spec.format)
                is Some ==> self.spec_info().channel_count > 0,
        ensures
            self is Sink ==> (r matches Err(DefaultStreamConfigError::StreamTypeNotSupported)),
            self is Source ==> r == default_config_spec(self.spec_info()),
    {
        match self {
            Device::Source { info } => default_config_from_spec(&info.sample_spec, info.channel_count),
            Device::Sink { .. } => Err(DefaultStreamConfigError::StreamTypeNotSupported),
        }
    }

    /// A sink's default configuration, as [`default_config_from_spec`] gives it; for a
    /// source, an unsupported-stream-type error.
    pub fn default_output_config(&self) -> (r: Result<SupportedStreamConfig, DefaultStreamConfigError>)
        requires
            self is Sink && spec_sample_format_from_pulse(self.spec_info().sample_spec.format)
                is Some ==> self.spec_info().channel_count > 0,
        ensures
            self is Source ==> (r matches Err(DefaultStreamConfigError::StreamTypeNotSupported)),
            self is Sink ==> r == default_config_spec(self.spec_info()),
    {
        match self {
            Device::Sink { info } => default_config_from_spec(&info.sample_spec, info.channel_count),
            Device::Source { .. } => Err(DefaultStreamConfigError::StreamTypeNotSupported),
        }
    }

    /// The plan of a capture stream of `config` carrying `sample_format` samples, on a
    /// machine that is little-endian when `little_endian` holds: only a source captures,
    /// and only in a format the protocol carries.
    pub fn plan_input_stream(
        &self,
        config: StreamConfig,
        sample_format: SampleFormat,
        little_endian: bool,
    ) -> (r: Result<StreamPlan, BuildStreamError>)
        requires
            spec_pulse_format_for(sample_format, little_endian) matches Some(e) ==> spec_buffer_fits(
                config,
                e,
                false,
            ),
        ensures
            (self is Sink || spec_pulse_format_for(sample_format, little_endian) is None) ==> (r matches Err(
                BuildStreamError::StreamConfigNotSupported,
            )),
            self is Source ==> (spec_pulse_format_for(sample_format, little_endian) matches Some(e) ==> (r matches Ok(p)
                && spec_plan_matches(p, config, e, false))),
    {
        if let Device::Sink { .. } = self {
            return Err(BuildStreamError::StreamConfigNotSupported);
        }
        match pulse_format_for(sample_format, little_endian) {
            Some(encoding) => Ok(plan_stream(config, encoding, false)),
            None => Err(BuildStreamError::StreamConfigNotSupported),
        }
    }

    /// The plan of a playback stream of `config` carrying `sample_format` samples, on a
    /// machine that is little-endian when `little_endian` holds: only a sink plays, and
    /// only in a format the protocol carries.
    pub fn plan_output_stream(
        &self,
        config: StreamConfig,
        sample_format: SampleFormat,
        little_endian: bool,
    ) -> (r: Result<StreamPlan, BuildStreamError>)
        requires
            spec_pulse_format_for(sample_format, little_endian) matches Some(e) ==> spec_buffer_fits(
                config,
                e,
                true,
            ),
        ensures
            (self is Source || spec_pulse_format_for(sample_format, little_endian) is None) ==> (r matches Err(
                BuildStreamError::StreamConfigNotSupported,
            )),
            self is Sink ==> (spec_pulse_format_for(sample_format, little_endian) matches Some(e) ==> (r matches Ok(p)
                && spec_plan_matches(p, config, e, true))),
    {
        if let Device::Source { .. } = self {
            return Err(BuildStreamError::StreamConfigNotSupported);
        }
        match pulse_format_for(sample_format, little_endian) {
            Some(encoding) => Ok(plan_stream(config, encoding, true)),
            None => Err(BuildStreamError::StreamConfigNotSupported),
        }
    }
}

/// The default configuration of a device described by `info`.
pub open spec fn default_config_spec(info: DeviceInfo) -> Result<SupportedStreamConfig, DefaultStreamConfigError> {
    match spec_sample_format_from_pulse(info.sample_spec.format) {
        Some(f) => Ok(
            SupportedStreamConfig {
                channels: info.channel_count as u16,
                sample_rate: info.sample_spec.sample_rate,
                buffer_size: SupportedBufferSize::Range {
                    min: 0,
                    max: spec_max_frames((info.channel_count * f.spec_sample_size()) as nat) as u32,
                },
                sample_format: f,
            },
        ),
        None => Err(DefaultStreamConfigError::StreamTypeNotSupported),
    }
}

/// The byte a playback buffer is cleared to before the callback fills it: the unsigned
/// midpoint for `U8`, zero for every other format.
pub fn silence_byte(format: SampleFormat) -> (b: u8)
    ensures
        b == (if format == SampleFormat::U8 { 0x80u8 } else { 0u8 }),
{
    if format == SampleFormat::U8 {
        0x80
    } else {
        0
    }
}

/// How many whole samples of `encoding` a buffer of `len` bytes holds.
pub fn samples_in_buffer(len: usize, encoding: PulseSampleFormat) -> (n: usize)
    requires
        encoding.spec_bytes_per_sample() > 0,
    ensures
        n == (len as nat) / encoding.spec_bytes_per_sample(),
{
    len / encoding.bytes_per_sample()
}

/// What the playback write callback does with a buffer the server asks it to fill.
#[derive(Clone, Copy, Debug, PartialEq, Eq, Structural)]
pub struct WritePlan {
    /// The byte the whole buffer is first cleared to.
    pub fill: u8,
    /// The number of samples handed to the user's callback, or `None` while the stream
    /// drains and the callback is skipped.
    pub callback_samples: Option<usize>,
    /// The number of bytes reported as written: always the whole buffer, never zero for a
    /// non-empty one, which the server would take as the end of the stream.
    pub written: usize,
}

/// The plan for a playback buffer of `len` bytes in `format`, carried as `encoding`: clear it
/// to silence, then, unless the stream is `draining`, let the user's callback fill its whole
/// samples; the whole buffer counts as written either way.
pub fn playback_write_plan(draining: bool, len: usize, format: SampleFormat, encoding: PulseSampleFormat) -> (p: WritePlan)
    requires
        encoding.spec_bytes_per_sample() > 0,
    ensures
        p.fill == (if format == SampleFormat::U8 { 0x80u8 } else { 0u8 }),
        p.callback_samples == (if draining { None } else { Some(((len as nat) / encoding.spec_bytes_per_sample()) as usize) }),
        p.written == len,
{
    let fill = silence_byte(format);
    let callback_samples = if draining { None } else { Some(samples_in_buffer(len, encoding)) };
    WritePlan { fill, callback_samples, written: len }
}

/// The longest span, in microseconds, over which latency is interpolated after a poll.
pub const LATENCY_MAX_INTERVAL_MICROS: u64 = 100_000;

/// Microseconds from the last poll at `poll_usec` to `elapsed_usec`, capped at
/// [`LATENCY_MAX_INTERVAL_MICROS`]; zero when the poll is later.
pub open spec fn spec_since_poll(elapsed_usec: u64, poll_usec: u64) -> nat {
    let d: nat = if elapsed_usec >= poll_usec { (elapsed_usec - poll_usec) as nat } else { 0 };
    if d <= 100_000 { d } else { 100_000 }
}

/// Playback latency at `elapsed_usec`: the latency measured at the last poll, less the
/// audio played since, never below zero.
pub open spec fn spec_playback_latency(stored: u64, poll_usec: u64, elapsed_usec: u64) -> nat {
    let since = spec_since_poll(elapsed_usec, poll_usec);
    if stored >= since { (stored - since) as nat } else { 0 }
}

/// Capture latency at `elapsed_usec`: the latency measured at the last poll, plus the audio
/// recorded since, saturating at `u64::MAX`.
pub open spec fn spec_record_latency(stored: u64, poll_usec: u64, elapsed_usec: u64) -> nat {
    let l = stored + spec_since_poll(elapsed_usec, poll_usec);
    if l <= u64::MAX { l as nat } else { u64::MAX as nat }
}

fn since_poll(elapsed_usec: u64, poll_usec: u64) -> (d: u64)
    ensures
        d == spec_since_poll(elapsed_usec, poll_usec),
{
    let d = elapsed_usec.saturating_sub(poll_usec);
    if d <= LATENCY_MAX_INTERVAL_MICROS {
        d
    } else {
        LATENCY_MAX_INTERVAL_MICROS
    }
}

/// The playback latency, in microseconds, interpolated from the one measured at the last
/// poll: the device drains the buffer at a constant rate between polls.
pub fn playback_latency(stored: u64, poll_usec: u64, elapsed_usec: u64) -> (l: u64)
    ensures
        l == spec_playback_latency(stored, poll_usec, elapsed_usec),
{
    stored.saturating_sub(since_poll(elapsed_usec, poll_usec))
}

/// The capture latency, in microseconds, interpolated from the one measured at the last
/// poll: the device fills the buffer at a constant rate between polls.
pub fn record_latency(stored: u64, poll_usec: u64, elapsed_usec: u64) -> (l: u64)
    ensures
        l == spec_record_latency(stored, poll_usec, elapsed_usec),
{
    stored.saturating_add(since_poll(elapsed_usec, poll_usec))
}

/// Between two polls the interpolated playback latency never grows and the capture
/// latency never shrinks, and neither moves past the latency last measured.
pub proof fn lemma_latency_interpolation(stored: u64, poll_usec: u64, e1: u64, e2: u64)
    requires
        e1 <= e2,
    ensures
        spec_playback_latency(stored, poll_usec, e2) <= spec_playback_latency(stored, poll_usec, e1),
        spec_playback_latency(stored, poll_usec, e1) <= stored,
        spec_record_latency(stored, poll_usec, e1) <= spec_record_latency(stored, poll_usec, e2),
        stored <= spec_record_latency(stored, poll_usec, e1),
{
}

/// Whole microseconds of `d`, cut to 64 bits.
pub open spec fn spec_micros(d: Duration) -> u64 {
    (d@ / 1000) as u64
}

fn micros_of(d: Duration) -> (m: u64)
    ensures
        m == spec_micros(d),
{
    (d.as_nanos() / 1000) as u64
}

fn instant_from_nanos(n: u128) -> (i: StreamInstant)
    requires
        n <= MAX_NANOS,
    ensures
        i@ == n,
{
    let secs = (n / NANOS_PER_SEC) as u64;
    let sub = (n % NANOS_PER_SEC) as u32;
    proof {
        vstd::arithmetic::div_mod::lemma_fundamental_div_mod(n as int, NANOS_PER_SEC as int);
    }
    StreamInstant::new(secs, sub)
}

/// The timestamp of a playback callback `elapsed` after the stream was created: the
/// callback now, and the device playing the buffer after the interpolated playback latency.
pub fn playback_timestamp(elapsed: Duration, stored: u64, poll_usec: u64) -> (t: StreamTimestamp)
    requires
        elapsed@ + spec_playback_latency(stored, poll_usec, spec_micros(elapsed)) * 1000 <= MAX_NANOS,
    ensures
        t.callback@ == elapsed@,
        t.device@ == elapsed@ + spec_playback_latency(stored, poll_usec, spec_micros(elapsed)) * 1000,
{
    let latency = playback_latency(stored, poll_usec, micros_of(elapsed));
    let e = elapsed.as_nanos();
    let played = e + latency as u128 * 1000;
    StreamTimestamp { callback: instant_from_nanos(e), device: instant_from_nanos(played) }
}

/// The timestamp of a capture callback `elapsed` after the stream was created: the
/// callback now, and the device having captured the buffer the interpolated capture
/// latency earlier, or at creation if that is earlier still.
pub fn capture_timestamp(elapsed: Duration, stored: u64, poll_usec: u64) -> (t: StreamTimestamp)
    ensures
        t.callback@ == elapsed@,
        t.device@ == (if elapsed@ >= spec_record_latency(stored, poll_usec, spec_micros(elapsed))
            * 1000 {
            elapsed@ - spec_record_latency(stored, poll_usec, spec_micros(elapsed)) * 1000
        } else {
            0
        }),
{
    let latency = record_latency(stored, poll_usec, micros_of(elapsed));
    let e = elapsed.as_nanos();
    let back = latency as u128 * 1000;
    let captured = if e >= back {
        e - back
    } else {
        0
    };
    StreamTimestamp { callback: instant_from_nanos(e), device: instant_from_nanos(captured) }
}

/// Microseconds of audio in `len` bytes of a stream of `spec`, counted as the protocol
/// does: whole frames, cut to 32 bits, split into whole seconds and a remainder whose
/// nanoseconds round down.
pub open spec fn spec_buffered_micros(spec: PulseSampleSpec, len: usize) -> nat {
    let frames = (((len as nat) / spec.format.spec_bytes_per_sample()) / (spec.channels as nat)) as u32;
    let secs: nat = (frames as nat) / (spec.sample_rate as nat);
    let rem: nat = (frames as nat) % (spec.sample_rate as nat);
    let nanos: nat = (rem * 1_000_000_000) / (spec.sample_rate as nat);
    secs * 1_000_000 + nanos / 1000
}

/// Whether `spec` describes audio: a known encoding, at least one channel, a positive rate.
pub open spec fn spec_is_audio(spec: PulseSampleSpec) -> bool {
    spec.format.spec_bytes_per_sample() > 0 && spec.channels > 0 && spec.sample_rate > 0
}

fn buffered_micros(spec: PulseSampleSpec, len: usize) -> (m: u64)
    requires
        spec_is_audio(spec),
    ensures
        m == spec_buffered_micros(spec, len),
{
    let frames = ((len / spec.format.bytes_per_sample()) / spec.channels as usize) as u32;
    let secs = frames / spec.sample_rate;
    let rem = frames % spec.sample_rate;
    assert(rem as u64 * 1_000_000_000 <= u64::MAX) by (nonlinear_arith)
        requires
            rem < spec.sample_rate,
    ;
    let nanos = rem as u64 * 1_000_000_000 / spec.sample_rate as u64;
    assert(nanos < 1_000_000_000) by (nonlinear_arith)
        requires
            nanos == (rem as u64 * 1_000_000_000) as u64 / (spec.sample_rate as u64),
            rem < spec.sample_rate,
    ;
    secs as u64 * 1_000_000 + nanos / 1000
}

/// The latency, in microseconds, that a timing report gives: the device's own latency plus
/// the audio queued between the write and read offsets (none when the reader is ahead),
/// saturating at `u64::MAX`.
pub open spec fn spec_reported_latency(
    spec: PulseSampleSpec,
    device_latency_usec: u64,
    write_offset: i64,
    read_offset: i64,
) -> nat {
    let queued: u64 = if write_offset - read_offset > 0 {
        (write_offset - read_offset) as u64
    } else {
        0
    };
    let l = device_latency_usec + spec_buffered_micros(spec, queued as usize);
    if l <= u64::MAX { l as nat } else { u64::MAX as nat }
}

/// The latency a timing report of a stream of `spec` gives, as stored for the callbacks
/// to interpolate from.
pub fn reported_latency(
    spec: PulseSampleSpec,
    device_latency_usec: u64,
    write_offset: i64,
    read_offset: i64,
) -> (l: u64)
    requires
        spec_is_audio(spec),
        i64::MIN <= write_offset - read_offset <= i64::MAX,
    ensures
        l == spec_reported_latency(spec, device_latency_usec, write_offset, read_offset),
{
    let diff = write_offset - read_offset;
    let queued: u64 = if diff > 0 {
        diff as u64
    } else {
        0
    };
    device_latency_usec.saturating_add(buffered_micros(spec, queued as usize))
}

/// Frames per callback of a stream of `spec` whose server settings are `attr`: the
/// smallest request of a playback stream, the fragment of a record stream, in whole frames.
pub fn stream_buffer_frames(spec: PulseSampleSpec, attr: BufferAttr, playback: bool) -> (n: u32)
    requires
        spec.format.spec_bytes_per_sample() > 0,
        spec.channels > 0,
    ensures
        n == ((if playback { attr.minimum_request_length } else { attr.fragment_size }) as nat) / (
        (spec.channels as nat) * spec.format.spec_bytes_per_sample()),
{
    let bytes = if playback {
        attr.minimum_request_length
    } else {
        attr.fragment_size
    };
    let bps = spec.format.bytes_per_sample();
    assert(1 <= spec.channels as usize * bps <= 1020) by (nonlinear_arith)
        requires
            1 <= bps <= 4,
            1 <= spec.channels <= 255,
    ;
    let frame_size = spec.channels as usize * bps;
    let frames = bytes as usize / frame_size;
    assert(frames <= bytes) by (nonlinear_arith)
        requires
            frames == bytes as usize / frame_size,
            frame_size >= 1,
    ;
    frames as u32
}

/// How long stopping a playback stream waits for queued audio to play out: nothing when
/// the timeout is zero; otherwise the `fill_usec` microseconds queued, cut to the timeout
/// when there is one; `None` when that wait is zero.
pub fn drain_wait(timeout: Option<Duration>, fill_usec: u64) -> (w: Option<Duration>)
    ensures
        (timeout matches Some(t) && t@ == 0) ==> w is None,
        !(timeout matches Some(t) && t@ == 0) ==> {
            let buffered: nat = (fill_usec * 1000) as nat;
            let wait = match timeout {
                Some(t) => if t@ < buffered { t@ } else { buffered },
                None => buffered,
            };
            &&& (wait == 0 ==> w is None)
            &&& (wait > 0 ==> (w matches Some(d) && d@ == wait))
        },
{
    if let Some(t) = timeout {
        if t.as_nanos() == 0 {
            return None;
        }
    }
    let buffered = Duration::from_micros(fill_usec);
    let wait = match timeout {
        Some(t) => if t.as_nanos() < buffered.as_nanos() {
            t
        } else {
            buffered
        },
        None => buffered,
    };
    if wait.as_nanos() == 0 {
        None
    } else {
        Some(wait)
    }
}

} // verus!
