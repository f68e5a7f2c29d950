//! The WebAudio backend's decisions: the configurations it offers, which stream requests
//! it accepts, the buffer a stream runs with, and how captured channels are interleaved.
use vstd::prelude::*;
use crate::format::{
    BufferSize, BuildStreamError, ChannelCount, SampleFormat, SampleRate, StreamConfig,
    SupportedBufferSize, SupportedStreamConfigRange,
};

verus! {

pub const MIN_CHANNELS: ChannelCount = 1;

pub const MAX_CHANNELS: ChannelCount = 32;

pub const MIN_SAMPLE_RATE: SampleRate = 8_000;

pub const MAX_SAMPLE_RATE: SampleRate = 96_000;

pub const DEFAULT_SAMPLE_RATE: SampleRate = 44_100;

pub const MIN_BUFFER_SIZE: u32 = 1;

pub const MAX_BUFFER_SIZE: u32 = 0xffff_ffff;

/// Frames per buffer when the stream asks for the default size.
pub const DEFAULT_BUFFER_SIZE: usize = 2048;

/// The one sample format WebAudio buffers hold.
pub open spec fn spec_supported_sample_format() -> SampleFormat {
    SampleFormat::F32
}

/// The range offered for `channels` channels.
pub open spec fn spec_range(channels: u16) -> SupportedStreamConfigRange {
    SupportedStreamConfigRange {
        channels,
        min_sample_rate: MIN_SAMPLE_RATE,
        max_sample_rate: MAX_SAMPLE_RATE,
        buffer_size: SupportedBufferSize::Range { min: MIN_BUFFER_SIZE, max: MAX_BUFFER_SIZE },
        sample_format: spec_supported_sample_format(),
    }
}

/// The configuration ranges offered for input and output alike: one per channel count
/// from [`MIN_CHANNELS`] to [`MAX_CHANNELS`].
pub fn supported_configs() -> (v: Vec<SupportedStreamConfigRange>)
    ensures
        v@.len() == MAX_CHANNELS - MIN_CHANNELS + 1,
        forall|k: int| 0 <= k < v@.len() ==> #[trigger] v@[k] == spec_range((k + MIN_CHANNELS) as u16),
{
    let mut configs: Vec<SupportedStreamConfigRange> = Vec::new();
    let mut channels: u16 = MIN_CHANNELS;
    while channels <= MAX_CHANNELS
        invariant
            MIN_CHANNELS <= channels <= MAX_CHANNELS + 1,
            configs@.len() == channels - MIN_CHANNELS,
            forall|k: int| 0 <= k < configs@.len() ==> #[trigger] configs@[k] == spec_range((k + MIN_CHANNELS) as u16),
        decreases MAX_CHANNELS + 1 - channels,
    {
        configs.push(
            SupportedStreamConfigRange {
                channels,
                min_sample_rate: MIN_SAMPLE_RATE,
                max_sample_rate: MAX_SAMPLE_RATE,
                buffer_size: SupportedBufferSize::Range { min: MIN_BUFFER_SIZE, max: MAX_BUFFER_SIZE },
                sample_format: SampleFormat::F32,
            },
        );
        channels = channels + 1;
    }
    configs
}

/// Whether a playback stream of `conf` carrying `sample_format` samples can be built:
/// the channel count and rate lie in the offered ranges and the format is the one
/// WebAudio holds.
pub open spec fn spec_valid_config(conf: StreamConfig, sample_format: SampleFormat) -> bool {
    &&& MIN_CHANNELS <= conf.channels <= MAX_CHANNELS
    &&& MIN_SAMPLE_RATE <= conf.sample_rate <= MAX_SAMPLE_RATE
    &&& sample_format == spec_supported_sample_format()
}

/// Whether a playback stream of `conf` carrying `sample_format` samples can be built.
pub fn valid_config(conf: &StreamConfig, sample_format: SampleFormat) -> (b: bool)
    ensures
        b == spec_valid_config(*conf, sample_format),
{
    conf.channels <= MAX_CHANNELS && conf.channels >= MIN_CHANNELS && conf.sample_rate
        <= MAX_SAMPLE_RATE && conf.sample_rate >= MIN_SAMPLE_RATE && sample_format
        == SampleFormat::F32
}

/// Frames per buffer of a stream asking for `buffer_size`: the fixed size when it lies in
/// the offered range, the default size for the default; an unsupported-configuration
/// error for a fixed size of zero.
pub fn buffer_size_frames(buffer_size: BufferSize) -> (r: Result<usize, BuildStreamError>)
    ensures
        buffer_size is Default ==> r == Ok::<usize, BuildStreamError>(DEFAULT_BUFFER_SIZE),
        buffer_size matches BufferSize::Fixed(v) ==> (if MIN_BUFFER_SIZE <= v <= MAX_BUFFER_SIZE {
            r == Ok::<usize, BuildStreamError>(v as usize)
        } else {
            r matches Err(BuildStreamError::StreamConfigNotSupported)
        }),
{
    match buffer_size {
        BufferSize::Fixed(v) => {
            if !(MIN_BUFFER_SIZE <= v && v <= MAX_BUFFER_SIZE) {
                return Err(BuildStreamError::StreamConfigNotSupported);
            }
            Ok(v as usize)
        },
        BufferSize::Default => Ok(DEFAULT_BUFFER_SIZE),
    }
}

/// Frames per buffer of a playback stream of `config` carrying `sample_format` samples,
/// or an unsupported-configuration error when the configuration is not valid or its
/// buffer size is not in range.
pub fn plan_output_stream(config: &StreamConfig, sample_format: SampleFormat) -> (r: Result<
    usize,
    BuildStreamError,
>)
    ensures
        !spec_valid_config(*config, sample_format) ==> (r matches Err(
            BuildStreamError::StreamConfigNotSupported,
        )),
        spec_valid_config(*config, sample_format) ==> (match config.buffer_size {
            BufferSize::Default => r == Ok::<usize, BuildStreamError>(DEFAULT_BUFFER_SIZE),
            BufferSize::Fixed(v) => if v >= MIN_BUFFER_SIZE {
                r == Ok::<usize, BuildStreamError>(v as usize)
            } else {
                r matches Err(BuildStreamError::StreamConfigNotSupported)
            },
        }),
{
    if !valid_config(config, sample_format) {
        return Err(BuildStreamError::StreamConfigNotSupported);
    }
    buffer_size_frames(config.buffer_size)
}

/// The buffer of a capture stream of `config` carrying `sample_format` samples: its frames
/// per buffer and the samples that holds across all channels; an unsupported-configuration
/// error for any format but the one WebAudio holds, or a buffer size out of range.
pub fn plan_input_stream(config: &StreamConfig, sample_format: SampleFormat) -> (r: Result<
    (usize, usize),
    BuildStreamError,
>)
    requires
        (match config.buffer_size {
            BufferSize::Fixed(v) => v as int,
            BufferSize::Default => DEFAULT_BUFFER_SIZE as int,
        }) * config.channels <= usize::MAX,
    ensures
        sample_format != spec_supported_sample_format() ==> (r matches Err(
            BuildStreamError::StreamConfigNotSupported,
        )),
        sample_format == spec_supported_sample_format() ==> (match config.buffer_size {
            BufferSize::Default => r == Ok::<(usize, usize), BuildStreamError>(
                (DEFAULT_BUFFER_SIZE, (DEFAULT_BUFFER_SIZE * config.channels) as usize),
            ),
            BufferSize::Fixed(v) => if v >= MIN_BUFFER_SIZE {
                r == Ok::<(usize, usize), BuildStreamError>((v as usize, (v * config.channels) as usize))
            } else {
                r matches Err(BuildStreamError::StreamConfigNotSupported)
            },
        }),
{
    if sample_format != SampleFormat::F32 {
        return Err(BuildStreamError::StreamConfigNotSupported);
    }
    let frames = match buffer_size_frames(config.buffer_size) {
        Ok(f) => f,
        Err(e) => {
            return Err(e);
        },
    };
    Ok((frames, frames * config.channels as usize))
}

/// Milliseconds until the next playback buffer is due: the duration of one buffer of
/// `frames` frames at `rate`, rounded down.
pub fn next_buffer_delay_ms(frames: u32, rate: u32) -> (ms: i32)
    requires
        1000 * frames <= i32::MAX,
        0 < rate <= i32::MAX,
    ensures
        ms == (1000 * frames) / (rate as int),
{
    assert((1000 * frames) / (rate as int) <= 1000 * frames) by (nonlinear_arith)
        requires
            rate >= 1,
            1000 * frames >= 0,
    ;
    1000 * frames as i32 / rate as i32
}

/// Copies the samples WebAudio captured on `channel` into the interleaved buffer `buffer`
/// of `frames` frames of `n_channels` channels: sample `i` lands in slot
/// `i * n_channels + channel` for each `i` below both `frames` and the captured count;
/// every other slot is left as it was.
pub fn capture_channel<T: Copy>(
    buffer: &mut Vec<T>,
    channel_data: &Vec<T>,
    channel: usize,
    n_channels: usize,
    frames: usize,
)
    requires
        channel < n_channels,
        old(buffer)@.len() == frames * n_channels,
    ensures
        final(buffer)@.len() == old(buffer)@.len(),
        forall|i: int|
            0 <= i < frames && i < channel_data@.len() ==> #[trigger] final(buffer)@[i * n_channels
                + channel] == channel_data@[i],
        forall|k: int|
            0 <= k < final(buffer)@.len() && !(k % (n_channels as int) == channel && k / (
            n_channels as int) < channel_data@.len()) ==> #[trigger] final(buffer)@[k] == old(
            buffer,
        )@[k],
{
    let len = channel_data.len();
    let mut i: usize = 0;
    while i < len
        invariant
            len == channel_data@.len(),
            channel < n_channels,
            buffer@.len() == frames * n_channels,
            buffer@.len() == old(buffer)@.len(),
            i <= len,
            forall|j: int|
                0 <= j < i && j < frames ==> #[trigger] buffer@[j * n_channels + channel]
                    == channel_data@[j],
            forall|k: int|
                0 <= k < buffer@.len() && !(k % (n_channels as int) == channel && k / (
                n_channels as int) < i) ==> #[trigger] buffer@[k] == old(buffer)@[k],
        decreases len - i,
    {
        if i < frames {
            proof {
                slot_facts(i as int, channel as int, n_channels as int, frames as int);
            }
            let blen = buffer.len();
            assert(i * n_channels + channel < blen);
            let slot = i * n_channels + channel;
            buffer.set(slot, channel_data[i]);
            proof {
                assert forall|j: int| 0 <= j < i + 1 && j < frames implies #[trigger] buffer@[j
                    * n_channels + channel] == channel_data@[j] by {
                    if j < i {
                        slot_facts(j, channel as int, n_channels as int, frames as int);
                    }
                }
                assert forall|k: int|
                    0 <= k < buffer@.len() && !(k % (n_channels as int) == channel && k / (
                    n_channels as int) < i + 1) implies #[trigger] buffer@[k] == old(buffer)@[k] by {
                    if k == slot {
                        assert(k % (n_channels as int) == channel && k / (n_channels as int) == i);
                    }
                }
            }
        } else {
            proof {
                assert forall|k: int|
                    0 <= k < buffer@.len() && !(k % (n_channels as int) == channel && k / (
                    n_channels as int) < i + 1) implies #[trigger] buffer@[k] == old(buffer)@[k] by {
                    if k % (n_channels as int) == channel && k / (n_channels as int) == i {
                        bounded_row(k, n_channels as int, frames as int);
                    }
                }
            }
        }
        i = i + 1;
    }
}

proof fn slot_facts(i: int, c: int, n: int, frames: int)
    requires
        0 <= i < frames,
        0 <= c < n,
    ensures
        i * n + c < frames * n,
        (i * n + c) % n == c,
        (i * n + c) / n == i,
{
    assert(i * n + c < frames * n) by (nonlinear_arith)
        requires
            0 <= i < frames,
            0 <= c < n,
    ;
    vstd::arithmetic::div_mod::lemma_fundamental_div_mod_converse(i * n + c, n, i, c);
}

proof fn bounded_row(k: int, n: int, frames: int)
    requires
        0 <= k < frames * n,
        n > 0,
    ensures
        k / n < frames,
{
    assert(k / n < frames) by (nonlinear_arith)
        requires
            0 <= k < frames * n,
            n > 0,
    ;
}

} // verus!
