//! Sample formats, stream configurations and the error type shared by every backend.
use vstd::prelude::*;

verus! {

/// Frames per second.
pub type SampleRate = u32;

/// Number of frames.
pub type FrameCount = u32;

/// Number of interleaved channels.
pub type ChannelCount = u16;

/// How one sample is stored in memory.
#[derive(Clone, Copy, Debug, PartialEq, Eq, Structural, Hash)]
pub enum SampleFormat {
    I8,
    I16,
    /// Signed 24-bit samples held in a four-byte container.
    I24,
    I32,
    I64,
    U8,
    U16,
    /// Unsigned 24-bit samples held in a four-byte container.
    U24,
    U32,
    U64,
    F32,
    F64,
    /// One-bit DSD, packed eight samples per byte.
    DsdU8,
    DsdU16,
    DsdU32,
}

impl SampleFormat {
    /// Bytes that one sample occupies in a buffer.
    pub open spec fn spec_sample_size(self) -> nat {
        match self {
            SampleFormat::I8 | SampleFormat::U8 | SampleFormat::DsdU8 => 1,
            SampleFormat::I16 | SampleFormat::U16 | SampleFormat::DsdU16 => 2,
            SampleFormat::I24 | SampleFormat::U24 => 4,
            SampleFormat::I32 | SampleFormat::U32 | SampleFormat::F32 | SampleFormat::DsdU32 => 4,
            SampleFormat::I64 | SampleFormat::U64 | SampleFormat::F64 => 8,
        }
    }

    pub open spec fn spec_is_int(self) -> bool {
        self is I8 || self is I16 || self is I24 || self is I32 || self is I64
    }

    pub open spec fn spec_is_uint(self) -> bool {
        self is U8 || self is U16 || self is U24 || self is U32 || self is U64
    }

    pub open spec fn spec_is_float(self) -> bool {
        self is F32 || self is F64
    }

    pub open spec fn spec_is_dsd(self) -> bool {
        self is DsdU8 || self is DsdU16 || self is DsdU32
    }

    /// Bytes that one sample occupies in a buffer.
    pub fn sample_size(&self) -> (n: usize)
        ensures
            n == self.spec_sample_size(),
    {
        match self {
            SampleFormat::I8 | SampleFormat::U8 | SampleFormat::DsdU8 => 1,
            SampleFormat::I16 | SampleFormat::U16 | SampleFormat::DsdU16 => 2,
            SampleFormat::I24 | SampleFormat::U24 => 4,
            SampleFormat::I32 | SampleFormat::U32 | SampleFormat::F32 | SampleFormat::DsdU32 => 4,
            SampleFormat::I64 | SampleFormat::U64 | SampleFormat::F64 => 8,
        }
    }

    /// Bits of audio each sample carries (24 for the four-byte 24-bit formats).
    pub open spec fn spec_bits_per_sample(self) -> nat {
        match self {
            SampleFormat::I24 | SampleFormat::U24 => 24,
            _ => 8 * self.spec_sample_size(),
        }
    }

    pub fn bits_per_sample(&self) -> (n: u32)
        ensures
            n == self.spec_bits_per_sample(),
    {
        match self {
            SampleFormat::I24 | SampleFormat::U24 => 24,
            _ => 8 * self.sample_size() as u32,
        }
    }

    /// Whether samples are signed integers.
    pub fn is_int(&self) -> (b: bool)
        ensures
            b == self.spec_is_int(),
    {
        matches!(self, SampleFormat::I8 | SampleFormat::I16 | SampleFormat::I24 | SampleFormat::I32 | SampleFormat::I64)
    }

    /// Whether samples are unsigned integers.
    pub fn is_uint(&self) -> (b: bool)
        ensures
            b == self.spec_is_uint(),
    {
        matches!(self, SampleFormat::U8 | SampleFormat::U16 | SampleFormat::U24 | SampleFormat::U32 | SampleFormat::U64)
    }

    /// Whether samples are floating point.
    pub fn is_float(&self) -> (b: bool)
        ensures
            b == self.spec_is_float(),
    {
        matches!(self, SampleFormat::F32 | SampleFormat::F64)
    }

    /// Whether samples are one-bit DSD.
    pub fn is_dsd(&self) -> (b: bool)
        ensures
            b == self.spec_is_dsd(),
    {
        matches!(self, SampleFormat::DsdU8 | SampleFormat::DsdU16 | SampleFormat::DsdU32)
    }
}

/// The buffer size a stream asks for.
#[derive(Clone, Copy, Debug, PartialEq, Eq, Structural)]
pub enum BufferSize {
    Default,
    Fixed(FrameCount),
}

/// The buffer sizes a device supports.
#[derive(Clone, Copy, Debug, PartialEq, Eq, Structural)]
pub enum SupportedBufferSize {
    Range { min: FrameCount, max: FrameCount },
    Unknown,
}

/// The configuration a stream is opened with.
#[derive(Clone, Copy, Debug, PartialEq, Eq, Structural)]
pub struct StreamConfig {
    pub channels: ChannelCount,
    pub sample_rate: SampleRate,
    pub buffer_size: BufferSize,
}

/// A range of configurations a device supports.
#[derive(Clone, Copy, Debug, PartialEq, Eq, Structural)]
pub struct SupportedStreamConfigRange {
    pub channels: ChannelCount,
    pub min_sample_rate: SampleRate,
    pub max_sample_rate: SampleRate,
    pub buffer_size: SupportedBufferSize,
    pub sample_format: SampleFormat,
}

/// One configuration a device supports.
#[derive(Clone, Copy, Debug, PartialEq, Eq, Structural)]
pub struct SupportedStreamConfig {
    pub channels: ChannelCount,
    pub sample_rate: SampleRate,
    pub buffer_size: SupportedBufferSize,
    pub sample_format: SampleFormat,
}

/// Which way audio flows through a device.
#[derive(Clone, Copy, Debug, PartialEq, Eq, Structural)]
pub enum DeviceDirection {
    Input,
    Output,
    Duplex,
    Unknown,
}

/// The kind of physical device, as far as a backend can tell.
#[derive(Clone, Copy, Debug, PartialEq, Eq, Structural)]
pub enum DeviceType {
    Speaker,
    Headphones,
    Headset,
    Microphone,
    Unknown,
}

/// How a device is attached to the machine.
#[derive(Clone, Copy, Debug, PartialEq, Eq, Structural)]
pub enum InterfaceType {
    Unknown,
    BuiltIn,
    Bluetooth,
    Pci,
    Usb,
    FireWire,
    Thunderbolt,
    Hdmi,
    DisplayPort,
    Network,
    Virtual,
    Aggregate,
}

/// Broad categories of failure.
#[derive(Clone, Copy, Debug, PartialEq, Eq, Structural)]
pub enum ErrorKind {
    BackendError,
    DeviceBusy,
    DeviceChanged,
    DeviceNotAvailable,
    HostUnavailable,
    InvalidInput,
    Other,
    PermissionDenied,
    RealtimeDenied,
    ResourceExhausted,
    StreamInvalidated,
    UnsupportedConfig,
    UnsupportedOperation,
}

/// Why a device's default configuration could not be given.
#[derive(Clone, Debug)]
pub enum DefaultStreamConfigError {
    DeviceNotAvailable,
    StreamTypeNotSupported,
    BackendSpecific(String),
}

/// Why a stream could not be built.
#[derive(Clone, Debug)]
pub enum BuildStreamError {
    DeviceNotAvailable,
    StreamConfigNotSupported,
    FormatNotSupported,
    StreamIdOverflow,
    BackendSpecific(String),
}

/// What went wrong with a running stream.
#[derive(Clone, Debug)]
pub enum StreamError {
    DeviceNotAvailable,
    BackendSpecific(String),
}

/// An error: its kind and an optional human-readable message.
#[derive(Clone, Debug)]
pub struct Error {
    pub kind: ErrorKind,
    pub message: Option<String>,
}

impl Error {
    /// An error of `kind` without a message.
    pub fn new(kind: ErrorKind) -> (e: Error)
        ensures
            e.kind == kind,
            e.message is None,
    {
        Error { kind, message: None }
    }

    /// An error of `kind` carrying `message`.
    pub fn with_message(kind: ErrorKind, message: &str) -> (e: Error)
        ensures
            e.kind == kind,
            e.message matches Some(m) && m@ == message@,
    {
        Error { kind, message: Some(message.to_owned()) }
    }

    /// The error's kind.
    pub fn kind(&self) -> (k: ErrorKind)
        ensures
            k == self.kind,
    {
        self.kind
    }
}

} // verus!
