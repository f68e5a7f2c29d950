//! Silence: the byte pattern of the resting value of every sample format, and the machine's
//! byte order it depends on.
use vstd::prelude::*;
use crate::format::SampleFormat;

verus! {

/// The resting byte of one-bit DSD streams.
pub const DSD_EQUILIBRIUM_BYTE: u8 = 0x69;
/// The resting byte of unsigned 8-bit samples, the midpoint of their range.
pub const U8_EQUILIBRIUM_BYTE: u8 = 0x80;

/// Byte order of multi-byte values.
#[derive(Clone, Copy, Debug, PartialEq, Eq, Structural)]
pub enum Endian {
    BE,
    LE,
}

/// The bytes of the 16-bit integer 1 in the byte order of the hardware it runs on
/// (`i16::to_ne_bytes`), which `vstd::endian::endianness` stands for: the low byte first on
/// little-endian hardware, last on big-endian hardware.
#[verifier::external_body]
fn one_in_native_order() -> (b: [u8; 2])
    ensures
        vstd::endian::endianness() == vstd::endian::Endian::Little ==> (b[0] == 1 && b[1] == 0),
        vstd::endian::endianness() == vstd::endian::Endian::Big ==> (b[0] == 0 && b[1] == 1),
{
    1i16.to_ne_bytes()
}

/// The byte order of the hardware it runs on.
pub fn get_endianness() -> (e: Endian)
    ensures
        e == (if vstd::endian::endianness() == vstd::endian::Endian::Little { Endian::LE } else { Endian::BE }),
{
    let b = one_in_native_order();
    if b[0] == 1 {
        Endian::LE
    } else {
        Endian::BE
    }
}

/// Byte `k` (counting in memory order) of the resting value of a multi-byte unsigned
/// format, whose only set bit is the top bit of its most significant byte: 16-bit `0x8000`,
/// 24-bit `0x0080_0000` in a four-byte container, 32-bit `0x8000_0000` and 64-bit
/// `0x8000_0000_0000_0000`.
pub open spec fn unsigned_equilibrium_byte(format: SampleFormat, endian: Endian, k: int) -> u8 {
    let size = format.spec_sample_size() as int;
    // Position, counted from the least significant byte, of the byte holding the set bit.
    let top = if format is U24 { 2 } else { size - 1 };
    let pos = if endian == Endian::LE { k } else { size - 1 - k };
    if pos == top { 0x80 } else { 0 }
}

/// The byte at offset `i` of a silent buffer of `format`.
pub open spec fn equilibrium_byte(format: SampleFormat, endian: Endian, i: int) -> u8 {
    if format.spec_is_int() || format.spec_is_float() {
        0
    } else if format is U8 {
        U8_EQUILIBRIUM_BYTE
    } else if format.spec_is_dsd() {
        DSD_EQUILIBRIUM_BYTE
    } else {
        unsigned_equilibrium_byte(format, endian, i % (format.spec_sample_size() as int))
    }
}

fn unsigned_byte(format: SampleFormat, endian: Endian, k: usize) -> (b: u8)
    requires
        format is U16 || format is U24 || format is U32 || format is U64,
        k < format.spec_sample_size(),
    ensures
        b == unsigned_equilibrium_byte(format, endian, k as int),
{
    let size = format.sample_size();
    let top = if format == SampleFormat::U24 { 2 } else { size - 1 };
    let pos = if endian == Endian::LE { k } else { size - 1 - k };
    if pos == top { 0x80 } else { 0 }
}

/// Fills `buffer` with silence for `format` in the byte order `endian`: zero for signed and
/// float formats, `0x80` for unsigned 8-bit, `0x69` for DSD, and the midpoint of the range,
/// sample by sample, for wider unsigned formats.
pub fn fill_equilibrium(buffer: &mut Vec<u8>, format: SampleFormat, endian: Endian)
    requires
        (format is U16 || format is U24 || format is U32 || format is U64) ==> old(buffer)@.len()
            % format.spec_sample_size() == 0,
    ensures
        final(buffer)@.len() == old(buffer)@.len(),
        forall|i: int| 0 <= i < final(buffer)@.len() ==> #[trigger] final(buffer)@[i] == equilibrium_byte(format, endian, i),
{
    let n = buffer.len();
    let size = format.sample_size();
    let mut i: usize = 0;
    while i < n
        invariant
            n == buffer@.len(),
            size == format.spec_sample_size(),
            i <= n,
            forall|j: int| 0 <= j < i ==> #[trigger] buffer@[j] == equilibrium_byte(format, endian, j),
        decreases n - i,
    {
        let b: u8 = if format.is_int() || format.is_float() {
            0
        } else if format == SampleFormat::U8 {
            U8_EQUILIBRIUM_BYTE
        } else if format.is_dsd() {
            DSD_EQUILIBRIUM_BYTE
        } else {
            unsigned_byte(format, endian, i % size)
        };
        buffer.set(i, b);
        i = i + 1;
    }
}

/// Every sample of a silent buffer of a wide unsigned format holds the same bytes: the
/// pattern repeats with the sample size.
pub proof fn lemma_equilibrium_repeats(format: SampleFormat, endian: Endian, i: int)
    requires
        i >= 0,
    ensures
        equilibrium_byte(format, endian, i + format.spec_sample_size() as int) == equilibrium_byte(format, endian, i),
{
    let s = format.spec_sample_size() as int;
    assert((i + s) % s == i % s) by (nonlinear_arith)
        requires s > 0, i >= 0;
}

/// In either byte order, each sample of a wide unsigned format holds exactly one non-zero
/// byte, and it is `0x80`.
pub proof fn lemma_unsigned_equilibrium_single_top_bit(format: SampleFormat, endian: Endian)
    requires
        format is U16 || format is U24 || format is U32 || format is U64,
    ensures
        exists|k: int| 0 <= k < format.spec_sample_size() && unsigned_equilibrium_byte(format, endian, k) == 0x80
            && forall|j: int| 0 <= j < format.spec_sample_size() && j != k ==> unsigned_equilibrium_byte(format, endian, j) == 0,
{
    let size = format.spec_sample_size() as int;
    let top = if format is U24 { 2 } else { size - 1 };
    let k = if endian == Endian::LE { top } else { size - 1 - top };
    assert(unsigned_equilibrium_byte(format, endian, k) == 0x80);
}

} // verus!
