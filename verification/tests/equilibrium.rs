use cpal_host::equilibrium::{fill_equilibrium, get_endianness, Endian};
use cpal_host::format::SampleFormat;

fn native_u16(c: &[u8]) -> u16 {
    match get_endianness() {
        Endian::LE => u16::from_le_bytes([c[0], c[1]]),
        Endian::BE => u16::from_be_bytes([c[0], c[1]]),
    }
}

fn native_u32(c: &[u8]) -> u32 {
    match get_endianness() {
        Endian::LE => u32::from_le_bytes([c[0], c[1], c[2], c[3]]),
        Endian::BE => u32::from_be_bytes([c[0], c[1], c[2], c[3]]),
    }
}

fn native_u64(c: &[u8]) -> u64 {
    let mut b = [0u8; 8];
    b.copy_from_slice(c);
    match get_endianness() {
        Endian::LE => u64::from_le_bytes(b),
        Endian::BE => u64::from_be_bytes(b),
    }
}

#[test]
fn test_fill_equilibrium_byte_patterns() {
    let mut buf = vec![0u8; 8];
    let e = get_endianness();

    // Unsigned 8-bit silence is 0x80, the midpoint of the range.
    fill_equilibrium(&mut buf, SampleFormat::U8, e);
    assert_eq!(buf[0], 0x80);
    assert_eq!(buf[5], 0x80);

    // Signed and float formats rest at zero.
    fill_equilibrium(&mut buf, SampleFormat::I16, e);
    assert_eq!(buf[0], 0);
    assert_eq!(buf[5], 0);
    fill_equilibrium(&mut buf, SampleFormat::I24, e);
    assert_eq!(buf[0], 0);
    assert_eq!(buf[5], 0);
    fill_equilibrium(&mut buf, SampleFormat::F32, e);
    assert_eq!(buf[0], 0);
    assert_eq!(buf[5], 0);

    // DSD silence is the 0x69 pattern.
    fill_equilibrium(&mut buf, SampleFormat::DsdU8, e);
    assert_eq!(buf[0], 0x69);
    assert_eq!(buf[5], 0x69);

    // Multi-byte unsigned formats: check the value written and that every byte is covered.
    fill_equilibrium(&mut buf, SampleFormat::U16, e);
    assert!(buf.chunks_exact(2).all(|c| native_u16(c) == 0x8000));
    fill_equilibrium(&mut buf, SampleFormat::U24, e);
    assert!(buf.chunks_exact(4).all(|c| native_u32(c) == 0x0080_0000));
    fill_equilibrium(&mut buf, SampleFormat::U32, e);
    assert!(buf.chunks_exact(4).all(|c| native_u32(c) == 0x8000_0000));
    fill_equilibrium(&mut buf, SampleFormat::U64, e);
    assert!(buf.chunks_exact(8).all(|c| native_u64(c) == 0x8000_0000_0000_0000));
}

#[test]
fn endianness_matches_the_target() {
    let expected = if 1u16.to_ne_bytes()[0] == 1 { Endian::LE } else { Endian::BE };
    assert_eq!(get_endianness(), expected);
}

#[test]
fn big_endian_unsigned_silence_puts_the_top_bit_first() {
    let mut buf = vec![0u8; 4];
    fill_equilibrium(&mut buf, SampleFormat::U16, Endian::BE);
    assert_eq!(buf, vec![0x80, 0x00, 0x80, 0x00]);
    fill_equilibrium(&mut buf, SampleFormat::U16, Endian::LE);
    assert_eq!(buf, vec![0x00, 0x80, 0x00, 0x80]);
}
