use vstd::prelude::*;

verus! {

use vstd::bytes::spec_u32_from_le_bytes;
use vstd::bytes::spec_u64_from_le_bytes;

/// Byte order used to decode multi-byte integers from a buffer.
#[derive(Clone, Copy)]
pub enum Endianness {
    Little,
    Big,
}

/// Number of bytes an absolute address literal occupies in a buffer:
/// the pointer width of the machine code being scanned.
#[derive(Clone, Copy)]
pub enum AddressWidth {
    W32,
    W64,
}

impl AddressWidth {
    /// The number of bytes of an absolute reference of this width.
    pub open spec fn spec_size(self) -> int {
        match self {
            AddressWidth::W32 => 4,
            AddressWidth::W64 => 8,
        }
    }

    /// Executable twin of `spec_size`.
    pub fn size(self) -> (n: usize)
        ensures
            n == self.spec_size(),
    {
        match self {
            AddressWidth::W32 => 4,
            AddressWidth::W64 => 8,
        }
    }
}

/// The unsigned value of a 4-byte window read in big-endian order:
/// the little-endian value of the reversed window.
pub open spec fn spec_u32_from_be_bytes(s: Seq<u8>) -> u32
    recommends
        s.len() == 4,
{
    spec_u32_from_le_bytes(s.reverse())
}

/// The unsigned value of an 8-byte window read in big-endian order:
/// the little-endian value of the reversed window.
pub open spec fn spec_u64_from_be_bytes(s: Seq<u8>) -> u64
    recommends
        s.len() == 8,
{
    spec_u64_from_le_bytes(s.reverse())
}

/// The unsigned value of a window of `w.spec_size()` bytes decoded with
/// endianness `e`, widened to a mathematical integer.
pub open spec fn spec_uint_value(e: Endianness, w: AddressWidth, s: Seq<u8>) -> int {
    match w {
        AddressWidth::W32 => match e {
            Endianness::Little => spec_u32_from_le_bytes(s) as int,
            Endianness::Big => spec_u32_from_be_bytes(s) as int,
        },
        AddressWidth::W64 => match e {
            Endianness::Little => spec_u64_from_le_bytes(s) as int,
            Endianness::Big => spec_u64_from_be_bytes(s) as int,
        },
    }
}

/// The two's-complement signed value of a 4-byte window decoded with
/// endianness `e`, as a mathematical integer in `[-2^31, 2^31)`.
pub open spec fn spec_disp_value(e: Endianness, s: Seq<u8>) -> int {
    let v = match e {
        Endianness::Little => spec_u32_from_le_bytes(s) as int,
        Endianness::Big => spec_u32_from_be_bytes(s) as int,
    };
    if v < 0x8000_0000 {
        v
    } else {
        v - 0x1_0000_0000
    }
}

/// Relies on `byteorder::LittleEndian::read_u32` (byteorder 1.5.0): it
/// returns `u32::from_le_bytes` of the window's four bytes and panics only
/// on a window shorter than four bytes.
#[verifier::external_body]
fn read_u32_le(window: &[u8]) -> (r: u32)
    requires
        window@.len() == 4,
    ensures
        r == spec_u32_from_le_bytes(window@),
{
    <byteorder::LittleEndian as byteorder::ByteOrder>::read_u32(window)
}

/// Relies on `byteorder::BigEndian::read_u32` (byteorder 1.5.0): it
/// returns `u32::from_be_bytes` of the window's four bytes, the
/// little-endian value of the reversed window, and panics only on a
/// window shorter than four bytes.
#[verifier::external_body]
fn read_u32_be(window: &[u8]) -> (r: u32)
    requires
        window@.len() == 4,
    ensures
        r == spec_u32_from_be_bytes(window@),
{
    <byteorder::BigEndian as byteorder::ByteOrder>::read_u32(window)
}

/// Relies on `byteorder::LittleEndian::read_u64` (byteorder 1.5.0): it
/// returns `u64::from_le_bytes` of the window's eight bytes and panics
/// only on a window shorter than eight bytes.
#[verifier::external_body]
fn read_u64_le(window: &[u8]) -> (r: u64)
    requires
        window@.len() == 8,
    ensures
        r == spec_u64_from_le_bytes(window@),
{
    <byteorder::LittleEndian as byteorder::ByteOrder>::read_u64(window)
}

/// Relies on `byteorder::BigEndian::read_u64` (byteorder 1.5.0): it
/// returns `u64::from_be_bytes` of the window's eight bytes, the
/// little-endian value of the reversed window, and panics only on a
/// window shorter than eight bytes.
#[verifier::external_body]
fn read_u64_be(window: &[u8]) -> (r: u64)
    requires
        window@.len() == 8,
    ensures
        r == spec_u64_from_be_bytes(window@),
{
    <byteorder::BigEndian as byteorder::ByteOrder>::read_u64(window)
}

/// Decodes the unsigned value of an absolute reference from a window of
/// exactly `w.size()` bytes, zero-extended to 64 bits.
pub(crate) fn decode_uint(e: Endianness, w: AddressWidth, window: &[u8]) -> (r: u64)
    requires
        window@.len() == w.spec_size(),
    ensures
        r as int == spec_uint_value(e, w, window@),
{
    match w {
        AddressWidth::W32 => {
            let v: u32 = match e {
                Endianness::Little => read_u32_le(window),
                Endianness::Big => read_u32_be(window),
            };
            v as u64
        },
        AddressWidth::W64 => match e {
            Endianness::Little => read_u64_le(window),
            Endianness::Big => read_u64_be(window),
        },
    }
}

/// Decodes the signed 32-bit displacement from a window of exactly four
/// bytes, sign-extended to 64 bits.
pub(crate) fn decode_disp(e: Endianness, window: &[u8]) -> (r: i64)
    requires
        window@.len() == 4,
    ensures
        r as int == spec_disp_value(e, window@),
{
    let v: u32 = match e {
        Endianness::Little => read_u32_le(window),
        Endianness::Big => read_u32_be(window),
    };
    if v >= 0x8000_0000 {
        (v as i64) - 0x1_0000_0000
    } else {
        v as i64
    }
}

} // verus!
