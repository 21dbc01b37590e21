use vstd::prelude::*;

verus! {

use vstd::bytes::spec_u32_to_le_bytes;
use vstd::bytes::spec_u64_to_le_bytes;
use vstd::bytes::lemma_auto_spec_u32_to_from_le_bytes;
use vstd::bytes::lemma_auto_spec_u64_to_from_le_bytes;
use vstd::slice::slice_subrange;

use crate::XRefFinder;
use crate::decode::AddressWidth;
use crate::decode::Endianness;
use crate::decode::decode_uint;
use crate::decode::spec_uint_value;

/// Verifies that an absolute interpretation of `value` would lead the
/// processor to `target`.
pub fn is_absolute_match(value: u64, target: u64) -> (r: bool)
    ensures
        r == (value == target),
{
    value == target
}

/// Whether the window of `w.spec_size()` bytes of `b` starting at `o`
/// decodes, with endianness `e`, to exactly the address `target`.
pub open spec fn abs_match_at(
    b: Seq<u8>,
    o: int,
    target: u64,
    e: Endianness,
    w: AddressWidth,
) -> bool {
    &&& 0 <= o
    &&& o + w.spec_size() <= b.len()
    &&& spec_uint_value(e, w, b.subrange(o, o + w.spec_size())) == target
}

/// Decodes an absolute reference at `offset` and tests it against
/// `target`. The caller has already checked that a full window remains.
pub(crate) fn does_match_absolute(
    bytes: &[u8],
    offset: usize,
    target: u64,
    e: Endianness,
    w: AddressWidth,
) -> (r: bool)
    requires
        offset + w.spec_size() <= bytes@.len(),
        bytes@.len() <= usize::MAX,
    ensures
        r == abs_match_at(bytes@, offset as int, target, e, w),
{
    let size = w.size();
    let window = slice_subrange(bytes, offset, offset + size);
    let value = decode_uint(e, w, window);
    is_absolute_match(value, target)
}

/// Finds absolute cross references: offsets whose full-width window
/// encodes the target address verbatim.
pub struct AbsoluteFinder {
    pub target: u64,
    pub endianness: Endianness,
    pub width: AddressWidth,
}

impl AbsoluteFinder {
    /// Creates a new AbsoluteFinder, that can then find absolute cross
    /// references.
    ///
    /// Arguments:
    ///
    /// * `target`: the address which the reference should point to
    /// * `endianness`: the byte order of the scanned machine code
    /// * `width`: how many bytes an absolute reference occupies
    pub fn new(target: u64, endianness: Endianness, width: AddressWidth) -> (r: Self)
        ensures
            r.target == target,
            r.endianness == endianness,
            r.width == width,
    {
        Self { target, endianness, width }
    }
}

impl XRefFinder for AbsoluteFinder {
    open spec fn match_spec(&self, b: Seq<u8>, o: int) -> bool {
        abs_match_at(b, o, self.target, self.endianness, self.width)
    }

    proof fn lemma_match_in_window(&self, b: Seq<u8>, o: int) {
    }

    fn does_match(&self, bytes: &[u8], offset: usize) -> (r: bool)
        ensures
            r == self.match_spec(bytes@, offset as int),
    {
        let size = self.width.size();
        if bytes.len() < size || offset > bytes.len() - size {
            return false;
        }
        does_match_absolute(bytes, offset, self.target, self.endianness, self.width)
    }
}

/// The byte sequence that an absolute reference to `v` occupies in a
/// buffer of endianness `e` and width `w`.
pub open spec fn spec_encode_uint(e: Endianness, w: AddressWidth, v: u64) -> Seq<u8>
    recommends
        w is W32 ==> v < 0x1_0000_0000,
{
    let le = match w {
        AddressWidth::W32 => spec_u32_to_le_bytes(v as u32),
        AddressWidth::W64 => spec_u64_to_le_bytes(v),
    };
    match e {
        Endianness::Little => le,
        Endianness::Big => le.reverse(),
    }
}

/// An absolute finder matches at an offset exactly when the window there
/// holds, byte for byte, the configured-endianness encoding of its
/// target; every window that encodes anything else is rejected.
pub proof fn lemma_absolute_match_iff_encoding(f: &AbsoluteFinder, b: Seq<u8>, k: int)
    requires
        0 <= k,
        k + f.width.spec_size() <= b.len(),
        f.width is W32 ==> f.target < 0x1_0000_0000,
    ensures
        f.match_spec(b, k) == (b.subrange(k, k + f.width.spec_size()) == spec_encode_uint(
            f.endianness,
            f.width,
            f.target,
        )),
{
    lemma_auto_spec_u32_to_from_le_bytes();
    lemma_auto_spec_u64_to_from_le_bytes();
    let size = f.width.spec_size();
    let s = b.subrange(k, k + size);
    let enc = spec_encode_uint(f.endianness, f.width, f.target);
    assert(s.len() == size);
    let le = match f.width {
        AddressWidth::W32 => spec_u32_to_le_bytes(f.target as u32),
        AddressWidth::W64 => spec_u64_to_le_bytes(f.target),
    };
    match f.endianness {
        Endianness::Little => {
            if spec_uint_value(f.endianness, f.width, s) == f.target {
                assert(s == le);
            }
        },
        Endianness::Big => {
            assert(s.reverse().len() == size);
            if spec_uint_value(f.endianness, f.width, s) == f.target {
                assert(s.reverse() == le);
                assert(s =~= le.reverse());
            }
            if s == enc {
                assert(s.reverse() =~= le);
                assert(spec_uint_value(f.endianness, f.width, s) == f.target);
            }
        },
    }
}

} // verus!
