use vstd::prelude::*;

verus! {

use vstd::arithmetic::div_mod::lemma_mod_multiples_vanish;
use vstd::arithmetic::div_mod::lemma_small_mod;
use vstd::bytes::spec_u32_to_le_bytes;
use vstd::bytes::spec_u32_from_le_bytes;
use vstd::bytes::lemma_auto_spec_u32_to_from_le_bytes;
use vstd::slice::slice_subrange;

use crate::XRefFinder;
use crate::absolute_finder::spec_encode_uint;
use crate::decode::AddressWidth;
use crate::decode::Endianness;
use crate::decode::decode_disp;
use crate::decode::spec_disp_value;

/// `x` reduced into the 64-bit address space: address arithmetic wraps
/// around modulo 2^64, as the hardware's does.
pub open spec fn wrap64(x: int) -> int {
    x % 0x1_0000_0000_0000_0000
}

/// A value that differs from `x` by `k` moduli is `x` wrapped, provided
/// it fits the address space.
proof fn lemma_wrap64_witness(x: int, r: u64, k: int)
    requires
        r == x - k * 0x1_0000_0000_0000_0000,
    ensures
        wrap64(x) == r,
{
    lemma_mod_multiples_vanish(k, r as int, 0x1_0000_0000_0000_0000);
    lemma_small_mod(r as nat, 0x1_0000_0000_0000_0000);
}

/// Verifies that a relative offset interpretation of `address`,
/// `instruction_length` and `offset` would lead the processor to
/// `target`: whether `address + instruction_length + offset`, wrapped
/// into the 64-bit address space, equals `target` exactly.
pub fn is_relative_match(address: u64, instruction_length: u64, offset: i64, target: u64) -> (r:
    bool)
    ensures
        r == (wrap64(address + instruction_length + offset) == target),
{
    let resolved = address.wrapping_add(instruction_length).wrapping_add_signed(offset);
    proof {
        let m: int = 0x1_0000_0000_0000_0000;
        let sum = address + instruction_length + offset;
        if resolved == sum {
            lemma_wrap64_witness(sum, resolved, 0);
        } else if resolved == sum - m {
            lemma_wrap64_witness(sum, resolved, 1);
        } else if resolved == sum + m {
            lemma_wrap64_witness(sum, resolved, -1);
        } else {
            assert(resolved == sum - 2 * m);
            lemma_wrap64_witness(sum, resolved, 2);
        }
    }
    resolved == target
}

/// Whether the 4-byte window of `b` at `o`, read with endianness `e` as
/// a signed displacement, resolves to `target` from the base address
/// `base` and the instruction length `ilen`.
pub open spec fn rel_match_at(
    b: Seq<u8>,
    o: int,
    base: u64,
    ilen: u64,
    target: u64,
    e: Endianness,
) -> bool {
    &&& 0 <= o
    &&& o + 4 <= b.len()
    &&& wrap64(base + o + ilen + spec_disp_value(e, b.subrange(o, o + 4))) == target
}

/// Decodes a displacement at `offset` and tests whether it resolves to
/// `target`. The caller has already checked that a full window remains.
pub(crate) fn does_match_relative(
    bytes: &[u8],
    offset: usize,
    base_address: u64,
    instruction_length: u64,
    target: u64,
    e: Endianness,
) -> (r: bool)
    requires
        offset + 4 <= bytes@.len(),
        bytes@.len() <= usize::MAX,
    ensures
        r == rel_match_at(bytes@, offset as int, base_address, instruction_length, target, e),
{
    let window = slice_subrange(bytes, offset, offset + 4);
    let disp = decode_disp(e, window);
    let r = is_relative_match(
        base_address.wrapping_add(offset as u64),
        instruction_length,
        disp,
        target,
    );
    proof {
        let m: int = 0x1_0000_0000_0000_0000;
        let a = base_address + offset;
        let rest = instruction_length + spec_disp_value(
            e,
            bytes@.subrange(offset as int, offset as int + 4),
        );
        if a > u64::MAX {
            lemma_mod_multiples_vanish(1, a - m + rest, m);
        }
    }
    r
}

/// Finds relative cross references: offsets whose 4-byte signed
/// displacement, applied from the end of its instruction, resolves to
/// the target address.
pub struct RelativeFinder {
    pub base_address: u64,
    pub instruction_length: u64,
    pub target: u64,
    pub endianness: Endianness,
}

impl RelativeFinder {
    /// Creates a new RelativeFinder, that can then find relative cross
    /// references.
    ///
    /// Arguments:
    ///
    /// * `base_address`: base address of relative references; this is useful
    ///   when the memory being scanned has been moved
    /// * `instruction_length`: the amount of bytes from the start of the
    ///   relative offset to the point the displacement is applied from.
    ///   Most instructions that use relative offsets end in the relative
    ///   offset, so this is the size of the relative offset itself (4).
    ///   If an instruction carries further operand bytes after the
    ///   relative offset (e.g. cmp), add how many bytes come after the
    ///   offset: for one trailing immediate byte, 4 + 1 = 5.
    /// * `target`: the address which the reference should point to
    /// * `endianness`: the byte order of the scanned machine code
    pub fn new(base_address: u64, instruction_length: u64, target: u64, endianness: Endianness) -> (r:
        Self)
        ensures
            r.base_address == base_address,
            r.instruction_length == instruction_length,
            r.target == target,
            r.endianness == endianness,
    {
        Self { base_address, instruction_length, target, endianness }
    }
}

impl XRefFinder for RelativeFinder {
    open spec fn match_spec(&self, b: Seq<u8>, o: int) -> bool {
        rel_match_at(b, o, self.base_address, self.instruction_length, self.target, self.endianness)
    }

    proof fn lemma_match_in_window(&self, b: Seq<u8>, o: int) {
    }

    fn does_match(&self, bytes: &[u8], offset: usize) -> (r: bool)
        ensures
            r == self.match_spec(bytes@, offset as int),
    {
        if bytes.len() < 4 || offset > bytes.len() - 4 {
            return false;
        }
        does_match_relative(
            bytes,
            offset,
            self.base_address,
            self.instruction_length,
            self.target,
            self.endianness,
        )
    }
}

/// The byte sequence that a relative reference with displacement `d`
/// occupies in a buffer of endianness `e`: the 32-bit two's-complement
/// encoding of `d` in that byte order.
pub open spec fn spec_encode_disp(e: Endianness, d: int) -> Seq<u8>
    recommends
        -0x8000_0000 <= d < 0x8000_0000,
{
    spec_encode_uint(
        e,
        AddressWidth::W32,
        (if d >= 0 {
            d
        } else {
            d + 0x1_0000_0000
        }) as u64,
    )
}

/// Decoding the encoding of a displacement gives the displacement back.
proof fn lemma_disp_roundtrip(e: Endianness, d: int)
    requires
        -0x8000_0000 <= d < 0x8000_0000,
    ensures
        spec_disp_value(e, spec_encode_disp(e, d)) == d,
{
    lemma_auto_spec_u32_to_from_le_bytes();
    let bits: u64 = (if d >= 0 {
        d
    } else {
        d + 0x1_0000_0000
    }) as u64;
    let b32: u32 = bits as u32;
    let le = spec_u32_to_le_bytes(b32);
    assert(le.len() == 4);
    assert(spec_u32_from_le_bytes(le) == b32);
    if e is Big {
        assert(spec_encode_disp(e, d).reverse() =~= le);
    }
}

/// A 4-byte window that holds, in the finder's byte order, the
/// two's-complement encoding of displacement `d` matches at its offset
/// `k` exactly when the finder's target is `base + k + L + d`, wrapped
/// into the 64-bit address space, for base address `base` and
/// instruction length `L`.
pub proof fn lemma_relative_match_iff_displacement(f: &RelativeFinder, b: Seq<u8>, k: int, d: int)
    requires
        0 <= k,
        k + 4 <= b.len(),
        -0x8000_0000 <= d < 0x8000_0000,
        b.subrange(k, k + 4) == spec_encode_disp(f.endianness, d),
    ensures
        f.match_spec(b, k) == (f.target == wrap64(
            f.base_address + k + f.instruction_length + d,
        )),
{
    lemma_disp_roundtrip(f.endianness, d);
}

} // verus!
