use vstd::prelude::*;

verus! {

use crate::XRefFinder;
use crate::absolute_finder::AbsoluteFinder;
use crate::absolute_finder::abs_match_at;
use crate::absolute_finder::does_match_absolute;
use crate::decode::AddressWidth;
use crate::decode::Endianness;
use crate::relative_finder::RelativeFinder;
use crate::relative_finder::does_match_relative;
use crate::relative_finder::rel_match_at;

/// Finds relative and absolute cross references: an offset matches when
/// either interpretation resolves to the target. Absolute references are
/// taken at the 64-bit width, the one for which relative references are
/// defined.
pub struct RelativeAndAbsoluteFinder {
    pub base_address: u64,
    pub instruction_length: u64,
    pub target: u64,
    pub endianness: Endianness,
}

impl RelativeAndAbsoluteFinder {
    /// Creates a new RelativeAndAbsoluteFinder, that can then find
    /// relative and absolute cross references.
    ///
    /// For arguments refer to `RelativeFinder` and `AbsoluteFinder`.
    pub fn new(
        base_address: u64,
        instruction_length: u64,
        target: u64,
        endianness: Endianness,
    ) -> (r: Self)
        ensures
            r.base_address == base_address,
            r.instruction_length == instruction_length,
            r.target == target,
            r.endianness == endianness,
    {
        Self { base_address, instruction_length, target, endianness }
    }
}

impl XRefFinder for RelativeAndAbsoluteFinder {
    open spec fn match_spec(&self, b: Seq<u8>, o: int) -> bool {
        ||| rel_match_at(
            b,
            o,
            self.base_address,
            self.instruction_length,
            self.target,
            self.endianness,
        )
        ||| abs_match_at(b, o, self.target, self.endianness, AddressWidth::W64)
    }

    proof fn lemma_match_in_window(&self, b: Seq<u8>, o: int) {
    }

    fn does_match(&self, bytes: &[u8], offset: usize) -> (r: bool)
        ensures
            r == self.match_spec(bytes@, offset as int),
    {
        if bytes.len() >= 4 && offset <= bytes.len() - 4 && does_match_relative(
            bytes,
            offset,
            self.base_address,
            self.instruction_length,
            self.target,
            self.endianness,
        ) {
            return true;
        }
        if bytes.len() >= 8 && offset <= bytes.len() - 8 && does_match_absolute(
            bytes,
            offset,
            self.target,
            self.endianness,
            AddressWidth::W64,
        ) {
            return true;
        }
        false
    }
}

/// A combined finder accepts exactly the union of what the relative
/// finder and the 64-bit absolute finder of the same configuration
/// accept, at every offset of every buffer.
pub proof fn lemma_combined_is_union(
    c: &RelativeAndAbsoluteFinder,
    rf: &RelativeFinder,
    af: &AbsoluteFinder,
    b: Seq<u8>,
    o: int,
)
    requires
        rf.base_address == c.base_address,
        rf.instruction_length == c.instruction_length,
        rf.target == c.target,
        rf.endianness == c.endianness,
        af.target == c.target,
        af.endianness == c.endianness,
        af.width is W64,
    ensures
        c.match_spec(b, o) == (rf.match_spec(b, o) || af.match_spec(b, o)),
{
}

} // verus!
