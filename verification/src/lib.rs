//! Locating cross references in x86 machine code.
//!
//! A finder is an immutable configuration record: a target address
//! together with the byte order (and, for absolute references, the
//! address width) used to decode candidate windows of a buffer. The
//! [`XRefFinder`] trait gives every finder a single-offset match
//! predicate and bounds-checked linear scans built on top of it.
//!
//! Supported references:
//! - absolute references, 32- and 64-bit wide;
//! - relative references on 64 bit (32-bit relative references are
//!   omitted due to their rarity).

use vstd::prelude::*;

pub mod absolute_finder;
pub mod decode;
pub mod relative_and_absolute_finder;
pub mod relative_finder;

pub use absolute_finder::AbsoluteFinder;
pub use decode::AddressWidth;
pub use decode::Endianness;
pub use relative_and_absolute_finder::RelativeAndAbsoluteFinder;
pub use relative_finder::RelativeFinder;

verus! {

/// A single-offset match predicate over byte buffers, with linear scans
/// for the first, the last, and all matching offsets.
pub trait XRefFinder: Sized {
    /// What it means for `self` to match buffer `b` at offset `o`.
    spec fn match_spec(&self, b: Seq<u8>, o: int) -> bool;

    /// A match consumes at least one byte of the buffer, so no offset at
    /// or past the buffer's end ever matches.
    proof fn lemma_match_in_window(&self, b: Seq<u8>, o: int)
        ensures
            self.match_spec(b, o) ==> 0 <= o < b.len(),
    ;

    /// Checks if the `offset` in `bytes` is a reference.
    fn does_match(&self, bytes: &[u8], offset: usize) -> (r: bool)
        ensures
            r == self.match_spec(bytes@, offset as int),
    ;

    /// Finds the next reference: the least matching offset.
    fn next(&self, bytes: &[u8]) -> (r: Option<usize>)
        ensures
            match r {
                Some(i) => i < bytes@.len() && self.match_spec(bytes@, i as int) && (forall|j: int|
                    0 <= j < i ==> !self.match_spec(bytes@, j)),
                None => forall|j: int| 0 <= j <= bytes@.len() ==> !self.match_spec(bytes@, j),
            },
    {
        let mut i: usize = 0;
        while i < bytes.len()
            invariant
                i <= bytes@.len(),
                forall|j: int| 0 <= j < i ==> !self.match_spec(bytes@, j),
            decreases bytes@.len() - i,
        {
            if self.does_match(bytes, i) {
                return Some(i);
            }
            i = i + 1;
        }
        proof {
            self.lemma_match_in_window(bytes@, bytes@.len() as int);
        }
        None
    }

    /// Finds the previous reference, scanning from the buffer's end: the
    /// greatest matching offset `g`, reported reflected through the end
    /// of the buffer as `len - g - 1`. Use [`XRefFinder::last_match`] for
    /// `g` itself.
    fn prev(&self, bytes: &[u8]) -> (r: Option<usize>)
        ensures
            match r {
                Some(i) => i < bytes@.len() && self.match_spec(
                    bytes@,
                    bytes@.len() - i - 1,
                ) && (forall|j: int|
                    bytes@.len() - i - 1 < j <= bytes@.len() ==> !self.match_spec(bytes@, j)),
                None => forall|j: int| 0 <= j <= bytes@.len() ==> !self.match_spec(bytes@, j),
            },
    {
        match self.last_match(bytes) {
            Some(g) => Some(bytes.len() - g - 1),
            None => None,
        }
    }

    /// Finds the reference that lies last in the buffer: the greatest
    /// matching offset.
    fn last_match(&self, bytes: &[u8]) -> (r: Option<usize>)
        ensures
            match r {
                Some(g) => g < bytes@.len() && self.match_spec(bytes@, g as int) && (forall|j: int|
                    g < j <= bytes@.len() ==> !self.match_spec(bytes@, j)),
                None => forall|j: int| 0 <= j <= bytes@.len() ==> !self.match_spec(bytes@, j),
            },
    {
        proof {
            self.lemma_match_in_window(bytes@, bytes@.len() as int);
        }
        let mut i: usize = bytes.len();
        while i > 0
            invariant
                i <= bytes@.len(),
                forall|j: int| i <= j <= bytes@.len() ==> !self.match_spec(bytes@, j),
            decreases i,
        {
            i = i - 1;
            if self.does_match(bytes, i) {
                return Some(i);
            }
        }
        None
    }

    /// Finds all references in the `bytes` slice, as the increasing
    /// sequence of every matching offset.
    fn all(&self, bytes: &[u8]) -> (r: Vec<usize>)
        ensures
            r@ == matches_below(|o: int| self.match_spec(bytes@, o), bytes@.len() as int),
            forall|j: int| j >= bytes@.len() ==> !self.match_spec(bytes@, j),
    {
        proof {
            assert forall|j: int| j >= bytes@.len() implies !self.match_spec(bytes@, j) by {
                self.lemma_match_in_window(bytes@, j);
            }
        }
        let mut r: Vec<usize> = Vec::new();
        let mut i: usize = 0;
        while i < bytes.len()
            invariant
                i <= bytes@.len(),
                r@ == matches_below(|o: int| self.match_spec(bytes@, o), i as int),
            decreases bytes@.len() - i,
        {
            if self.does_match(bytes, i) {
                r.push(i);
            }
            i = i + 1;
        }
        r
    }
}

/// The offsets below `n` at which the match predicate `p` holds, in
/// increasing order.
pub open spec fn matches_below(p: spec_fn(int) -> bool, n: int) -> Seq<usize>
    decreases n,
{
    if n <= 0 {
        Seq::empty()
    } else if p(n - 1) {
        matches_below(p, n - 1).push((n - 1) as usize)
    } else {
        matches_below(p, n - 1)
    }
}

/// The scan for all references is sound and complete and reports its
/// offsets in strictly increasing order: `matches_below(p, n)` holds
/// exactly the offsets below `n` at which `p` holds, each exactly once,
/// ascending.
pub proof fn lemma_matches_below_characterization(p: spec_fn(int) -> bool, n: int)
    requires
        n <= usize::MAX as int + 1,
    ensures
        forall|k: int|
            0 <= k < matches_below(p, n).len() ==> {
                &&& #[trigger] matches_below(p, n)[k] < n
                &&& p(matches_below(p, n)[k] as int)
            },
        forall|o: usize| o < n && p(o as int) ==> matches_below(p, n).contains(o),
        forall|k1: int, k2: int|
            0 <= k1 < k2 < matches_below(p, n).len() ==> matches_below(p, n)[k1] < matches_below(
                p,
                n,
            )[k2],
    decreases n,
{
    if n > 0 {
        lemma_matches_below_characterization(p, n - 1);
        let prev_seq = matches_below(p, n - 1);
        let cur = matches_below(p, n);
        assert forall|o: usize| o < n && p(o as int) implies cur.contains(o) by {
            if o < n - 1 {
                assert(prev_seq.contains(o));
                let k = choose|k: int| 0 <= k < prev_seq.len() && prev_seq[k] == o;
                assert(cur[k] == o);
            } else {
                assert(cur[cur.len() - 1] == o);
            }
        }
    }
}

/// Scanning the same unmodified buffer twice with the same finder yields
/// identical results: the sequence of all matching offsets is a pure
/// function of the match predicate, and so of the finder's configuration
/// and the buffer's contents.
pub proof fn lemma_all_matches_idempotent(
    p: spec_fn(int) -> bool,
    n: int,
    r1: Seq<usize>,
    r2: Seq<usize>,
)
    requires
        r1 == matches_below(p, n),
        r2 == matches_below(p, n),
    ensures
        r1 == r2,
{
}

} // verus!
