//! Similarity scoring between two subtrees, over the current mapping store.
//!
//! The score is the Dice coefficient: twice the number of mapped descendant
//! pairs over the sum of both descendant counts. Scores are compared as exact
//! rationals by cross-multiplication, so no rounding is involved and
//! comparisons are reproducible.

use crate::mapping_store::MappingStore;
use vstd::prelude::*;

verus! {

/// How many of the source indices in `[s_lo, i)` are mapped into
/// `[d_lo, d_hi)`.
pub open spec fn spec_mapped_pairs(
    m: &MappingStore,
    s_lo: int,
    i: int,
    d_lo: int,
    d_hi: int,
) -> int
    decreases i - s_lo,
{
    if i <= s_lo {
        0
    } else {
        spec_mapped_pairs(m, s_lo, i - 1, d_lo, d_hi) + if m.spec_is_src(i - 1) && d_lo
            <= m.spec_get_dst(i - 1) < d_hi {
            1int
        } else {
            0int
        }
    }
}

/// The ingredients of one Dice score: the number of descendant pairs mapped
/// between the two intervals, and the two descendant counts.
pub struct SimilarityMeasure {
    pub mapped: usize,
    pub src_count: usize,
    pub dst_count: usize,
}

impl SimilarityMeasure {
    /// Count the mapped descendant pairs between the descendant interval
    /// `[s_lo, s_hi)` of a source subtree and `[d_lo, d_hi)` of a destination
    /// subtree, under the current mappings.
    #[verifier::loop_isolation(false)]
    pub fn range(s_lo: usize, s_hi: usize, d_lo: usize, d_hi: usize, m: &MappingStore) -> (r:
        SimilarityMeasure)
        requires
            m.wf(),
            s_lo <= s_hi <= m.spec_src_size(),
            d_lo <= d_hi,
        ensures
            r.mapped == spec_mapped_pairs(m, s_lo as int, s_hi as int, d_lo as int, d_hi as int),
            r.src_count == s_hi - s_lo,
            r.dst_count == d_hi - d_lo,
            r.mapped <= r.src_count,
    {
        let mut mapped: usize = 0;
        let mut s: usize = s_lo;
        while s < s_hi
            invariant
                s_lo <= s <= s_hi,
                mapped <= s - s_lo,
                mapped == spec_mapped_pairs(m, s_lo as int, s as int, d_lo as int, d_hi as int),
            decreases s_hi - s,
        {
            if m.is_src(s) {
                let d = m.get_dst(s);
                if d_lo <= d && d < d_hi {
                    mapped = mapped + 1;
                }
            }
            s = s + 1;
        }
        SimilarityMeasure { mapped, src_count: s_hi - s_lo, dst_count: d_hi - d_lo }
    }

    /// The Dice score as an exact comparison: `2·mapped / (src + dst) >=
    /// num / den`.
    pub open spec fn spec_dice_at_least(&self, num: u32, den: u32) -> bool {
        2 * self.mapped * den >= num * (self.src_count + self.dst_count)
    }

    /// The Dice score of `self` strictly exceeds the one of `o`.
    pub open spec fn spec_dice_gt(&self, o: &SimilarityMeasure) -> bool {
        self.mapped * (o.src_count + o.dst_count) > o.mapped * (self.src_count + self.dst_count)
    }

    /// Whether this score reaches the threshold `num / den`.
    pub fn dice_at_least(&self, num: u32, den: u32) -> (r: bool)
        ensures
            r == self.spec_dice_at_least(num, den),
    {
        proof {
            lemma_mul_le(
                2 * (self.mapped as int),
                den as int,
                0x1_ffff_ffff_ffff_fffe,
                0xffff_ffff,
            );
            lemma_mul_le(
                num as int,
                self.src_count + self.dst_count,
                0xffff_ffff,
                0x1_ffff_ffff_ffff_fffe,
            );
        }
        let lhs: u128 = 2 * (self.mapped as u128) * (den as u128);
        let rhs: u128 = (num as u128) * (self.src_count as u128 + self.dst_count as u128);
        lhs >= rhs
    }

    /// Whether this score strictly exceeds the one of `o`.
    pub fn dice_gt(&self, o: &SimilarityMeasure) -> (r: bool)
        requires
            self.src_count < 0x8000_0000_0000_0000,
            self.dst_count < 0x8000_0000_0000_0000,
            o.src_count < 0x8000_0000_0000_0000,
            o.dst_count < 0x8000_0000_0000_0000,
        ensures
            r == self.spec_dice_gt(o),
    {
        proof {
            lemma_mul_le(
                self.mapped as int,
                o.src_count + o.dst_count,
                0xffff_ffff_ffff_ffff,
                0xffff_ffff_ffff_fffe,
            );
            lemma_mul_le(
                o.mapped as int,
                self.src_count + self.dst_count,
                0xffff_ffff_ffff_ffff,
                0xffff_ffff_ffff_fffe,
            );
        }
        let lhs: u128 = (self.mapped as u128) * (o.src_count as u128 + o.dst_count as u128);
        let rhs: u128 = (o.mapped as u128) * (self.src_count as u128 + self.dst_count as u128);
        lhs > rhs
    }
}

/// Bounded factors have a bounded product.
proof fn lemma_mul_le(a: int, b: int, amax: int, bmax: int)
    requires
        0 <= a <= amax,
        0 <= b <= bmax,
    ensures
        a * b <= amax * bmax,
{
    assert(a * b <= amax * bmax) by (nonlinear_arith)
        requires
            0 <= a <= amax,
            0 <= b <= bmax,
    ;
}

} // verus!
