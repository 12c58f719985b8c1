//! Partial bijection between the indices of two decompressed arenas.
//!
//! A mapping store is scoped to one diff run. It relates source indices to
//! destination indices injectively: no index is ever mapped twice on either
//! side. Internally both directions are stored as vectors where entry `0`
//! means "unmapped" and entry `d + 1` means "mapped to index `d`", so the
//! store is symmetric and every link is recorded in both directions.

use vstd::prelude::*;

verus! {

pub struct MappingStore {
    src_to_dst: Vec<usize>,
    dst_to_src: Vec<usize>,
}

impl MappingStore {
    /// The forward table: for each source index, `0` or the destination index plus one.
    pub closed spec fn src_view(&self) -> Seq<usize> {
        self.src_to_dst@
    }

    /// The backward table: for each destination index, `0` or the source index plus one.
    pub closed spec fn dst_view(&self) -> Seq<usize> {
        self.dst_to_src@
    }

    /// Number of source indices the store covers.
    pub open spec fn spec_src_size(&self) -> nat {
        self.src_view().len()
    }

    /// Number of destination indices the store covers.
    pub open spec fn spec_dst_size(&self) -> nat {
        self.dst_view().len()
    }

    /// Source index `s` is mapped.
    pub open spec fn spec_is_src(&self, s: int) -> bool {
        0 <= s < self.src_view().len() && self.src_view()[s] != 0
    }

    /// Destination index `d` is mapped.
    pub open spec fn spec_is_dst(&self, d: int) -> bool {
        0 <= d < self.dst_view().len() && self.dst_view()[d] != 0
    }

    /// The destination that source index `s` is mapped to.
    pub open spec fn spec_get_dst(&self, s: int) -> int {
        self.src_view()[s] - 1
    }

    /// The source that destination index `d` is mapped to.
    pub open spec fn spec_get_src(&self, d: int) -> int {
        self.dst_view()[d] - 1
    }

    /// Well-formedness: the two directions are exact inverses of one another on
    /// their mapped entries. This is what makes the relation a partial
    /// bijection: a destination entry can point back to at most one source, so
    /// no two sources share a destination, and symmetrically.
    pub open spec fn wf(&self) -> bool {
        &&& forall|s: int|
            self.spec_is_src(s) ==> {
                &&& 0 <= #[trigger] self.spec_get_dst(s) < self.dst_view().len()
                &&& self.dst_view()[self.spec_get_dst(s)] == s + 1
            }
        &&& forall|d: int|
            self.spec_is_dst(d) ==> {
                &&& 0 <= #[trigger] self.spec_get_src(d) < self.src_view().len()
                &&& self.src_view()[self.spec_get_src(d)] == d + 1
            }
    }

    /// `self` contains every link of `m` (and possibly more).
    pub open spec fn extends(&self, m: &MappingStore) -> bool {
        &&& self.spec_src_size() == m.spec_src_size()
        &&& self.spec_dst_size() == m.spec_dst_size()
        &&& forall|s: int|
            m.spec_is_src(s) ==> #[trigger] self.spec_is_src(s) && self.spec_get_dst(s)
                == m.spec_get_dst(s)
        &&& forall|d: int|
            m.spec_is_dst(d) ==> #[trigger] self.spec_is_dst(d) && self.spec_get_src(d)
                == m.spec_get_src(d)
    }

    pub fn new() -> (r: MappingStore)
        ensures
            r.wf(),
            r.spec_src_size() == 0,
            r.spec_dst_size() == 0,
    {
        MappingStore { src_to_dst: Vec::new(), dst_to_src: Vec::new() }
    }

    /// Size the store for arenas of `src_size` source and `dst_size`
    /// destination indices; every index starts unmapped.
    pub fn topit(&mut self, src_size: usize, dst_size: usize)
        ensures
            final(self).wf(),
            final(self).spec_src_size() == src_size,
            final(self).spec_dst_size() == dst_size,
            forall|s: int| !final(self).spec_is_src(s),
            forall|d: int| !final(self).spec_is_dst(d),
    {
        let mut fwd: Vec<usize> = Vec::new();
        let mut i: usize = 0;
        while i < src_size
            invariant
                i <= src_size,
                fwd@.len() == i,
                forall|k: int| 0 <= k < i ==> fwd@[k] == 0,
            decreases src_size - i,
        {
            fwd.push(0);
            i = i + 1;
        }
        let mut bwd: Vec<usize> = Vec::new();
        let mut j: usize = 0;
        while j < dst_size
            invariant
                j <= dst_size,
                bwd@.len() == j,
                forall|k: int| 0 <= k < j ==> bwd@[k] == 0,
            decreases dst_size - j,
        {
            bwd.push(0);
            j = j + 1;
        }
        self.src_to_dst = fwd;
        self.dst_to_src = bwd;
    }

    pub fn src_size(&self) -> (r: usize)
        ensures
            r == self.spec_src_size(),
    {
        self.src_to_dst.len()
    }

    pub fn dst_size(&self) -> (r: usize)
        ensures
            r == self.spec_dst_size(),
    {
        self.dst_to_src.len()
    }

    pub fn is_src(&self, s: usize) -> (r: bool)
        requires
            s < self.spec_src_size(),
        ensures
            r == self.spec_is_src(s as int),
    {
        self.src_to_dst[s] != 0
    }

    pub fn is_dst(&self, d: usize) -> (r: bool)
        requires
            d < self.spec_dst_size(),
        ensures
            r == self.spec_is_dst(d as int),
    {
        self.dst_to_src[d] != 0
    }

    pub fn get_dst(&self, s: usize) -> (r: usize)
        requires
            self.wf(),
            self.spec_is_src(s as int),
        ensures
            r == self.spec_get_dst(s as int),
            self.spec_is_dst(r as int),
            self.spec_get_src(r as int) == s,
    {
        self.src_to_dst[s] - 1
    }

    pub fn get_src(&self, d: usize) -> (r: usize)
        requires
            self.wf(),
            self.spec_is_dst(d as int),
        ensures
            r == self.spec_get_src(d as int),
            self.spec_is_src(r as int),
            self.spec_get_dst(r as int) == d,
    {
        self.dst_to_src[d] - 1
    }

    /// Record the pair `(src, dst)`. Both endpoints must be unmapped, so a
    /// link never overwrites an earlier, higher-confidence link.
    pub fn link(&mut self, src: usize, dst: usize)
        requires
            old(self).wf(),
            src < old(self).spec_src_size(),
            dst < old(self).spec_dst_size(),
            !old(self).spec_is_src(src as int),
            !old(self).spec_is_dst(dst as int),
        ensures
            final(self).wf(),
            final(self).extends(old(self)),
            final(self).spec_is_src(src as int),
            final(self).spec_get_dst(src as int) == dst,
            final(self).spec_is_dst(dst as int),
            final(self).spec_get_src(dst as int) == src,
            forall|s: int|
                #[trigger] final(self).spec_is_src(s) ==> s == src || old(self).spec_is_src(s),
            forall|d: int|
                #[trigger] final(self).spec_is_dst(d) ==> d == dst || old(self).spec_is_dst(d),
    {
        let dlen = self.dst_to_src.len();
        let slen = self.src_to_dst.len();
        self.src_to_dst.set(src, dst + 1);
        self.dst_to_src.set(dst, src + 1);
        proof {
            assert forall|s: int| self.spec_is_src(s) implies {
                &&& 0 <= #[trigger] self.spec_get_dst(s) < self.dst_view().len()
                &&& self.dst_view()[self.spec_get_dst(s)] == s + 1
            } by {
                if s != src {
                    assert(old(self).spec_is_src(s));
                    assert(old(self).spec_get_dst(s) != dst);
                }
            }
            assert forall|d: int| self.spec_is_dst(d) implies {
                &&& 0 <= #[trigger] self.spec_get_src(d) < self.src_view().len()
                &&& self.src_view()[self.spec_get_src(d)] == d + 1
            } by {
                if d != dst {
                    assert(old(self).spec_is_dst(d));
                    assert(old(self).spec_get_src(d) != src);
                }
            }
        }
    }

    /// Number of linked pairs.
    pub fn len(&self) -> (r: usize)
        ensures
            r as int == Self::count_mapped(self.src_view(), self.src_view().len() as int),
    {
        let mut n: usize = 0;
        let mut i: usize = 0;
        while i < self.src_to_dst.len()
            invariant
                i <= self.src_view().len(),
                n <= i,
                n as int == Self::count_mapped(self.src_view(), i as int),
            decreases self.src_view().len() - i,
        {
            if self.src_to_dst[i] != 0 {
                n = n + 1;
            }
            i = i + 1;
        }
        n
    }

    /// How many of the first `i` source entries are mapped.
    pub open spec fn count_mapped(v: Seq<usize>, i: int) -> int
        decreases i,
    {
        if i <= 0 {
            0
        } else {
            Self::count_mapped(v, i - 1) + if v[i - 1] != 0 {
                1int
            } else {
                0int
            }
        }
    }
}

/// Extension is transitive: growing a store twice still preserves every link
/// of the first state.
pub proof fn lemma_extends_trans(a: &MappingStore, b: &MappingStore, c: &MappingStore)
    requires
        a.extends(b),
        b.extends(c),
    ensures
        a.extends(c),
{
    assert forall|s: int| c.spec_is_src(s) implies #[trigger] a.spec_is_src(s) && a.spec_get_dst(s)
        == c.spec_get_dst(s) by {
        assert(b.spec_is_src(s));
    }
    assert forall|d: int| c.spec_is_dst(d) implies #[trigger] a.spec_is_dst(d) && a.spec_get_src(d)
        == c.spec_get_src(d) by {
        assert(b.spec_is_dst(d));
    }
}

/// After any sequence of `link` calls the relation is a partial bijection:
/// two mapped source indices with the same destination are the same index,
/// and two mapped destination indices with the same source are the same index.
pub proof fn lemma_mapping_bijective(m: &MappingStore)
    requires
        m.wf(),
    ensures
        forall|s1: int, s2: int|
            m.spec_is_src(s1) && m.spec_is_src(s2) && m.spec_get_dst(s1) == m.spec_get_dst(s2)
                ==> s1 == s2,
        forall|d1: int, d2: int|
            m.spec_is_dst(d1) && m.spec_is_dst(d2) && m.spec_get_src(d1) == m.spec_get_src(d2)
                ==> d1 == d2,
{
    assert forall|s1: int, s2: int|
        m.spec_is_src(s1) && m.spec_is_src(s2) && m.spec_get_dst(s1) == m.spec_get_dst(
            s2,
        ) implies s1 == s2 by {
        assert(m.dst_view()[m.spec_get_dst(s1)] == s1 + 1);
        assert(m.dst_view()[m.spec_get_dst(s2)] == s2 + 1);
    }
    assert forall|d1: int, d2: int|
        m.spec_is_dst(d1) && m.spec_is_dst(d2) && m.spec_get_src(d1) == m.spec_get_src(
            d2,
        ) implies d1 == d2 by {
        assert(m.src_view()[m.spec_get_src(d1)] == d1 + 1);
        assert(m.src_view()[m.spec_get_src(d2)] == d2 + 1);
    }
}

} // verus!
