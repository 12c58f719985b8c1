//! The bounded optimal matcher: an exact tree alignment in the style of
//! Zhang and Shasha, bounded by key roots.
//!
//! It runs only on small subtrees. The two subtrees are re-decompressed into a
//! fresh, 1-based local index space, a key-root-bounded dynamic program
//! computes forest distances, and a backtracking walk turns them into aligned
//! node pairs. Deletion and insertion cost one; an update costs nothing
//! between identical (kind, label) nodes, one between nodes of the same kind,
//! and is barred between nodes of different kinds. The caller remaps local
//! indices to global arena positions and merges the pairs.

use crate::complete_post_order::CompletePostOrder;
use crate::label_store::LabelIdentifier;
use crate::node_store::{NodeIdentifier, NodeStore};
use crate::type_table::Type;
use vstd::prelude::*;

verus! {

/// Update cost barring kind-mismatched pairs from ever being chosen over
/// deletion plus insertion.
pub const FORBIDDEN_COST: u64 = 0x1_0000_0000;

/// A subtree re-decompressed for the exact matcher: per node its leftmost
/// leaf, kind and label, plus the key roots, all in local post order.
pub struct ZsTree {
    origs: Vec<NodeIdentifier>,
    llds: Vec<usize>,
    kinds: Vec<Type>,
    labels: Vec<Option<LabelIdentifier>>,
    kr: Vec<usize>,
}

impl ZsTree {
    pub closed spec fn origs_view(&self) -> Seq<NodeIdentifier> {
        self.origs@
    }

    pub closed spec fn llds_view(&self) -> Seq<usize> {
        self.llds@
    }

    pub closed spec fn kinds_view(&self) -> Seq<Type> {
        self.kinds@
    }

    pub closed spec fn labels_view(&self) -> Seq<Option<LabelIdentifier>> {
        self.labels@
    }

    pub closed spec fn kr_view(&self) -> Seq<usize> {
        self.kr@
    }

    pub open spec fn spec_len(&self) -> nat {
        self.llds_view().len()
    }

    pub open spec fn wf(&self) -> bool {
        let n = self.spec_len() as int;
        &&& n >= 1
        &&& self.origs_view().len() == n
        &&& self.kinds_view().len() == n
        &&& self.labels_view().len() == n
        &&& forall|c: int| 0 <= c < n ==> #[trigger] self.llds_view()[c] <= c
        &&& forall|x: int, y: int|
            #![trigger self.llds_view()[x], self.llds_view()[y]]
            0 <= x < n && self.llds_view()[x] <= y <= x ==> self.llds_view()[x]
                <= self.llds_view()[y]
        &&& forall|m: int| 0 <= m < self.kr_view().len() ==> #[trigger] self.kr_view()[m] < n
    }

    /// Re-decompress the subtree of `root` into a fresh local arena: per
    /// local node the stored identifier it stands for, with that node's kind
    /// and label, and a local leaf exactly where the stored node is childless.
    #[verifier::loop_isolation(false)]
    pub fn new(store: &NodeStore, root: NodeIdentifier) -> (r: ZsTree)
        requires
            store.wf(),
            root < store.spec_len(),
        ensures
            r.wf(),
            r.origs_view()[r.spec_len() - 1] == root,
            forall|i: int|
                0 <= i < r.spec_len() ==> (#[trigger] r.origs_view()[i]) < store.spec_len(),
            forall|i: int|
                0 <= i < r.spec_len() ==> (#[trigger] r.kinds_view()[i])
                    == store.records_view()[r.origs_view()[i] as int].kind,
            forall|i: int|
                0 <= i < r.spec_len() ==> (#[trigger] r.labels_view()[i])
                    == store.records_view()[r.origs_view()[i] as int].label,
            forall|i: int|
                0 <= i < r.spec_len() ==> ((#[trigger] r.llds_view()[i]) == i
                    <==> store.records_view()[r.origs_view()[i] as int].spec_children_ns().len()
                    == 0),
    {
        let arena = CompletePostOrder::new(store, root);
        let n = arena.len();
        let mut origs: Vec<NodeIdentifier> = Vec::new();
        let mut llds: Vec<usize> = Vec::new();
        let mut kinds: Vec<Type> = Vec::new();
        let mut labels: Vec<Option<LabelIdentifier>> = Vec::new();
        let mut i: usize = 0;
        while i < n
            invariant
                i <= n,
                n == arena.spec_len(),
                arena.wf(),
                arena.consistent_with(store),
                arena.orig_view()[n - 1] == root,
                store.wf(),
                origs@.len() == i,
                llds@.len() == i,
                kinds@.len() == i,
                labels@.len() == i,
                forall|c: int| 0 <= c < i ==> #[trigger] origs@[c] == arena.orig_view()[c],
                forall|c: int| 0 <= c < i ==> #[trigger] llds@[c] == arena.llds_view()[c],
                forall|c: int|
                    0 <= c < i ==> (#[trigger] kinds@[c])
                        == store.records_view()[arena.orig_view()[c] as int].kind,
                forall|c: int|
                    0 <= c < i ==> (#[trigger] labels@[c])
                        == store.records_view()[arena.orig_view()[c] as int].label,
            decreases n - i,
        {
            origs.push(arena.original(i));
            llds.push(arena.lld(i));
            let o = arena.original(i);
            proof {
                assert(arena.orig_view()[i as int] < store.spec_len());
            }
            let rec = store.resolve(o);
            kinds.push(rec.kind);
            labels.push(match &rec.label {
                Some(l) => Some(*l),
                None => None,
            });
            i = i + 1;
        }
        let mut kr: Vec<usize> = Vec::new();
        let mut m: usize = 0;
        while m < arena.leaf_count()
            invariant
                arena.wf(),
                n == arena.spec_len(),
                arena.kr_wf(),
                m <= arena.kr_view().len(),
                kr@.len() == m,
                forall|q: int| 0 <= q < m ==> #[trigger] kr@[q] < n,
            decreases arena.kr_view().len() - m,
        {
            kr.push(arena.kr(m));
            m = m + 1;
        }
        ZsTree { origs, llds, kinds, labels, kr }
    }

    /// The stored node behind the 1-based local node `i`.
    pub fn original1(&self, i: usize) -> (r: NodeIdentifier)
        requires
            self.wf(),
            1 <= i <= self.spec_len(),
        ensures
            r == self.origs_view()[i - 1],
    {
        self.origs[i - 1]
    }

    /// The 1-based leftmost leaf of the 1-based node `i`.
    pub fn lld1(&self, i: usize) -> (r: usize)
        requires
            self.wf(),
            1 <= i <= self.spec_len(),
        ensures
            r == self.llds_view()[i - 1] + 1,
            1 <= r <= i,
    {
        self.llds[i - 1] + 1
    }

    pub fn len(&self) -> (r: usize)
        ensures
            r == self.spec_len(),
    {
        self.llds.len()
    }

    /// The cost of turning the 1-based node `i` of `self` into the 1-based
    /// node `j` of `o`: free for identical kind and label, one within a kind,
    /// barred across kinds.
    pub fn update_cost(&self, i: usize, o: &ZsTree, j: usize) -> (r: u64)
        requires
            self.wf(),
            o.wf(),
            1 <= i <= self.spec_len(),
            1 <= j <= o.spec_len(),
        ensures
            r <= FORBIDDEN_COST,
            self.kinds_view()[i - 1] == o.kinds_view()[j - 1] ==> r <= 1,
    {
        if self.kinds[i - 1] == o.kinds[j - 1] {
            let same_label = match (&self.labels[i - 1], &o.labels[j - 1]) {
                (Some(a), Some(b)) => *a == *b,
                (None, None) => true,
                _ => false,
            };
            if same_label {
                0
            } else {
                1
            }
        } else {
            FORBIDDEN_COST
        }
    }
}

/// A flat row-major matrix of distances.
struct Mat {
    data: Vec<u64>,
    rows: usize,
    cols: usize,
}

impl Mat {
    spec fn wf(&self) -> bool {
        self.data@.len() == self.rows * self.cols
    }

    #[verifier::opaque]
    spec fn at(&self, r: int, c: int) -> u64 {
        self.data@[r * self.cols + c]
    }

    /// Every entry is at most `b`.
    spec fn bounded(&self, b: int) -> bool {
        forall|k: int| 0 <= k < self.data@.len() ==> (#[trigger] self.data@[k]) <= b
    }

    #[verifier::loop_isolation(false)]
    fn new(rows: usize, cols: usize) -> (r: Mat)
        requires
            rows * cols <= usize::MAX,
        ensures
            r.wf(),
            r.rows == rows,
            r.cols == cols,
            r.bounded(0),
    {
        proof {
            lemma_mul_nonneg(rows as int, cols as int);
        }
        let total = rows * cols;
        let mut data: Vec<u64> = Vec::new();
        let mut k: usize = 0;
        while k < total
            invariant
                k <= total,
                data@.len() == k,
                forall|q: int| 0 <= q < k ==> (#[trigger] data@[q]) == 0,
            decreases total - k,
        {
            data.push(0);
            k = k + 1;
        }
        Mat { data, rows, cols }
    }

    fn get(&self, r: usize, c: usize) -> (v: u64)
        requires
            self.wf(),
            r < self.rows,
            c < self.cols,
        ensures
            v == self.at(r as int, c as int),
            forall|b: int| self.bounded(b) ==> v <= b,
    {
        proof {
            reveal(Mat::at);
            lemma_rc_index(r as int, c as int, self.rows as int, self.cols as int);
            assert(self.data.len() == self.data@.len());
        }
        self.data[r * self.cols + c]
    }

    fn set(&mut self, r: usize, c: usize, v: u64)
        requires
            old(self).wf(),
            r < old(self).rows,
            c < old(self).cols,
        ensures
            final(self).wf(),
            final(self).rows == old(self).rows,
            final(self).cols == old(self).cols,
            final(self).at(r as int, c as int) == v,
            forall|r2: int, c2: int|
                0 <= r2 < final(self).rows && 0 <= c2 < final(self).cols && !(r2 == r && c2 == c)
                    ==> final(self).at(r2, c2) == old(self).at(r2, c2),
            forall|b: int| old(self).bounded(b) && v <= b ==> final(self).bounded(b),
    {
        proof {
            reveal(Mat::at);
            lemma_rc_index(r as int, c as int, self.rows as int, self.cols as int);
            assert(self.data.len() == self.data@.len());
        }
        self.data.set(r * self.cols + c, v);
        proof {
            reveal(Mat::at);
            assert forall|r2: int, c2: int|
                0 <= r2 < self.rows && 0 <= c2 < self.cols && !(r2 == r && c2
                    == c) implies self.at(r2, c2) == old(self).at(r2, c2) by {
                lemma_rc_index(r2, c2, self.rows as int, self.cols as int);
                lemma_rc_distinct(r2, c2, r as int, c as int, self.cols as int);
            }
        }
    }
}

proof fn lemma_mul_nonneg(a: int, b: int)
    requires
        0 <= a,
        0 <= b,
    ensures
        0 <= a * b,
{
    assert(0 <= a * b) by (nonlinear_arith)
        requires
            0 <= a,
            0 <= b,
    ;
}

/// Row-major indexing stays within a `rows * cols` buffer.
proof fn lemma_rc_index(r: int, c: int, rows: int, cols: int)
    requires
        0 <= r < rows,
        0 <= c < cols,
    ensures
        0 <= r * cols + c < rows * cols,
{
    assert(0 <= r * cols + c < rows * cols) by (nonlinear_arith)
        requires
            0 <= r < rows,
            0 <= c < cols,
    ;
}

/// Distinct cells have distinct row-major indices.
proof fn lemma_rc_distinct(r1: int, c1: int, r2: int, c2: int, cols: int)
    requires
        0 <= c1 < cols,
        0 <= c2 < cols,
        0 <= r1,
        0 <= r2,
        !(r1 == r2 && c1 == c2),
    ensures
        r1 * cols + c1 != r2 * cols + c2,
{
    assert(r1 * cols + c1 != r2 * cols + c2) by (nonlinear_arith)
        requires
            0 <= c1 < cols,
            0 <= c2 < cols,
            0 <= r1,
            0 <= r2,
            !(r1 == r2 && c1 == c2),
    ;
}

fn min3(a: u64, b: u64, c: u64) -> (r: u64)
    ensures
        r <= a && r <= b && r <= c,
        r == a || r == b || r == c,
{
    let m = if a <= b {
        a
    } else {
        b
    };
    if m <= c {
        m
    } else {
        c
    }
}

/// The exact matcher: the aligned pairs of two small subtrees, in local
/// 1-based post-order indices.
pub struct ZsMatcher {
    pub mappings: Vec<(usize, usize)>,
}

/// Fill the forest-distance matrix for the key-root pair `(i, j)` and record
/// tree distances of subtree pairs rooted inside its region.
#[verifier::loop_isolation(false)]
fn forestdist(src: &ZsTree, dst: &ZsTree, i: usize, j: usize, fd: &mut Mat, td: &mut Mat)
    requires
        src.wf(),
        dst.wf(),
        1 <= i <= src.spec_len(),
        1 <= j <= dst.spec_len(),
        old(fd).wf(),
        old(fd).rows == src.spec_len() + 1,
        old(fd).cols == dst.spec_len() + 1,
        old(td).wf(),
        old(td).rows == src.spec_len() + 1,
        old(td).cols == dst.spec_len() + 1,
        old(fd).bounded(src.spec_len() + dst.spec_len() as int),
        old(td).bounded(src.spec_len() + dst.spec_len() as int),
        src.spec_len() + dst.spec_len() < 0x1000_0000_0000,
    ensures
        final(fd).wf(),
        final(fd).rows == old(fd).rows,
        final(fd).cols == old(fd).cols,
        final(td).wf(),
        final(td).rows == old(td).rows,
        final(td).cols == old(td).cols,
        final(fd).bounded(src.spec_len() + dst.spec_len() as int),
        final(td).bounded(src.spec_len() + dst.spec_len() as int),
{
    let ghost maxv = src.spec_len() + dst.spec_len();
    let p0 = src.lld1(i);
    let q0 = dst.lld1(j);
    fd.set(p0 - 1, q0 - 1, 0);
    let mut di = p0;
    while di <= i
        invariant
            p0 <= di <= i + 1,
            fd.wf(),
            fd.rows == src.spec_len() + 1,
            fd.cols == dst.spec_len() + 1,
            fd.bounded(maxv as int),
            forall|d: int| p0 - 1 <= d < di ==> #[trigger] fd.at(d, q0 - 1) == d - (p0 - 1),
        decreases i + 1 - di,
    {
        let v = fd.get(di - 1, q0 - 1) + 1;
        fd.set(di, q0 - 1, v);
        di = di + 1;
    }
    let mut dj = q0;
    while dj <= j
        invariant
            q0 <= dj <= j + 1,
            fd.wf(),
            fd.rows == src.spec_len() + 1,
            fd.cols == dst.spec_len() + 1,
            fd.bounded(maxv as int),
            forall|d: int| p0 - 1 <= d <= i ==> #[trigger] fd.at(d, q0 - 1) == d - (p0 - 1),
            forall|c: int| q0 - 1 <= c < dj ==> #[trigger] fd.at(p0 - 1, c) == c - (q0 - 1),
        decreases j + 1 - dj,
    {
        let v = fd.get(p0 - 1, dj - 1) + 1;
        fd.set(p0 - 1, dj, v);
        dj = dj + 1;
    }
    let mut di = p0;
    while di <= i
        invariant
            p0 <= di <= i + 1,
            fd.wf(),
            fd.rows == src.spec_len() + 1,
            fd.cols == dst.spec_len() + 1,
            td.wf(),
            td.rows == src.spec_len() + 1,
            td.cols == dst.spec_len() + 1,
            fd.bounded(maxv as int),
            td.bounded(maxv as int),
            forall|d: int| p0 - 1 <= d <= i ==> #[trigger] fd.at(d, q0 - 1) == d - (p0 - 1),
            forall|c: int| q0 - 1 <= c <= j ==> #[trigger] fd.at(p0 - 1, c) == c - (q0 - 1),
            forall|c: int|
                q0 - 1 <= c <= j ==> #[trigger] fd.at(di - 1, c) <= (di - 1 - (p0 - 1)) + (c - (q0
                    - 1)),
        decreases i + 1 - di,
    {
        let mut dj = q0;
        while dj <= j
            invariant
                p0 <= di <= i,
                q0 <= dj <= j + 1,
                fd.wf(),
                fd.rows == src.spec_len() + 1,
                fd.cols == dst.spec_len() + 1,
                td.wf(),
                td.rows == src.spec_len() + 1,
                td.cols == dst.spec_len() + 1,
                fd.bounded(maxv as int),
                td.bounded(maxv as int),
                forall|d: int| p0 - 1 <= d <= i ==> #[trigger] fd.at(d, q0 - 1) == d - (p0 - 1),
                forall|c: int| q0 - 1 <= c <= j ==> #[trigger] fd.at(p0 - 1, c) == c - (q0 - 1),
                forall|c: int|
                    dj <= c <= j ==> #[trigger] fd.at(di - 1, c) <= (di - 1 - (p0 - 1)) + (c - (q0
                        - 1)),
                forall|c: int|
                    q0 - 1 <= c < dj ==> #[trigger] fd.at(di as int, c) <= (di - (p0 - 1)) + (c - (
                    q0 - 1)),
            decreases j + 1 - dj,
        {
            let del = fd.get(di - 1, dj) + 1;
            let ins = fd.get(di, dj - 1) + 1;
            let src_lld = src.lld1(di);
            let dst_lld = dst.lld1(dj);
            proof {
                // the leftmost leaves of region members stay inside the region
                assert(src.llds_view()[i - 1] <= di - 1 <= i - 1);
                assert(src.llds_view()[i - 1] <= src.llds_view()[di - 1]);
                assert(dst.llds_view()[j - 1] <= dst.llds_view()[dj - 1]);
            }
            if src_lld == p0 && dst_lld == q0 {
                let upd = fd.get(di - 1, dj - 1) + src.update_cost(di, dst, dj);
                let v = min3(del, ins, upd);
                proof {
                    assert(v <= del);
                }
                td.set(di, dj, v);
                fd.set(di, dj, v);
            } else {
                let tdv = td.get(di, dj);
                let base = fd.get(src_lld - 1, dst_lld - 1);
                let v = min3(del, ins, base + tdv);
                proof {
                    assert(v <= del);
                }
                fd.set(di, dj, v);
            }
            dj = dj + 1;
        }
        di = di + 1;
    }
}

impl ZsMatcher {
    /// Run the exact alignment over two re-decompressed subtrees. The
    /// resulting pairs use 1-based local post-order indices of either side.
    #[verifier::loop_isolation(false)]
    pub fn match_with(src_arena: ZsTree, dst_arena: ZsTree) -> (r: ZsMatcher)
        requires
            src_arena.wf(),
            dst_arena.wf(),
        ensures
            forall|p: int|
                0 <= p < r.mappings@.len() ==> 1 <= (#[trigger] r.mappings@[p]).0
                    <= src_arena.spec_len() && 1 <= r.mappings@[p].1 <= dst_arena.spec_len(),
    {
        let src = &src_arena;
        let dst = &dst_arena;
        let m = src.len();
        let n = dst.len();
        if m >= 0x8000 || n >= 0x8000 {
            // past any sensible size threshold; the caller treats an empty
            // alignment as "no extra pairs"
            return ZsMatcher { mappings: Vec::new() };
        }
        proof {
            lemma_mul_le_both(m as int + 1, n as int + 1, 0x8000, 0x8000);
        }
        let mut fd = Mat::new(m + 1, n + 1);
        let mut td = Mat::new(m + 1, n + 1);
        // forest distances for every key-root pair, ascending
        let mut ki: usize = 0;
        while ki < src.kr_len()
            invariant
                fd.wf(),
                fd.rows == m + 1,
                fd.cols == n + 1,
                td.wf(),
                td.rows == m + 1,
                td.cols == n + 1,
                fd.bounded(m as int + n as int),
                td.bounded(m as int + n as int),
            decreases src.kr_view().len() - ki,
        {
            let i = src.kr_at(ki);
            let mut kj: usize = 0;
            while kj < dst.kr_len()
                invariant
                    fd.wf(),
                    fd.rows == m + 1,
                    fd.cols == n + 1,
                    td.wf(),
                    td.rows == m + 1,
                    td.cols == n + 1,
                    fd.bounded(m as int + n as int),
                    td.bounded(m as int + n as int),
                    1 <= i <= m,
                decreases dst.kr_view().len() - kj,
            {
                let j = dst.kr_at(kj);
                forestdist(src, dst, i, j, &mut fd, &mut td);
                kj = kj + 1;
            }
            ki = ki + 1;
        }
        // backtrack the alignment, region by region
        let mut pairs: Vec<(usize, usize)> = Vec::new();
        let mut stack: Vec<(usize, usize)> = Vec::new();
        stack.push((m, n));
        let mut first = true;
        let mut fuel: u64 = ((m as u64) + 1) * ((n as u64) + 1) + 1;
        while stack.len() > 0 && fuel > 0
            invariant
                fd.wf(),
                fd.rows == m + 1,
                fd.cols == n + 1,
                td.wf(),
                td.rows == m + 1,
                td.cols == n + 1,
                fd.bounded(m as int + n as int),
                td.bounded(m as int + n as int),
                forall|q: int|
                    0 <= q < stack@.len() ==> 1 <= (#[trigger] stack@[q]).0 <= m && 1
                        <= stack@[q].1 <= n,
                forall|p: int|
                    0 <= p < pairs@.len() ==> 1 <= (#[trigger] pairs@[p]).0 <= m && 1
                        <= pairs@[p].1 <= n,
            decreases fuel,
        {
            fuel = fuel - 1;
            let top = stack.pop();
            let (last_row, last_col) = match top {
                Some(p) => p,
                None => { (1, 1) },
            };
            if !first {
                forestdist(src, dst, last_row, last_col, &mut fd, &mut td);
            }
            first = false;
            let first_row = src.lld1(last_row) - 1;
            let first_col = dst.lld1(last_col) - 1;
            let mut row = last_row;
            let mut col = last_col;
            while row > first_row || col > first_col
                invariant
                    first_row <= row <= last_row,
                    first_col <= col <= last_col,
                    last_row <= m,
                    last_col <= n,
                    first_row == src.llds_view()[last_row - 1],
                    first_col == dst.llds_view()[last_col - 1],
                    fd.wf(),
                    fd.rows == m + 1,
                    fd.cols == n + 1,
                    td.wf(),
                    td.rows == m + 1,
                    td.cols == n + 1,
                    fd.bounded(m as int + n as int),
                    td.bounded(m as int + n as int),
                    forall|q: int|
                        0 <= q < stack@.len() ==> 1 <= (#[trigger] stack@[q]).0 <= m && 1
                            <= stack@[q].1 <= n,
                    forall|p: int|
                        0 <= p < pairs@.len() ==> 1 <= (#[trigger] pairs@[p]).0 <= m && 1
                            <= pairs@[p].1 <= n,
                decreases row + col,
            {
                if row > first_row && fd.get(row - 1, col) + 1 == fd.get(row, col) {
                    row = row - 1;
                } else if col > first_col && fd.get(row, col - 1) + 1 == fd.get(row, col) {
                    col = col - 1;
                } else if row > first_row && col > first_col {
                    let row_lld = src.lld1(row);
                    let col_lld = dst.lld1(col);
                    proof {
                        assert(src.llds_view()[last_row - 1] <= row - 1 <= last_row - 1);
                        assert(src.llds_view()[last_row - 1] <= src.llds_view()[row - 1]);
                        assert(dst.llds_view()[last_col - 1] <= dst.llds_view()[col - 1]);
                    }
                    if row_lld == first_row + 1 && col_lld == first_col + 1 {
                        pairs.push((row, col));
                        row = row - 1;
                        col = col - 1;
                    } else {
                        stack.push((row, col));
                        row = row_lld - 1;
                        col = col_lld - 1;
                    }
                } else if row > first_row {
                    row = row - 1;
                } else {
                    col = col - 1;
                }
            }
        }
        ZsMatcher { mappings: pairs }
    }
}

impl ZsTree {
    pub fn kr_len(&self) -> (r: usize)
        ensures
            r == self.kr_view().len(),
    {
        self.kr.len()
    }

    /// The 1-based key root at a position of the ascending key-root list.
    pub fn kr_at(&self, q: usize) -> (r: usize)
        requires
            self.wf(),
            q < self.kr_view().len(),
        ensures
            1 <= r <= self.spec_len(),
            r == self.kr_view()[q as int] + 1,
    {
        proof {
            assert(self.llds.len() == self.llds@.len());
        }
        self.kr[q] + 1
    }
}

proof fn lemma_mul_le_both(a: int, b: int, amax: int, bmax: int)
    requires
        0 <= a <= amax,
        0 <= b <= bmax,
    ensures
        a * b <= amax * bmax,
{
    assert(a * b <= amax * bmax) by (nonlinear_arith)
        requires
            0 <= a <= amax,
            0 <= b <= bmax,
    ;
}

} // verus!
