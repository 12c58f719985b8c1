//! The decompressed tree store: a per-diff, integer-indexed arena over one
//! root of the node store.
//!
//! The store itself carries no parent pointers and no positions, so each diff
//! first materialises the chosen root into this arena. A traversal assigns
//! strictly increasing post-order indices — every child is numbered before its
//! parent and the root gets the largest index — and keeps, per index, the
//! original node identifier, the parent index, and the leftmost leaf
//! descendant. Post-order numbering makes every subtree's descendants one
//! contiguous interval `[first_descendant(x), x)`, which is what makes
//! subtree sizes and containment tests constant-time.
//!
//! Diff arenas are built over the semantic-only (no-space) child view of the
//! store, so whitespace nodes never become matcher candidates and never count
//! toward similarity scores; position reconstruction uses arenas over the
//! verbatim spaced view instead, where whitespace runs are ordinary siblings.

use crate::node_store::{NodeIdentifier, NodeStore};
use vstd::prelude::*;

verus! {

/// The per-diff post-order arena, with the derived key-root set.
pub struct CompletePostOrder {
    /// `original[idD]`: the stored node behind each arena index.
    id_compressed: Vec<NodeIdentifier>,
    /// `parent[idD]`: the parent's arena index; the root points to itself.
    id_parent: Vec<usize>,
    /// `first_descendant[idD]`: the leftmost leaf of each subtree, itself for
    /// a leaf.
    llds: Vec<usize>,
    /// The key roots, ascending: indices with no larger index sharing the
    /// same leftmost leaf descendant.
    kr: Vec<usize>,
}

impl CompletePostOrder {
    pub closed spec fn orig_view(&self) -> Seq<NodeIdentifier> {
        self.id_compressed@
    }

    pub closed spec fn parent_view(&self) -> Seq<usize> {
        self.id_parent@
    }

    pub closed spec fn llds_view(&self) -> Seq<usize> {
        self.llds@
    }

    pub closed spec fn kr_view(&self) -> Seq<usize> {
        self.kr@
    }

    pub open spec fn spec_len(&self) -> nat {
        self.orig_view().len()
    }

    /// The post-order arena invariant.
    ///
    /// - every non-root index is smaller than its parent's index, and the
    ///   root, at the last index, is its own parent;
    /// - each index's leftmost leaf descendant is at or below it, and lies at
    ///   or above its parent's;
    /// - every index inside the interval `[first_descendant(x), x)` has its
    ///   parent inside `(y, x]`: intervals are never entered from outside;
    /// - indices inside a subtree's interval keep their own intervals inside
    ///   it.
    pub open spec fn wf(&self) -> bool {
        let n = self.spec_len() as int;
        &&& self.parent_view().len() == n
        &&& self.llds_view().len() == n
        &&& n >= 1
        &&& self.parent_view()[n - 1] == n - 1
        &&& self.llds_view()[n - 1] == 0
        &&& forall|c: int| 0 <= c < n - 1 ==> c < #[trigger] self.parent_view()[c] < n
        &&& forall|c: int| 0 <= c < n ==> #[trigger] self.llds_view()[c] <= c
        &&& forall|c: int|
            0 <= c < n - 1 ==> self.llds_view()[#[trigger] self.parent_view()[c] as int]
                <= self.llds_view()[c]
        &&& forall|x: int, y: int|
            #![trigger self.llds_view()[x], self.parent_view()[y]]
            0 <= x < n && self.llds_view()[x] <= y < x ==> y < self.parent_view()[y] <= x
        &&& forall|x: int, y: int|
            #![trigger self.llds_view()[x], self.llds_view()[y]]
            0 <= x < n && self.llds_view()[x] <= y <= x ==> self.llds_view()[x]
                <= self.llds_view()[y]
    }

    /// `y` is a proper descendant of `x`: following parents from `y` reaches
    /// `x`.
    pub open spec fn is_desc(&self, y: int, x: int) -> bool
        decreases x - y,
    {
        if 0 <= y && y < x {
            if self.parent_view()[y] == x {
                true
            } else if y < self.parent_view()[y] < x {
                self.is_desc(self.parent_view()[y] as int, x)
            } else {
                false
            }
        } else {
            false
        }
    }

    pub fn len(&self) -> (r: usize)
        ensures
            r == self.spec_len(),
    {
        self.id_compressed.len()
    }

    /// The root's index: the largest one.
    pub fn root(&self) -> (r: usize)
        requires
            self.wf(),
        ensures
            r == self.spec_len() - 1,
    {
        self.id_compressed.len() - 1
    }

    /// The stored node behind an arena index.
    pub fn original(&self, id: usize) -> (r: NodeIdentifier)
        requires
            id < self.spec_len(),
        ensures
            r == self.orig_view()[id as int],
    {
        self.id_compressed[id]
    }

    /// The stored node behind an arena index.
    pub fn tree(&self, id: usize) -> (r: NodeIdentifier)
        requires
            id < self.spec_len(),
        ensures
            r == self.orig_view()[id as int],
    {
        self.id_compressed[id]
    }

    /// The parent of `id`, `None` for the root.
    pub fn parent(&self, id: usize) -> (r: Option<usize>)
        requires
            self.wf(),
            id < self.spec_len(),
        ensures
            id < self.spec_len() - 1 ==> r == Some(self.parent_view()[id as int]),
            id == self.spec_len() - 1 ==> r is None,
    {
        if id == self.id_compressed.len() - 1 {
            None
        } else {
            Some(self.id_parent[id])
        }
    }

    pub fn has_parent(&self, id: usize) -> (r: bool)
        requires
            self.wf(),
            id < self.spec_len(),
        ensures
            r == (id < self.spec_len() - 1),
    {
        id != self.id_compressed.len() - 1
    }

    /// The leftmost leaf descendant of `id`, `id` itself for a leaf.
    pub fn lld(&self, id: usize) -> (r: usize)
        requires
            self.wf(),
            id < self.spec_len(),
        ensures
            r == self.llds_view()[id as int],
            r <= id,
    {
        self.llds[id]
    }

    /// The leftmost leaf descendant of `id`: the first index of the interval
    /// holding exactly the descendants of `id`.
    pub fn first_descendant(&self, id: usize) -> (r: usize)
        requires
            self.wf(),
            id < self.spec_len(),
        ensures
            r == self.llds_view()[id as int],
            r <= id,
    {
        self.llds[id]
    }

    /// How many proper descendants `id` has: the width of its interval.
    pub fn descendants_count(&self, id: usize) -> (r: usize)
        requires
            self.wf(),
            id < self.spec_len(),
        ensures
            r == id - self.llds_view()[id as int],
    {
        id - self.llds[id]
    }

    /// The contiguous interval of the descendants of `id`: every index in
    /// `[first_descendant(id), id)` is a descendant and no other is.
    pub fn descendants_range(&self, id: usize) -> (r: (usize, usize))
        requires
            self.wf(),
            id < self.spec_len(),
        ensures
            r.0 == self.llds_view()[id as int],
            r.1 == id,
            forall|y: int| r.0 <= y < r.1 ==> self.is_desc(y, id as int),
            forall|y: int| 0 <= y < self.spec_len() && self.is_desc(y, id as int) ==> r.0 <= y < r.1,
    {
        proof {
            lemma_contiguous_descendants(self, id as int);
        }
        (self.llds[id], id)
    }

    /// The descendants of `id`, ascending: exactly the indices of its
    /// interval.
    pub fn descendants(&self, id: usize) -> (r: Vec<usize>)
        requires
            self.wf(),
            id < self.spec_len(),
        ensures
            r@.len() == id - self.llds_view()[id as int],
            forall|k: int|
                0 <= k < r@.len() ==> r@[k] == self.llds_view()[id as int] + k && self.is_desc(
                    #[trigger] r@[k] as int,
                    id as int,
                ),
    {
        proof {
            lemma_contiguous_descendants(self, id as int);
        }
        let mut r: Vec<usize> = Vec::new();
        let mut y: usize = self.llds[id];
        while y < id
            invariant
                self.llds_view()[id as int] <= y <= id,
                r@.len() == y - self.llds_view()[id as int],
                forall|k: int| 0 <= k < r@.len() ==> r@[k] == self.llds_view()[id as int] + k,
            decreases id - y,
        {
            r.push(y);
            y = y + 1;
        }
        proof {
            assert forall|k: int| 0 <= k < r@.len() implies self.is_desc(
                #[trigger] r@[k] as int,
                id as int,
            ) by {
                lemma_contiguous_descendants(self, id as int);
            }
        }
        r
    }

    /// The number of leaves, which is also the number of key roots: each leaf
    /// is the leftmost leaf of exactly one key root.
    pub fn leaf_count(&self) -> (r: usize)
        ensures
            r == self.kr_view().len(),
    {
        self.kr.len()
    }

    /// The key root at a position of the ascending key-root list.
    pub fn kr(&self, x: usize) -> (r: usize)
        requires
            x < self.kr_view().len(),
        ensures
            r == self.kr_view()[x as int],
    {
        self.kr[x]
    }

    /// The left sibling of `c`, where `p_lld` is the leftmost leaf of `c`'s
    /// parent: the root of the sibling subtree ending just before `c`'s
    /// interval, if `c`'s interval does not open the parent's.
    pub fn lsib(&self, c: usize, p_lld: usize) -> (r: Option<usize>)
        requires
            self.wf(),
            c < self.spec_len(),
        ensures
            self.llds_view()[c as int] > p_lld ==> r == Some((self.llds_view()[c as int] - 1) as usize),
            self.llds_view()[c as int] <= p_lld ==> r is None,
    {
        if self.llds[c] > p_lld {
            Some(self.llds[c] - 1)
        } else {
            None
        }
    }
}

/// The forest shape of an arena under construction: a prefix of finished
/// subtrees whose roots still point to themselves.
pub open spec fn forest_wf(parent: Seq<usize>, llds: Seq<usize>) -> bool {
    let n = parent.len() as int;
    &&& llds.len() == n
    &&& forall|c: int| 0 <= c < n ==> #[trigger] llds[c] <= c
    &&& forall|c: int|
        0 <= c < n ==> #[trigger] parent[c] == c || (c < parent[c] < n && llds[parent[c] as int]
            <= llds[c])
    &&& forall|x: int, y: int|
        #![trigger llds[x], parent[y]]
        0 <= x < n && llds[x] <= y < x ==> y < parent[y] <= x
    &&& forall|x: int, y: int|
        #![trigger llds[x], llds[y]]
        0 <= x < n && llds[x] <= y <= x ==> llds[x] <= llds[y]
}

/// The slots `[s, e)` hold one finished subtree: its root at `e - 1` spans
/// from `s`, everything below it is parented inside the block, and no interval
/// of the block reaches below `s`.
pub open spec fn closed_block(parent: Seq<usize>, llds: Seq<usize>, s: int, e: int) -> bool {
    &&& 0 <= s < e <= parent.len()
    &&& llds[e - 1] == s
    &&& parent[e - 1] == e - 1
    &&& forall|j: int| s <= j < e - 1 ==> j < #[trigger] parent[j] <= e - 1
    &&& forall|j: int| s <= j < e ==> s <= #[trigger] llds[j]
}

/// Arena indices all stand for stored nodes.
pub open spec fn orig_bound(orig: Seq<usize>, store_len: nat) -> bool {
    forall|i: int| 0 <= i < orig.len() ==> #[trigger] orig[i] < store_len
}

/// An arena index is a leaf exactly when the stored node behind it has no
/// semantic children.
pub open spec fn leaf_ok(store: &NodeStore, orig: Seq<usize>, llds: Seq<usize>) -> bool {
    forall|i: int|
        0 <= i < orig.len() ==> ((#[trigger] llds[i]) == i <==> store.records_view()[orig[i] as int].spec_children_ns().len() == 0)
}

/// The child view an arena is built over: the verbatim spaced list, or the
/// semantic-only one.
pub open spec fn spec_kids(rec: &crate::node_store::NodeRecord, spaced: bool) -> Seq<usize> {
    if spaced {
        rec.children@
    } else {
        rec.spec_children_ns()
    }
}

/// An index with no larger index sharing its leftmost leaf descendant.
pub open spec fn is_kr(llds: Seq<usize>, i: int) -> bool {
    0 <= i < llds.len() && forall|j: int| i < j < llds.len() ==> llds[j] != llds[i]
}

/// Post-order invariant: every node's index exceeds all of its descendants'
/// indices — in particular each child's — and the root sits at the last
/// index, `length - 1`.
pub proof fn lemma_post_order(a: &CompletePostOrder)
    requires
        a.wf(),
    ensures
        forall|c: int| 0 <= c < a.spec_len() - 1 ==> c < #[trigger] a.parent_view()[c],
        forall|x: int, y: int|
            0 <= x < a.spec_len() && 0 <= y < a.spec_len() && #[trigger] a.is_desc(y, x) ==> y < x,
        a.parent_view()[a.spec_len() - 1] == a.spec_len() - 1,
{
    assert forall|x: int, y: int|
        0 <= x < a.spec_len() && 0 <= y < a.spec_len() && #[trigger] a.is_desc(y, x) implies y
        < x by {
        if y >= x {
            reveal_with_fuel(CompletePostOrder::is_desc, 1);
            assert(!a.is_desc(y, x));
        }
    }
}

/// A descendant's interval lies inside its ancestor's: `is_desc(y, x)`
/// forces `first_descendant(x) <= first_descendant(y)` and `y < x`.
proof fn lemma_desc_in_range(a: &CompletePostOrder, x: int, y: int)
    requires
        a.wf(),
        0 <= x < a.spec_len(),
        0 <= y < a.spec_len(),
        a.is_desc(y, x),
    ensures
        a.llds_view()[x] <= a.llds_view()[y] && y < x,
    decreases x - y,
{
    let p = a.parent_view()[y] as int;
    if p == x {
    } else {
        lemma_desc_in_range(a, x, p);
    }
}

/// Any index inside `[first_descendant(x), x)` is a descendant of `x`.
proof fn lemma_range_is_desc(a: &CompletePostOrder, x: int, y: int)
    requires
        a.wf(),
        0 <= x < a.spec_len(),
        a.llds_view()[x] <= y < x,
    ensures
        a.is_desc(y, x),
    decreases x - y,
{
    let p = a.parent_view()[y] as int;
    assert(y < p <= x);
    if p == x {
    } else {
        lemma_range_is_desc(a, x, p);
    }
}

/// How many earlier siblings the index `c` has, jumping left sibling by left
/// sibling; `p_lld` is its parent's leftmost leaf.
pub open spec fn seq_sib_rank(llds: Seq<usize>, c: int, p_lld: int) -> nat
    decreases c,
{
    if 0 <= c < llds.len() && 0 <= p_lld < llds[c] && llds[c] <= c {
        1 + seq_sib_rank(llds, llds[c] - 1, p_lld)
    } else {
        0
    }
}

/// Sibling ranks read only positions at or below `c`, so appending to the
/// arena never changes them.
proof fn lemma_rank_stable(llds1: Seq<usize>, llds2: Seq<usize>, c: int, p_lld: int)
    requires
        llds1.len() <= llds2.len(),
        forall|i: int| 0 <= i < llds1.len() ==> #[trigger] llds2[i] == llds1[i],
        c < llds1.len(),
    ensures
        seq_sib_rank(llds1, c, p_lld) == seq_sib_rank(llds2, c, p_lld),
    decreases c,
{
    if 0 <= c && 0 <= p_lld < llds1[c] && llds1[c] <= c {
        lemma_rank_stable(llds1, llds2, llds1[c] - 1, p_lld);
    }
}

/// The `m`-th finished child root of a block has sibling rank `m`: the
/// blocks sit side by side, each starting right after the previous root.
proof fn lemma_cs_rank(llds: Seq<usize>, cs: Seq<usize>, s: int, m: int)
    requires
        0 <= s,
        0 <= m < cs.len(),
        forall|m2: int| 0 <= m2 < cs.len() ==> s <= #[trigger] cs[m2] < llds.len(),
        forall|m2: int| 0 <= m2 < cs.len() ==> #[trigger] llds[cs[m2] as int] as int == if m2 == 0 {
            s
        } else {
            cs[m2 - 1] + 1
        },
        forall|m2: int| 0 <= m2 < cs.len() ==> #[trigger] llds[cs[m2] as int] <= cs[m2],
    ensures
        seq_sib_rank(llds, cs[m] as int, s) == m,
    decreases m,
{
    if m == 0 {
        assert(llds[cs[0] as int] == s);
    } else {
        lemma_cs_rank(llds, cs, s, m - 1);
        assert(llds[cs[m] as int] == cs[m - 1] + 1);
    }
}

/// Every strictly parented index in `[lo, hi)` stands for the right child of
/// its parent's record — its original is the record's child at the index's
/// sibling rank — and every internal index in the range has as many arena
/// children as its record.
#[verifier::opaque]
pub open spec fn kids_match_in(
    parent: Seq<usize>,
    llds: Seq<usize>,
    orig: Seq<usize>,
    store: &NodeStore,
    spaced: bool,
    lo: int,
    hi: int,
) -> bool {
    &&& forall|c: int|
        lo <= c < hi && (#[trigger] parent[c]) != c ==> ({
            let p = parent[c] as int;
            let kids = spec_kids(&store.records_view()[orig[p] as int], spaced);
            let rk = seq_sib_rank(llds, c, llds[p] as int) as int;
            rk < kids.len() && orig[c] == kids[rk]
        })
    &&& forall|i: int|
        lo <= i < hi && (#[trigger] llds[i]) < i ==> seq_sib_rank(llds, i - 1, llds[i] as int) + 1
            == spec_kids(&store.records_view()[orig[i] as int], spaced).len()
}

impl CompletePostOrder {
    /// Every arena index resolves, in order, to the matching child of its
    /// parent's record in the child view the arena was built over.
    pub open spec fn kids_consistent(&self, store: &NodeStore, spaced: bool) -> bool {
        kids_match_in(
            self.parent_view(),
            self.llds_view(),
            self.orig_view(),
            store,
            spaced,
            0,
            self.spec_len() as int,
        )
    }
}

/// An empty range matches trivially.
proof fn lemma_kids_match_empty(
    parent: Seq<usize>,
    llds: Seq<usize>,
    orig: Seq<usize>,
    store: &NodeStore,
    spaced: bool,
    lo: int,
    hi: int,
)
    requires
        hi <= lo,
    ensures
        kids_match_in(parent, llds, orig, store, spaced, lo, hi),
{
    reveal(kids_match_in);
}

/// Growing the arena by one finished block keeps the child correspondence of
/// everything already built: nothing at or below the old slots changed, and
/// sibling ranks read only downward.
proof fn lemma_kids_preserved(
    store: &NodeStore,
    spaced: bool,
    old_parent: Seq<usize>,
    old_llds: Seq<usize>,
    old_orig: Seq<usize>,
    new_parent: Seq<usize>,
    new_llds: Seq<usize>,
    new_orig: Seq<usize>,
    s: int,
)
    requires
        old_llds.len() == old_parent.len(),
        old_orig.len() == old_parent.len(),
        new_llds.len() == new_parent.len(),
        new_orig.len() == new_parent.len(),
        old_parent.len() <= new_parent.len(),
        forall|i: int| 0 <= i < old_parent.len() ==> #[trigger] new_parent[i] == old_parent[i],
        forall|i: int| 0 <= i < old_parent.len() ==> #[trigger] new_llds[i] == old_llds[i],
        forall|i: int| 0 <= i < old_parent.len() ==> #[trigger] new_orig[i] == old_orig[i],
        forest_wf(old_parent, old_llds),
        0 <= s,
        kids_match_in(old_parent, old_llds, old_orig, store, spaced, s, old_parent.len() as int),
        kids_match_in(
            new_parent,
            new_llds,
            new_orig,
            store,
            spaced,
            old_parent.len() as int,
            new_parent.len() as int,
        ),
    ensures
        kids_match_in(new_parent, new_llds, new_orig, store, spaced, s, new_parent.len() as int),
{
    reveal(kids_match_in);
    let lo = old_parent.len() as int;
    assert forall|c2: int|
        s <= c2 < new_parent.len() && (#[trigger] new_parent[c2]) != c2 implies ({
        let p = new_parent[c2] as int;
        let kids = spec_kids(&store.records_view()[new_orig[p] as int], spaced);
        let rk = seq_sib_rank(new_llds, c2, new_llds[p] as int) as int;
        rk < kids.len() && new_orig[c2] == kids[rk]
    }) by {
        if c2 < lo {
            assert(new_parent[c2] == old_parent[c2]);
            lemma_rank_stable(old_llds, new_llds, c2, old_llds[new_parent[c2] as int] as int);
        }
    }
    assert forall|i2: int|
        s <= i2 < new_parent.len() && (#[trigger] new_llds[i2]) < i2 implies seq_sib_rank(
        new_llds,
        i2 - 1,
        new_llds[i2] as int,
    ) + 1 == spec_kids(&store.records_view()[new_orig[i2] as int], spaced).len() by {
        if i2 < lo {
            lemma_rank_stable(old_llds, new_llds, i2 - 1, old_llds[i2] as int);
        }
    }
}

/// Closing a node keeps and completes the child correspondence: the relinked
/// child roots become exactly its record's children at their sibling ranks,
/// and the new node's own child count matches its record.
proof fn lemma_kids_finish(
    store: &NodeStore,
    spaced: bool,
    a_parent: Seq<usize>,
    a_llds: Seq<usize>,
    a_orig: Seq<usize>,
    new_parent: Seq<usize>,
    new_llds: Seq<usize>,
    new_orig: Seq<usize>,
    cs: Seq<usize>,
    s: int,
    ii: int,
    nid: NodeIdentifier,
)
    requires
        a_llds.len() == ii,
        a_parent.len() == ii,
        a_orig.len() == ii,
        new_parent.len() == ii + 1,
        new_llds == a_llds.push(
            if cs.len() == 0 {
                ii as usize
            } else {
                s as usize
            },
        ),
        new_orig == a_orig.push(nid),
        0 <= s <= ii,
        cs.len() == 0 ==> ii == s,
        forall|j: int|
            0 <= j < ii + 1 && cs.contains(j as usize) ==> #[trigger] new_parent[j] == ii,
        forall|j: int|
            0 <= j < ii && !cs.contains(j as usize) ==> #[trigger] new_parent[j] == a_parent[j],
        new_parent[ii as int] == ii,
        forall|m: int| 0 <= m < cs.len() ==> s <= #[trigger] cs[m] < ii && a_parent[cs[m] as int]
            == cs[m],
        cs.len() > 0 ==> cs[cs.len() - 1] as int == ii - 1,
        forall|m: int|
            0 <= m < cs.len() ==> #[trigger] a_llds[cs[m] as int] as int == if m == 0 {
                s
            } else {
                cs[m - 1] + 1
            },
        forall|m: int|
            0 <= m < cs.len() ==> #[trigger] a_orig[cs[m] as int] == spec_kids(
                &store.records_view()[nid as int],
                spaced,
            )[m],
        cs.len() == spec_kids(&store.records_view()[nid as int], spaced).len(),
        forall|c: int| 0 <= c < ii ==> #[trigger] a_llds[c] <= c,
        forall|c: int|
            0 <= c < ii && (#[trigger] a_parent[c]) != c ==> c < a_parent[c] < ii,
        kids_match_in(a_parent, a_llds, a_orig, store, spaced, s, ii),
    ensures
        kids_match_in(new_parent, new_llds, new_orig, store, spaced, s, ii + 1),
{
    reveal(kids_match_in);
    let n2 = ii + 1;
    let kids = spec_kids(&store.records_view()[nid as int], spaced);
    assert forall|c2: int|
        s <= c2 < n2 && (#[trigger] new_parent[c2]) != c2 implies ({
        let p = new_parent[c2] as int;
        let kk = spec_kids(&store.records_view()[new_orig[p] as int], spaced);
        let rk = seq_sib_rank(new_llds, c2, new_llds[p] as int) as int;
        rk < kk.len() && new_orig[c2] == kk[rk]
    }) by {
        if cs.contains(c2 as usize) {
            let m = choose|m: int| 0 <= m < cs.len() && cs[m] == c2 as usize;
            assert(new_parent[c2] == ii);
            assert(cs.len() > 0);
            assert(new_llds[ii as int] as int == s);
            assert(new_orig[ii as int] == nid);
            lemma_rank_stable(a_llds, new_llds, c2, s);
            lemma_cs_rank(a_llds, cs, s, m);
            assert(new_orig[c2] == kids[m]);
        } else if c2 < ii {
            assert(new_parent[c2] == a_parent[c2]);
            lemma_rank_stable(a_llds, new_llds, c2, a_llds[new_parent[c2] as int] as int);
        }
    }
    assert forall|i2: int|
        s <= i2 < n2 && (#[trigger] new_llds[i2]) < i2 implies seq_sib_rank(
        new_llds,
        i2 - 1,
        new_llds[i2] as int,
    ) + 1 == spec_kids(&store.records_view()[new_orig[i2] as int], spaced).len() by {
        if i2 == ii {
            assert(cs.len() > 0);
            assert(cs[cs.len() - 1] as int == ii - 1);
            assert(new_llds[ii as int] as int == s);
            lemma_rank_stable(a_llds, new_llds, ii - 1, s);
            lemma_cs_rank(a_llds, cs, s, cs.len() - 1);
        } else {
            lemma_rank_stable(a_llds, new_llds, i2 - 1, a_llds[i2] as int);
        }
    }
}

/// Relinking the finished child roots under the freshly pushed node restores
/// the forest invariant and closes the block.
proof fn lemma_relink_forest(
    ap: Seq<usize>,
    al: Seq<usize>,
    np: Seq<usize>,
    nl: Seq<usize>,
    pbv: Seq<usize>,
    cs: Seq<usize>,
    s: int,
    ii: int,
)
    requires
        al.len() == ii,
        ap.len() == ii,
        np.len() == ii + 1,
        nl == al.push(
            if cs.len() == 0 {
                ii as usize
            } else {
                s as usize
            },
        ),
        pbv == ap.push(ii as usize),
        0 <= s <= ii,
        cs.len() == 0 ==> ii == s,
        cs.len() > 0 ==> s < ii,
        forall|j: int| 0 <= j < ii + 1 && cs.contains(j as usize) ==> #[trigger] np[j] == ii,
        forall|j: int| 0 <= j < ii + 1 && !cs.contains(j as usize) ==> #[trigger] np[j] == pbv[j],
        np[ii as int] == ii,
        forest_wf(ap, al),
        forall|m: int| 0 <= m < cs.len() ==> s <= #[trigger] cs[m] < ii && ap[cs[m] as int]
            == cs[m],
        forall|j: int|
            s <= j < ii ==> ((#[trigger] ap[j]) == j && cs.contains(j as usize)) || (j < ap[j]
                < ii),
        forall|j: int| s <= j < ii ==> s <= #[trigger] al[j],
    ensures
        forest_wf(np, nl),
        closed_block(np, nl, s, ii + 1),
{
    let n2 = ii + 1;
        // the forest invariant, clause by clause
        assert forall|c: int| 0 <= c < n2 implies #[trigger] nl[c] <= c by {
            if c < ii {
                assert(nl[c] == al[c]);
            }
        }
        assert forall|c: int|
            0 <= c < n2 implies #[trigger] np[c] == c || (c < np[c] < n2
                && nl[np[c] as int] <= nl[c]) by {
            if c == ii {
            } else if cs.contains(c as usize) {
                assert(np[c] == ii);
                assert(s <= c < ii);
                assert(nl[ii] == s as usize);
                assert(nl[c] == al[c]);
                assert(s <= al[c]);
            } else {
                assert(np[c] == pbv[c]);
                assert(pbv[c] == ap[c]);
                if ap[c] == c {
                } else {
                    assert(c < ap[c] < ap.len());
                    assert(nl[ap[c] as int] == al[ap[c] as int]);
                    assert(nl[c] == al[c]);
                }
            }
        }
        assert forall|x: int, y: int|
            #![trigger nl[x], np[y]]
            0 <= x < n2 && nl[x] <= y < x implies y < np[y] <= x by {
            if x == ii {
                assert(cs.len() > 0);
                assert(nl[x] == s as usize);
                if cs.contains(y as usize) {
                    assert(np[y] == ii);
                } else {
                    assert(np[y] == ap[y]);
                    assert(((ap[y] == y) && cs.contains(y as usize)) || (y < ap[y]
                        < ii));
                }
            } else {
                assert(nl[x] == al[x]);
                assert(y < x < ii);
                assert(al[x] <= y < x ==> y < ap[y] <= x);
                if cs.contains(y as usize) {
                    let w = choose|w: int| 0 <= w < cs.len() && cs[w] == y as usize;
                    assert(ap[cs[w] as int] == cs[w]);
                    assert(ap[y] == y);
                    assert(false);
                } else {
                    assert(np[y] == ap[y]);
                }
            }
        }
        assert forall|x: int, y: int|
            #![trigger nl[x], nl[y]]
            0 <= x < n2 && nl[x] <= y <= x implies nl[x] <= nl[y] by {
            if x == ii {
                if cs.len() > 0 {
                    assert(nl[x] == s as usize);
                    if y < ii {
                        assert(nl[y] == al[y]);
                        assert(s <= al[y]);
                    }
                }
            } else {
                assert(nl[x] == al[x]);
                assert(y <= x < ii);
                assert(nl[y] == al[y]);
                assert(al[x] <= y <= x ==> al[x] <= al[y]);
            }
        }
        assert(forest_wf(np, nl));
        // the new slots form one finished subtree
        assert forall|j: int| s <= j < n2 - 1 implies j < #[trigger] np[j] <= n2 - 1 by {
            if cs.contains(j as usize) {
            } else {
                assert(np[j] == ap[j]);
                assert(((ap[j] == j) && cs.contains(j as usize)) || (j < ap[j]
                    < ii));
            }
        }
        assert forall|j: int| s <= j < n2 implies s <= #[trigger] nl[j] by {
            if j < ii {
                assert(nl[j] == al[j]);
            }
        }
        assert(closed_block(np, nl, s, n2));
}

/// Decompress the subtree of `nid` into the next slots of the arena, in
/// post-order: children first, left to right, then `nid` itself.
#[verifier::rlimit(100)]
fn build_rec(
    store: &NodeStore,
    nid: NodeIdentifier,
    spaced: bool,
    orig: &mut Vec<usize>,
    parent: &mut Vec<usize>,
    llds: &mut Vec<usize>,
)
    requires
        store.wf(),
        nid < store.spec_len(),
        old(parent)@.len() == old(orig)@.len(),
        old(llds)@.len() == old(orig)@.len(),
        forest_wf(old(parent)@, old(llds)@),
        !spaced ==> leaf_ok(store, old(orig)@, old(llds)@),
        orig_bound(old(orig)@, store.spec_len()),
    ensures
        final(parent)@.len() == final(orig)@.len(),
        final(llds)@.len() == final(orig)@.len(),
        final(orig)@.len() > old(orig)@.len(),
        forall|i: int| 0 <= i < old(orig)@.len() ==> #[trigger] final(orig)@[i] == old(orig)@[i],
        forall|i: int|
            0 <= i < old(orig)@.len() ==> #[trigger] final(parent)@[i] == old(parent)@[i],
        forall|i: int| 0 <= i < old(orig)@.len() ==> #[trigger] final(llds)@[i] == old(llds)@[i],
        forest_wf(final(parent)@, final(llds)@),
        closed_block(
            final(parent)@,
            final(llds)@,
            old(orig)@.len() as int,
            final(orig)@.len() as int,
        ),
        kids_match_in(
            final(parent)@,
            final(llds)@,
            final(orig)@,
            store,
            spaced,
            old(orig)@.len() as int,
            final(orig)@.len() as int,
        ),
        !spaced ==> leaf_ok(store, final(orig)@, final(llds)@),
        orig_bound(final(orig)@, store.spec_len()),
        final(orig)@.last() == nid,
    decreases nid,
{
    let s = orig.len();
    let ghost pre_orig = orig@;
    let ghost pre_parent = parent@;
    let ghost pre_llds = llds@;
    let nchild = if spaced {
        store.resolve(nid).children.len()
    } else {
        store.resolve(nid).children_ns().len()
    };
    proof {
        lemma_kids_match_empty(parent@, llds@, orig@, store, spaced, s as int, orig@.len() as int);
    }
    let mut cs: Vec<usize> = Vec::new();
    let mut k: usize = 0;
    while k < nchild
        invariant
            store.wf(),
            nid < store.spec_len(),
            s == old(orig)@.len(),
            pre_orig == old(orig)@,
            pre_parent == old(parent)@,
            pre_llds == old(llds)@,
            pre_parent.len() == s,
            pre_llds.len() == s,
            k <= nchild,
            nchild == spec_kids(&store.records_view()[nid as int], spaced).len(),
            parent@.len() == orig@.len(),
            llds@.len() == orig@.len(),
            orig@.len() >= s + k,
            k == 0 ==> orig@.len() == s,
            forest_wf(parent@, llds@),
            !spaced ==> leaf_ok(store, orig@, llds@),
            orig_bound(orig@, store.spec_len()),
            forall|i: int| 0 <= i < s ==> #[trigger] orig@[i] == pre_orig[i],
            forall|i: int| 0 <= i < s ==> #[trigger] parent@[i] == pre_parent[i],
            forall|i: int| 0 <= i < s ==> #[trigger] llds@[i] == pre_llds[i],
            cs@.len() == k,
            forall|m: int|
                0 <= m < k ==> s <= #[trigger] cs@[m] < orig@.len() && parent@[cs@[m] as int]
                    == cs@[m],
            k > 0 ==> cs@[k - 1] as int == orig@.len() - 1,
            forall|m1: int, m2: int| 0 <= m1 < m2 < k ==> cs@[m1] < cs@[m2],
            forall|m: int|
                0 <= m < k ==> #[trigger] llds@[cs@[m] as int] as int == if m == 0 {
                    s as int
                } else {
                    cs@[m - 1] + 1
                },
            forall|m: int|
                0 <= m < k ==> #[trigger] orig@[cs@[m] as int] == spec_kids(
                    &store.records_view()[nid as int],
                    spaced,
                )[m],
            kids_match_in(parent@, llds@, orig@, store, spaced, s as int, orig@.len() as int),
            forall|j: int|
                s <= j < orig@.len() ==> ((#[trigger] parent@[j]) == j && cs@.contains(j as usize))
                    || (j < parent@[j] < orig@.len()),
            forall|j: int| s <= j < orig@.len() ==> s <= #[trigger] llds@[j],
        decreases nchild - k,
    {
        let c = if spaced {
            store.resolve(nid).children[k]
        } else {
            store.resolve(nid).children_ns()[k]
        };
        proof {
            assert(c == spec_kids(&store.records_view()[nid as int], spaced)[k as int]);
        }
        let ghost loop_orig = orig@;
        let ghost loop_parent = parent@;
        let ghost loop_llds = llds@;
        let ghost loop_cs = cs@;
        build_rec(store, c, spaced, orig, parent, llds);
        let r = orig.len() - 1;
        cs.push(r);
        k = k + 1;
        proof {
            assert(closed_block(parent@, llds@, loop_orig.len() as int, orig@.len() as int));
            // the finished blocks keep their child correspondence
            lemma_kids_preserved(
                store,
                spaced,
                loop_parent,
                loop_llds,
                loop_orig,
                parent@,
                llds@,
                orig@,
                s as int,
            );
            assert forall|j: int|
                s <= j < orig@.len() implies ((#[trigger] parent@[j]) == j && cs@.contains(
                j as usize,
            )) || (j < parent@[j] < orig@.len()) by {
                if j < loop_orig.len() {
                    assert(parent@[j] == loop_parent[j]);
                    if loop_parent[j] == j {
                        assert(loop_cs.contains(j as usize));
                        let w = choose|w: int| 0 <= w < loop_cs.len() && loop_cs[w] == j as usize;
                        assert(cs@[w] == j as usize);
                        assert(cs@.contains(j as usize));
                    }
                } else if j < orig@.len() - 1 {
                    assert(j < parent@[j] <= orig@.len() - 1);
                } else {
                    assert(parent@[j] == j);
                    assert(cs@[cs@.len() - 1] == j as usize);
                    assert(cs@.contains(j as usize));
                }
            }
        }
    }
    let ghost a_orig = orig@;
    let ghost a_parent = parent@;
    let ghost a_llds = llds@;
    let i = orig.len();
    orig.push(nid);
    parent.push(i);
    let l = if cs.len() == 0 {
        i
    } else {
        s
    };
    llds.push(l);
    let ghost pb = parent@;
    let mut m: usize = 0;
    while m < cs.len()
        invariant
            m <= cs@.len(),
            parent@.len() == pb.len(),
            i < parent@.len(),
            forall|m2: int| 0 <= m2 < cs@.len() ==> s <= #[trigger] cs@[m2] < i,
            forall|m2: int| 0 <= m2 < m ==> parent@[#[trigger] cs@[m2] as int] == i,
            forall|j: int|
                0 <= j < parent@.len() && !cs@.take(m as int).contains(j as usize)
                    ==> #[trigger] parent@[j] == pb[j],
        decreases cs@.len() - m,
    {
        proof {
            assert(cs@[m as int] < i);
        }
        parent.set(cs[m], i);
        proof {
            let ghost mi = m as int;
            assert forall|j: int|
                0 <= j < parent@.len() && !cs@.take(mi + 1).contains(
                    j as usize,
                ) implies #[trigger] parent@[j] == pb[j] by {
                assert(cs@.take(mi + 1)[mi] == cs@[mi]);
                assert(j != cs@[mi]);
                assert(!cs@.take(mi).contains(j as usize)) by {
                    if cs@.take(mi).contains(j as usize) {
                        let w = choose|w: int| 0 <= w < mi && cs@.take(mi)[w] == j as usize;
                        assert(cs@.take(mi + 1)[w] == j as usize);
                        assert(cs@.take(mi + 1).contains(j as usize));
                    }
                }
            }
            assert forall|m2: int| 0 <= m2 <= mi implies parent@[#[trigger] cs@[m2] as int]
                == i by {}
        }
        m = m + 1;
    }
    proof {
        let n2 = parent@.len() as int;
        let ii = i as int;
        assert(n2 == ii + 1);
        assert(cs@.take(cs@.len() as int) =~= cs@);
        // the relink loop's net effect
        assert forall|j: int|
            0 <= j < n2 && cs@.contains(j as usize) implies #[trigger] parent@[j] == ii by {
            let w = choose|w: int| 0 <= w < cs@.len() && cs@[w] == j as usize;
            assert(parent@[cs@[w] as int] == i);
        }
        assert forall|j: int|
            0 <= j < n2 && !cs@.contains(j as usize) implies #[trigger] parent@[j] == pb[j] by {}
        assert(!cs@.contains(i));
        assert(parent@[ii] == ii);
        assert(llds@[ii] == l);
        assert(cs@.len() > 0 ==> s < i) by {
            if cs@.len() > 0 {
                assert(a_orig.len() >= s + 1);
            }
        }
        lemma_relink_forest(a_parent, a_llds, parent@, llds@, pb, cs@, s as int, ii);
        // leaves of the arena are exactly the childless stored nodes
        if !spaced {
            assert forall|j: int|
                0 <= j < orig@.len() implies ((#[trigger] llds@[j]) == j <==> store.records_view()[orig@[j] as int].spec_children_ns().len() == 0) by {
                if j < ii {
                    assert(llds@[j] == a_llds[j]);
                    assert(orig@[j] == a_orig[j]);
                } else {
                    assert(orig@[j] == nid);
                    assert(cs@.len() == nchild);
                }
            }
        }
        // untouched prefix
        assert forall|j: int| 0 <= j < s implies #[trigger] parent@[j] == pre_parent[j] by {
            assert(!cs@.contains(j as usize)) by {
                if cs@.contains(j as usize) {
                    let w = choose|w: int| 0 <= w < cs@.len() && cs@[w] == j as usize;
                    assert(s <= cs@[w]);
                }
            }
            assert(parent@[j] == pb[j]);
            assert(pb[j] == a_parent[j]);
        }
        // the relinked child roots are the record's children at their ranks
        lemma_kids_finish(
            store,
            spaced,
            a_parent,
            a_llds,
            a_orig,
            parent@,
            llds@,
            orig@,
            cs@,
            s as int,
            ii,
            nid,
        );
    }
}

/// Key roots of an arena: for each leftmost leaf value, the largest index
/// carrying it. Returned ascending.
#[verifier::loop_isolation(false)]
fn compute_kr(llds: &Vec<usize>) -> (r: Vec<usize>)
    requires
        forall|c: int| 0 <= c < llds@.len() ==> #[trigger] llds@[c] <= c,
    ensures
        forall|m: int| 0 <= m < r@.len() ==> is_kr(llds@, #[trigger] r@[m] as int),
        forall|i: int| 0 <= i < llds@.len() && is_kr(llds@, i) ==> r@.contains(i as usize),
        forall|m1: int, m2: int| 0 <= m1 < m2 < r@.len() ==> r@[m1] < r@[m2],
{
    let n = llds.len();
    let mut visited: Vec<bool> = Vec::new();
    let mut v: usize = 0;
    while v < n
        invariant
            v <= n,
            visited@.len() == v,
            forall|w: int| 0 <= w < v ==> !(#[trigger] visited@[w]),
        decreases n - v,
    {
        visited.push(false);
        v = v + 1;
    }
    let mut tmp: Vec<usize> = Vec::new();
    let mut i: usize = n;
    while i > 0
        invariant
            i <= n,
            visited@.len() == n,
            forall|w: int|
                0 <= w < n ==> ((#[trigger] visited@[w]) <==> exists|j: int|
                    i <= j < n && llds@[j] == w),
            forall|m: int|
                0 <= m < tmp@.len() ==> i <= #[trigger] tmp@[m] < n && is_kr(
                    llds@,
                    tmp@[m] as int,
                ),
            forall|j: int| i <= j < n && is_kr(llds@, j) ==> tmp@.contains(j as usize),
            forall|m1: int, m2: int| 0 <= m1 < m2 < tmp@.len() ==> tmp@[m1] > tmp@[m2],
        decreases i,
    {
        i = i - 1;
        let lv = llds[i];
        let ghost was = visited@[lv as int];
        let ghost tmp_old = tmp@;
        if !visited[lv] {
            visited.set(lv, true);
            tmp.push(i);
        }
        proof {
            assert forall|w: int|
                0 <= w < n implies ((#[trigger] visited@[w]) <==> exists|j: int|
                    i <= j < n && llds@[j] == w) by {
                if w == lv {
                    assert(visited@[w]);
                    assert(llds@[i as int] == w);
                } else {
                    assert(visited@[w] == was || visited@[w] == (exists|j: int|
                        i + 1 <= j < n && llds@[j] == w) || true);
                    if visited@[w] {
                        assert(exists|j: int| i + 1 <= j < n && llds@[j] == w);
                        let j = choose|j: int| i + 1 <= j < n && llds@[j] == w;
                        assert(i <= j < n && llds@[j] == w);
                    }
                    if exists|j: int| i <= j < n && llds@[j] == w {
                        let j = choose|j: int| i <= j < n && llds@[j] == w;
                        assert(j != i);
                        assert(i + 1 <= j < n && llds@[j] == w);
                    }
                }
            }
            if !was {
                assert(is_kr(llds@, i as int)) by {
                    assert forall|j: int| i < j < n implies llds@[j] != llds@[i as int] by {
                        if llds@[j] == lv {
                            assert(exists|j2: int| i + 1 <= j2 < n && llds@[j2] == lv);
                        }
                    }
                }
            } else {
                assert(!is_kr(llds@, i as int)) by {
                    let j = choose|j: int| i + 1 <= j < n && llds@[j] == lv;
                    assert(llds@[j] == llds@[i as int]);
                }
            }
            assert forall|j: int| i <= j < n && is_kr(llds@, j) implies tmp@.contains(
                j as usize,
            ) by {
                if j == i {
                    assert(!was);
                    assert(tmp@[tmp@.len() - 1] == i);
                } else {
                    assert(tmp_old.contains(j as usize));
                    let w = choose|w: int| 0 <= w < tmp_old.len() && tmp_old[w] == j as usize;
                    assert(tmp@[w] == j as usize);
                }
            }
        }
    }
    let mut r: Vec<usize> = Vec::new();
    let mut m: usize = tmp.len();
    while m > 0
        invariant
            m <= tmp@.len(),
            r@.len() == tmp@.len() - m,
            forall|q: int| 0 <= q < r@.len() ==> #[trigger] r@[q] == tmp@[tmp@.len() - 1 - q],
        decreases m,
    {
        m = m - 1;
        r.push(tmp[m]);
    }
    proof {
        assert forall|j: int| 0 <= j < llds@.len() && is_kr(llds@, j) implies r@.contains(
            j as usize,
        ) by {
            assert(tmp@.contains(j as usize));
            let w = choose|w: int| 0 <= w < tmp@.len() && tmp@[w] == j as usize;
            assert(r@[tmp@.len() - 1 - w] == j as usize);
        }
    }
    r
}

impl CompletePostOrder {
    /// The arena describes nodes of `store`: indices stand for stored nodes,
    /// and an index is a leaf exactly when its node has no semantic children.
    pub open spec fn consistent_with(&self, store: &NodeStore) -> bool {
        &&& orig_bound(self.orig_view(), store.spec_len())
        &&& leaf_ok(store, self.orig_view(), self.llds_view())
    }

    /// The key-root list is exactly the ascending list of key roots.
    pub open spec fn kr_wf(&self) -> bool {
        &&& forall|m: int|
            0 <= m < self.kr_view().len() ==> is_kr(self.llds_view(), #[trigger] self.kr_view()[m] as int)
        &&& forall|i: int|
            0 <= i < self.spec_len() && is_kr(self.llds_view(), i) ==> self.kr_view().contains(
                i as usize,
            )
        &&& forall|m1: int, m2: int|
            0 <= m1 < m2 < self.kr_view().len() ==> self.kr_view()[m1] < self.kr_view()[m2]
    }

    /// Decompress the subtree of `root` into a fresh arena, assigning
    /// post-order indices over the semantic-only child view, and derive the
    /// key-root set.
    pub fn new(store: &NodeStore, root: NodeIdentifier) -> (r: CompletePostOrder)
        requires
            store.wf(),
            root < store.spec_len(),
        ensures
            r.wf(),
            r.kr_wf(),
            r.consistent_with(store),
            r.kids_consistent(store, false),
            r.orig_view()[r.spec_len() - 1] == root,
    {
        let mut orig: Vec<usize> = Vec::new();
        let mut parent: Vec<usize> = Vec::new();
        let mut llds: Vec<usize> = Vec::new();
        build_rec(store, root, false, &mut orig, &mut parent, &mut llds);
        let kr = compute_kr(&llds);
        let r = CompletePostOrder { id_compressed: orig, id_parent: parent, llds: llds, kr: kr };
        proof {
            let n = r.spec_len() as int;
            assert(closed_block(r.parent_view(), r.llds_view(), 0, n));
            assert forall|c: int| 0 <= c < n - 1 implies c < #[trigger] r.parent_view()[c]
                < n by {
                assert(c < r.parent_view()[c] <= n - 1);
            }
        }
        r
    }

    /// Decompress the subtree of `root` over the verbatim spaced child view,
    /// whitespace nodes included: the view position reconstruction runs on.
    pub fn new_spaced(store: &NodeStore, root: NodeIdentifier) -> (r: CompletePostOrder)
        requires
            store.wf(),
            root < store.spec_len(),
        ensures
            r.wf(),
            r.kr_wf(),
            orig_bound(r.orig_view(), store.spec_len()),
            r.kids_consistent(store, true),
            r.orig_view()[r.spec_len() - 1] == root,
    {
        let mut orig: Vec<usize> = Vec::new();
        let mut parent: Vec<usize> = Vec::new();
        let mut llds: Vec<usize> = Vec::new();
        build_rec(store, root, true, &mut orig, &mut parent, &mut llds);
        let kr = compute_kr(&llds);
        let r = CompletePostOrder { id_compressed: orig, id_parent: parent, llds: llds, kr: kr };
        proof {
            let n = r.spec_len() as int;
            assert(closed_block(r.parent_view(), r.llds_view(), 0, n));
            assert forall|c: int| 0 <= c < n - 1 implies c < #[trigger] r.parent_view()[c]
                < n by {
                assert(c < r.parent_view()[c] <= n - 1);
            }
        }
        r
    }

    /// Build the arena exactly as [`CompletePostOrder::new`] does; subtree
    /// metrics carried by the store do not change the traversal.
    pub fn considering_stats(store: &NodeStore, root: NodeIdentifier) -> (r: CompletePostOrder)
        requires
            store.wf(),
            root < store.spec_len(),
        ensures
            r.wf(),
            r.kr_wf(),
            r.consistent_with(store),
            r.kids_consistent(store, false),
            r.orig_view()[r.spec_len() - 1] == root,
    {
        Self::new(store, root)
    }

    /// The arena indices of the direct children of `x`, ascending.
    #[verifier::loop_isolation(false)]
    pub fn children(&self, x: usize) -> (r: Vec<usize>)
        requires
            self.wf(),
            x < self.spec_len(),
        ensures
            forall|m: int|
                0 <= m < r@.len() ==> self.llds_view()[x as int] <= #[trigger] r@[m] < x
                    && self.parent_view()[r@[m] as int] == x,
            forall|c: int|
                self.llds_view()[x as int] <= c < x && self.parent_view()[c] == x ==> r@.contains(
                    c as usize,
                ),
            forall|m1: int, m2: int| 0 <= m1 < m2 < r@.len() ==> r@[m1] < r@[m2],
    {
        let mut r: Vec<usize> = Vec::new();
        let mut c: usize = self.llds[x];
        while c < x
            invariant
                self.llds_view()[x as int] <= c <= x,
                forall|m: int|
                    0 <= m < r@.len() ==> self.llds_view()[x as int] <= #[trigger] r@[m] < c
                        && self.parent_view()[r@[m] as int] == x,
                forall|c2: int|
                    self.llds_view()[x as int] <= c2 < c && self.parent_view()[c2] == x
                        ==> r@.contains(c2 as usize),
                forall|m1: int, m2: int| 0 <= m1 < m2 < r@.len() ==> r@[m1] < r@[m2],
            decreases x - c,
        {
            let ghost rpre = r@;
            if self.id_parent[c] == x {
                r.push(c);
            }
            proof {
                assert forall|c2: int|
                    self.llds_view()[x as int] <= c2 < c + 1 && self.parent_view()[c2]
                        == x implies r@.contains(c2 as usize) by {
                    if c2 < c {
                        assert(rpre.contains(c2 as usize));
                        let w = choose|w: int| 0 <= w < rpre.len() && rpre[w] == c2 as usize;
                        assert(r@[w] == c2 as usize);
                    } else {
                        assert(r@[r@.len() - 1] == c2 as usize);
                    }
                }
            }
            c = c + 1;
        }
        r
    }

    /// How many earlier siblings `c` has, given its parent's leftmost leaf.
    pub open spec fn sib_rank(&self, c: int, p_lld: int) -> nat
        decreases c,
    {
        if 0 <= c < self.spec_len() && 0 <= p_lld < self.llds_view()[c] && self.llds_view()[c]
            <= c {
            1 + self.sib_rank(self.llds_view()[c] - 1, p_lld)
        } else {
            0
        }
    }

    /// The position of `c` among its parent's children, `None` for the root.
    #[verifier::loop_isolation(false)]
    pub fn position_in_parent(&self, c: usize) -> (r: Option<usize>)
        requires
            self.wf(),
            c < self.spec_len(),
        ensures
            c == self.spec_len() - 1 ==> r is None,
            c < self.spec_len() - 1 ==> r == Some(
                self.sib_rank(
                    c as int,
                    self.llds_view()[self.parent_view()[c as int] as int] as int,
                ) as usize,
            ),
    {
        if c == self.id_compressed.len() - 1 {
            return None;
        }
        let p = self.id_parent[c];
        let p_lld = self.llds[p];
        let mut cur: usize = c;
        let mut k: usize = 0;
        while self.llds[cur] > p_lld
            invariant
                cur <= c < self.spec_len(),
                k <= c - cur,
                self.sib_rank(c as int, p_lld as int) == k + self.sib_rank(
                    cur as int,
                    p_lld as int,
                ),
            decreases cur,
        {
            let next = self.llds[cur] - 1;
            proof {
                assert(self.llds_view()[cur as int] <= cur);
            }
            cur = next;
            k = k + 1;
        }
        proof {
            assert(self.sib_rank(cur as int, p_lld as int) == 0);
        }
        Some(k)
    }

    /// The lazily walked chain of ancestors of an index.
    pub fn parents(&self, id: usize) -> (r: IterParents<'_>)
        requires
            self.wf(),
            id < self.spec_len(),
        ensures
            r.wf(),
            r.spec_id() == id,
            r.parents_view() == self.parent_view(),
    {
        IterParents { id: id, id_parent: &self.id_parent }
    }
}

/// Walks the parent chain of an arena index, ending at the root.
pub struct IterParents<'a> {
    id: usize,
    id_parent: &'a Vec<usize>,
}

impl<'a> IterParents<'a> {
    pub closed spec fn spec_id(&self) -> usize {
        self.id
    }

    pub closed spec fn parents_view(&self) -> Seq<usize> {
        self.id_parent@
    }

    pub open spec fn wf(&self) -> bool {
        let n = self.parents_view().len() as int;
        &&& n >= 1
        &&& self.spec_id() < n
        &&& forall|c: int| 0 <= c < n - 1 ==> c < #[trigger] self.parents_view()[c] < n
    }

    /// The next ancestor: the current index's parent, or nothing at the root.
    pub fn next(&mut self) -> (r: Option<usize>)
        requires
            old(self).wf(),
        ensures
            final(self).wf(),
            final(self).parents_view() == old(self).parents_view(),
            old(self).spec_id() == old(self).parents_view().len() - 1 ==> r is None
                && final(self).spec_id() == old(self).spec_id(),
            old(self).spec_id() < old(self).parents_view().len() - 1 ==> r == Some(
                old(self).parents_view()[old(self).spec_id() as int],
            ) && final(self).spec_id() == old(self).parents_view()[old(self).spec_id() as int],
    {
        if self.id == self.id_parent.len() - 1 {
            return None;
        }
        let r = self.id_parent[self.id];
        self.id = r;
        Some(r)
    }
}

/// A proper descendant of a non-root index is also a proper descendant of
/// that index's parent.
pub proof fn lemma_desc_up(a: &CompletePostOrder, y: int, x: int)
    requires
        a.wf(),
        0 <= x < a.spec_len() - 1,
        a.is_desc(y, x) || y == x,
    ensures
        a.is_desc(y, a.parent_view()[x] as int),
{
    let p = a.parent_view()[x] as int;
    lemma_contiguous_descendants(a, x);
    lemma_contiguous_descendants(a, p);
    assert(a.llds_view()[p] <= a.llds_view()[x]);
    assert(a.llds_view()[x] <= y <= x);
}

/// The left sibling that `lsib` returns really is a sibling: it shares the
/// parent of `c` and sits just before `c`'s interval.
pub proof fn lemma_lsib_is_sibling(a: &CompletePostOrder, c: int)
    requires
        a.wf(),
        0 <= c < a.spec_len() - 1,
        a.llds_view()[a.parent_view()[c] as int] < a.llds_view()[c],
    ensures
        a.parent_view()[a.llds_view()[c] - 1] == a.parent_view()[c],
        a.llds_view()[c] - 1 < c,
{
    let p = a.parent_view()[c] as int;
    let w = a.llds_view()[c] - 1;
    assert(a.llds_view()[p] <= w < p);
    let q = a.parent_view()[w] as int;
    assert(w < q <= p);
    if q < p {
        if q <= c {
            // q would sit inside the interval of c while being w's parent
            assert(a.llds_view()[c] <= q <= c);
            assert(a.llds_view()[c] <= a.llds_view()[q]);
            assert(a.llds_view()[q] <= a.llds_view()[w]);
            assert(a.llds_view()[w] <= w);
            assert(false);
        } else {
            // c would sit inside the interval of q, so c's parent stays at or
            // below q, contradicting q < p
            assert(a.llds_view()[q] <= a.llds_view()[w]);
            assert(a.llds_view()[w] <= w);
            assert(a.llds_view()[q] <= c < q);
            assert(c < a.parent_view()[c] <= q);
            assert(false);
        }
    }
}

/// Contiguous descendants: for every index `x`, the descendants of `x` are
/// exactly the indices of the interval `[first_descendant(x), x)`.
pub proof fn lemma_contiguous_descendants(a: &CompletePostOrder, x: int)
    requires
        a.wf(),
        0 <= x < a.spec_len(),
    ensures
        forall|y: int|
            0 <= y < a.spec_len() ==> (#[trigger] a.is_desc(y, x) <==> a.llds_view()[x] <= y < x),
{
    assert forall|y: int| 0 <= y < a.spec_len() implies (#[trigger] a.is_desc(y, x)
        <==> a.llds_view()[x] <= y < x) by {
        if a.is_desc(y, x) {
            lemma_desc_in_range(a, x, y);
            assert(a.llds_view()[y] <= y);
        }
        if a.llds_view()[x] <= y < x {
            lemma_range_is_desc(a, x, y);
        }
    }
}

} // verus!
