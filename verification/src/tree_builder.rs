//! The tree builder: single-pass, bottom-up construction of stored trees.
//!
//! An external per-language frontend hands over concrete nodes — raw kind
//! number, byte span, label presence and children ([`TNode`]) — and the
//! builder folds each finished child into its parent's accumulator, then asks
//! the node store for an identifier with the accumulated fingerprint, so an
//! unchanged subtree anywhere in the corpus reuses its existing identifier.
//! Whitespace runs between siblings become dedicated zero-semantic nodes of
//! kind `Spaces`, deduplicated like any other node, kept out of the no-space
//! child view and of the content-bearing size. The top-level node is always
//! labeled with its file name, and a childless node still occupies a record
//! of size and height one.

use crate::hashing::{build_hashs, hash_bytes, SyntaxNodeHashs};
use crate::label_store::{LabelIdentifier, LabelStore};
use crate::node_store::{content_eq, NodeIdentifier, NodeRecord, NodeStore};
use crate::type_table::{type_of_u16, Type};
use crate::types::{TNode, TStore};
use std::collections::HashMap;
use vstd::prelude::*;

verus! {

/// What a concrete cursor reports when stepping through a parse tree.
#[derive(Clone, Copy, PartialEq, Eq, Debug, Structural)]
pub enum TreeCursorStep {
    TreeCursorStepNone,
    TreeCursorStepHidden,
    TreeCursorStepVisible,
}

/// Placeholder semantic analysis: an explicit no-op capability that always
/// yields empty results, never a failure.
#[derive(Clone, Debug, Default)]
pub struct PartialAnalysis {}

impl PartialAnalysis {
    /// No references are collected by the no-op analysis.
    pub fn refs_count(&self) -> (r: usize)
        ensures
            r == 0,
    {
        0
    }

    /// The placeholder reference list: a single zero byte string.
    pub fn refs(&self) -> (r: Vec<Vec<u8>>)
        ensures
            r@.len() == 1,
            r@[0]@ == seq![0u8],
    {
        let mut inner: Vec<u8> = Vec::new();
        inner.push(0);
        let mut r: Vec<Vec<u8>> = Vec::new();
        proof {
            assert(inner@ =~= seq![0u8]);
        }
        r.push(inner);
        r
    }
}

/// Addition that stops at the counter's ceiling instead of wrapping.
pub open spec fn spec_sat_add(a: u32, b: u32) -> u32 {
    if a + b > u32::MAX {
        u32::MAX
    } else {
        (a + b) as u32
    }
}

fn sat_add(a: u32, b: u32) -> (r: u32)
    ensures
        r == spec_sat_add(a, b),
{
    if a > u32::MAX - b {
        u32::MAX
    } else {
        a + b
    }
}

fn max_u32(a: u32, b: u32) -> (r: u32)
    ensures
        r == if a >= b {
            a
        } else {
            b
        },
{
    if a >= b {
        a
    } else {
        b
    }
}

/// Running subtree metrics of a node under construction: sizes with and
/// without whitespace, height, and the accumulated hash parts.
#[derive(Clone, Copy, PartialEq, Eq, Debug, Structural)]
pub struct SubTreeMetrics {
    pub size: u32,
    pub height: u32,
    pub hashs: SyntaxNodeHashs,
    pub size_no_spaces: u32,
}

impl SubTreeMetrics {
    pub fn zero() -> (r: SubTreeMetrics)
        ensures
            r == (SubTreeMetrics {
                size: 0u32,
                height: 0u32,
                hashs: SyntaxNodeHashs { structt: 0u32, label: 0u32, syntax: 0u32 },
                size_no_spaces: 0u32,
            }),
    {
        SubTreeMetrics { size: 0, height: 0, hashs: SyntaxNodeHashs::zero(), size_no_spaces: 0 }
    }

    /// Fold one finished child into the running metrics: sizes add
    /// (saturating at the counter ceiling), the height keeps the maximum, and
    /// the hash parts accumulate.
    pub fn acc(&mut self, o: &SubTreeMetrics)
        ensures
            final(self).size == spec_sat_add(old(self).size, o.size),
            final(self).size_no_spaces == spec_sat_add(old(self).size_no_spaces, o.size_no_spaces),
            final(self).height == if old(self).height >= o.height {
                old(self).height
            } else {
                o.height
            },
            final(self).hashs == old(self).hashs.spec_acc(o.hashs),
    {
        self.size = sat_add(self.size, o.size);
        self.size_no_spaces = sat_add(self.size_no_spaces, o.size_no_spaces);
        self.height = max_u32(self.height, o.height);
        self.hashs.acc(&o.hashs);
    }
}

/// The kind and growing child list of a node under construction.
pub struct BasicAccumulator {
    pub kind: Type,
    pub children: Vec<NodeIdentifier>,
}

/// A finished node as the builder hands it upward: its identifier in the
/// store and the metrics of its subtree.
#[derive(Clone, Debug)]
pub struct Local {
    pub compressed_node: NodeIdentifier,
    pub metrics: SubTreeMetrics,
    pub ana: Option<PartialAnalysis>,
}

/// Traversal-global data: how much of the text has been claimed, and the
/// depth and sibling position of the walk.
pub struct Global {
    pub sum_byte_length: usize,
    pub depth: usize,
    pub position: usize,
}

impl Global {
    pub fn new() -> (r: Global)
        ensures
            r.sum_byte_length == 0,
            r.depth == 0,
            r.position == 0,
    {
        Global { sum_byte_length: 0, depth: 0, position: 0 }
    }

    pub fn sum_byte_length(&self) -> (r: usize)
        ensures
            r == self.sum_byte_length,
    {
        self.sum_byte_length
    }

    /// Step into a node; the depth counter stops at its ceiling.
    pub fn down(&mut self)
        ensures
            final(self).depth == if old(self).depth < usize::MAX {
                (old(self).depth + 1) as usize
            } else {
                old(self).depth
            },
            final(self).sum_byte_length == old(self).sum_byte_length,
            final(self).position == old(self).position,
    {
        if self.depth < usize::MAX {
            self.depth = self.depth + 1;
        }
    }

    /// Step to a following sibling; the position counter stops at its ceiling.
    pub fn right(&mut self)
        ensures
            final(self).position == if old(self).position < usize::MAX {
                (old(self).position + 1) as usize
            } else {
                old(self).position
            },
            final(self).sum_byte_length == old(self).sum_byte_length,
            final(self).depth == old(self).depth,
    {
        if self.position < usize::MAX {
            self.position = self.position + 1;
        }
    }
}

/// A node finished together with the traversal state it was finished under.
pub struct FullNode {
    pub global: (usize, usize, usize),
    pub local: Local,
}

/// A builder-transient accumulator for one node under construction: growing
/// child lists, running metrics, byte span, label obligation and indentation
/// context. It is consumed into a node record at close time, never persisted.
pub struct Acc {
    pub simple: BasicAccumulator,
    pub no_space: Vec<NodeIdentifier>,
    pub labeled: bool,
    pub start_byte: usize,
    pub end_byte: usize,
    pub metrics: SubTreeMetrics,
    pub ana: Option<PartialAnalysis>,
    pub padding_start: usize,
    pub indentation: Vec<u8>,
}

impl Local {
    /// Fold this finished node into a parent accumulator: always onto the
    /// spaced child list, onto the no-space list only if it carries any
    /// content-bearing size, and fold the metrics.
    pub fn acc(self, acc: &mut Acc)
        ensures
            final(acc).simple.children@ == old(acc).simple.children@.push(self.compressed_node),
            final(acc).no_space@ == if self.metrics.size_no_spaces > 0 {
                old(acc).no_space@.push(self.compressed_node)
            } else {
                old(acc).no_space@
            },
            final(acc).metrics.size == spec_sat_add(old(acc).metrics.size, self.metrics.size),
            final(acc).metrics.size_no_spaces == spec_sat_add(
                old(acc).metrics.size_no_spaces,
                self.metrics.size_no_spaces,
            ),
            final(acc).metrics.height == if old(acc).metrics.height >= self.metrics.height {
                old(acc).metrics.height
            } else {
                self.metrics.height
            },
            final(acc).metrics.hashs == old(acc).metrics.hashs.spec_acc(self.metrics.hashs),
            final(acc).simple.kind == old(acc).simple.kind,
            final(acc).labeled == old(acc).labeled,
            final(acc).start_byte == old(acc).start_byte,
            final(acc).end_byte == old(acc).end_byte,
            final(acc).padding_start == old(acc).padding_start,
            final(acc).indentation == old(acc).indentation,
    {
        if self.metrics.size_no_spaces > 0 {
            acc.no_space.push(self.compressed_node);
        }
        acc.simple.children.push(self.compressed_node);
        acc.metrics.acc(&self.metrics);
    }
}

impl Acc {
    /// Fold a finished child into this accumulator.
    pub fn push(&mut self, full_node: FullNode)
        ensures
            final(self).simple.children@ == old(self).simple.children@.push(
                full_node.local.compressed_node,
            ),
            final(self).no_space@ == if full_node.local.metrics.size_no_spaces > 0 {
                old(self).no_space@.push(full_node.local.compressed_node)
            } else {
                old(self).no_space@
            },
            final(self).simple.kind == old(self).simple.kind,
            final(self).labeled == old(self).labeled,
            final(self).start_byte == old(self).start_byte,
            final(self).end_byte == old(self).end_byte,
            final(self).padding_start == old(self).padding_start,
            final(self).indentation == old(self).indentation,
    {
        full_node.local.acc(self);
    }

    /// The indentation context this node was opened under.
    pub fn indentation(&self) -> (r: &Vec<u8>)
        ensures
            r == &self.indentation,
    {
        &self.indentation
    }
}

/// Compute-intensive metadata worth caching per identifier.
pub struct MD {
    pub metrics: SubTreeMetrics,
    pub ana: Option<PartialAnalysis>,
}

impl MD {
    pub fn from(x: Local) -> (r: MD)
        ensures
            r.metrics == x.metrics,
    {
        MD { metrics: x.metrics, ana: x.ana }
    }
}

/// The per-identifier metadata cache a builder carries across files.
pub type MDCache = HashMap<NodeIdentifier, MD>;

/// The stores a builder works against.
pub struct SimpleStores {
    pub node_store: NodeStore,
    pub label_store: LabelStore,
    pub type_store: TStore,
}

impl SimpleStores {
    pub open spec fn wf(&self) -> bool {
        &&& self.node_store.wf()
        &&& self.label_store.wf()
    }

    pub fn new() -> (r: SimpleStores)
        ensures
            r.wf(),
            r.node_store.spec_len() == 0,
            r.label_store.labels_view().len() == 0,
    {
        SimpleStores {
            node_store: NodeStore::new(),
            label_store: LabelStore::new(),
            type_store: TStore::Ts,
        }
    }
}

/// The index of the last line break inside `[lo, hi)` of `s`, or `lo - 1`.
pub open spec fn spec_last_nl(s: Seq<u8>, lo: int, hi: int) -> int
    decreases hi - lo,
{
    if hi <= lo {
        lo - 1
    } else if s[hi - 1] == 10u8 {
        hi - 1
    } else {
        spec_last_nl(s, lo, hi - 1)
    }
}

/// The indentation context of a node opening at `hi`: the text after the
/// last line break claimed since `lo`, or the parent's indentation when no
/// line break sits in between.
pub open spec fn spec_indentation(s: Seq<u8>, lo: int, hi: int, parent: Seq<u8>) -> Seq<u8> {
    let p = spec_last_nl(s, lo, hi);
    if p >= lo {
        s.subrange(p + 1, hi)
    } else {
        parent
    }
}

/// The indentation of a node opening at `start_byte`: the text after the last
/// line break claimed since `padding_start`, or the parent's indentation when
/// no line break sits in between.
#[verifier::loop_isolation(false)]
pub fn compute_indentation(
    text: &[u8],
    start_byte: usize,
    padding_start: usize,
    parent_indentation: &Vec<u8>,
) -> (r: Vec<u8>)
    requires
        padding_start <= start_byte <= text@.len(),
    ensures
        r@ == spec_indentation(
            text@,
            padding_start as int,
            start_byte as int,
            parent_indentation@,
        ),
{
    let mut hi: usize = start_byte;
    while hi > padding_start && text[hi - 1] != 10
        invariant
            padding_start <= hi <= start_byte,
            spec_last_nl(text@, padding_start as int, start_byte as int) == spec_last_nl(
                text@,
                padding_start as int,
                hi as int,
            ),
        decreases hi,
    {
        hi = hi - 1;
    }
    if hi == padding_start {
        let mut r: Vec<u8> = Vec::new();
        let mut k: usize = 0;
        while k < parent_indentation.len()
            invariant
                k <= parent_indentation@.len(),
                r@ == parent_indentation@.take(k as int),
            decreases parent_indentation@.len() - k,
        {
            r.push(parent_indentation[k]);
            k = k + 1;
            proof {
                assert(parent_indentation@.take(k as int) =~= parent_indentation@.take(
                    k - 1,
                ).push(parent_indentation@[k - 1]));
            }
        }
        proof {
            assert(r@ =~= parent_indentation@);
        }
        r
    } else {
        let mut r: Vec<u8> = Vec::new();
        let mut k: usize = hi;
        while k < start_byte
            invariant
                hi <= k <= start_byte,
                start_byte <= text@.len(),
                r@ == text@.subrange(hi as int, k as int),
            decreases start_byte - k,
        {
            r.push(text[k]);
            k = k + 1;
            proof {
                assert(text@.subrange(hi as int, k as int) =~= text@.subrange(
                    hi as int,
                    k - 1,
                ).push(text@[k - 1]));
            }
        }
        proof {
            assert(spec_last_nl(text@, padding_start as int, hi as int) == hi - 1);
        }
        r
    }
}

/// The whitespace run between the last claimed byte and a node's start:
/// exactly those bytes, or nothing when the node starts flush.
#[verifier::loop_isolation(false)]
pub fn get_spacing(padding_start: usize, start_byte: usize, text: &[u8]) -> (r: Option<Vec<u8>>)
    requires
        padding_start <= start_byte <= text@.len(),
    ensures
        match r {
            Some(v) => padding_start < start_byte && v@ == text@.subrange(
                padding_start as int,
                start_byte as int,
            ),
            None => padding_start == start_byte,
        },
{
    if padding_start == start_byte {
        return None;
    }
    let mut v: Vec<u8> = Vec::new();
    let mut k: usize = padding_start;
    while k < start_byte
        invariant
            padding_start <= k <= start_byte,
            start_byte <= text@.len(),
            v@ == text@.subrange(padding_start as int, k as int),
        decreases start_byte - k,
    {
        v.push(text[k]);
        k = k + 1;
        proof {
            assert(text@.subrange(padding_start as int, k as int) =~= text@.subrange(
                padding_start as int,
                k - 1,
            ).push(text@[k - 1]));
        }
    }
    Some(v)
}

/// Whether unclaimed bytes remain after the last claimed one.
pub fn has_final_space(_depth: &usize, sum_byte_length: usize, text: &[u8]) -> (r: bool)
    ensures
        r == (sum_byte_length < text@.len()),
{
    sum_byte_length < text.len()
}


/// The number of concrete nodes in a parse tree.
pub open spec fn tnode_count(n: TNode) -> nat
    decreases n, 0nat,
{
    1 + tnode_count_seq(n.children@, n.children@.len() as int)
}

/// The number of concrete nodes in the first `k` trees of a forest.
pub open spec fn tnode_count_seq(s: Seq<TNode>, k: int) -> nat
    decreases s, k,
{
    if k <= 0 || k > s.len() {
        0
    } else {
        tnode_count(s[k - 1]) + tnode_count_seq(s, k - 1)
    }
}

/// Well-formedness of a concrete node within `[lo, hi)`: grammar kinds only,
/// a span inside the given bounds, and children in source order with
/// non-overlapping spans inside the node's own span.
pub open spec fn wf_tnode(n: TNode, lo: int, hi: int) -> bool
    decreases n, 0nat,
{
    &&& lo <= n.start_byte <= n.end_byte <= hi
    &&& n.kind_id < 357
    &&& wf_tnode_children(
        n.children@,
        n.children@.len() as int,
        n.start_byte as int,
        n.end_byte as int,
    )
}

/// Well-formedness of the first `k` children: each child is well-formed
/// between its left sibling's end (or the parent's start) and the parent's
/// end.
pub open spec fn wf_tnode_children(s: Seq<TNode>, k: int, lo: int, hi: int) -> bool
    decreases s, k,
{
    if k <= 0 || k > s.len() {
        true
    } else {
        &&& wf_tnode_children(s, k - 1, lo, hi)
        &&& wf_tnode(
            s[k - 1],
            if k == 1 {
                lo
            } else {
                s[k - 2].end_byte as int
            },
            hi,
        )
    }
}

/// Each child of a well-formed forest is well-formed between its left
/// sibling's end (or `lo`) and `hi`.
proof fn lemma_wf_child(s: Seq<TNode>, k: int, lo: int, hi: int, j: int)
    requires
        wf_tnode_children(s, k, lo, hi),
        0 <= j < k <= s.len(),
    ensures
        wf_tnode(
            s[j],
            if j == 0 {
                lo
            } else {
                s[j - 1].end_byte as int
            },
            hi,
        ),
    decreases k,
{
    if j < k - 1 {
        lemma_wf_child(s, k - 1, lo, hi, j);
    }
}

/// A node well-formed within tight bounds is well-formed within looser ones.
proof fn lemma_wf_tnode_widen(n: TNode, lo: int, hi: int, lo2: int, hi2: int)
    requires
        wf_tnode(n, lo, hi),
        lo2 <= lo,
        hi <= hi2,
    ensures
        wf_tnode(n, lo2, hi2),
{
}

/// Count the nodes of a concrete tree, stopping at the counter's ceiling.
#[verifier::loop_isolation(false)]
pub fn count_nodes(n: &TNode) -> (r: u32)
    ensures
        r <= tnode_count(*n),
        r < u32::MAX ==> r == tnode_count(*n),
    decreases *n,
{
    let mut total: u32 = 1;
    let mut k: usize = 0;
    while k < n.children.len()
        invariant
            k <= n.children@.len(),
            total <= 1 + tnode_count_seq(n.children@, k as int),
            total < u32::MAX ==> total == 1 + tnode_count_seq(n.children@, k as int),
        decreases n.children@.len() - k,
    {
        proof {
            assert(decreases_to!(*n => n.children));
            assert(decreases_to!(n.children => n.children@));
            assert(decreases_to!(n.children@ => n.children@[k as int]));
        }
        let c = count_nodes(&n.children[k]);
        total = sat_add(total, c);
        k = k + 1;
    }
    proof {
        assert(tnode_count(*n) == 1 + tnode_count_seq(
            n.children@,
            n.children@.len() as int,
        ));
    }
    total
}

/// Check a concrete tree against [`wf_tnode`]: the runtime gate an external
/// frontend passes before the builder accepts its tree.
#[verifier::loop_isolation(false)]
pub fn check_tnode(n: &TNode, lo: usize, hi: usize) -> (r: bool)
    ensures
        r == wf_tnode(*n, lo as int, hi as int),
    decreases *n,
{
    if !(lo <= n.start_byte && n.start_byte <= n.end_byte && n.end_byte <= hi) {
        return false;
    }
    if !(n.kind_id < 357) {
        return false;
    }
    let mut k: usize = 0;
    let mut ok = true;
    while k < n.children.len()
        invariant
            k <= n.children@.len(),
            lo <= n.start_byte <= n.end_byte <= hi,
            ok == wf_tnode_children(
                n.children@,
                k as int,
                n.start_byte as int,
                n.end_byte as int,
            ),
        decreases n.children@.len() - k,
    {
        let child_lo = if k == 0 {
            n.start_byte
        } else {
            n.children[k - 1].end_byte
        };
        proof {
            assert(decreases_to!(*n => n.children));
            assert(decreases_to!(n.children => n.children@));
            assert(decreases_to!(n.children@ => n.children@[k as int]));
        }
        let c_ok = check_tnode(&n.children[k], child_lo, n.end_byte);
        ok = ok && c_ok;
        k = k + 1;
    }
    ok
}

/// Copy a byte string.
#[verifier::loop_isolation(false)]
pub fn copy_bytes(v: &[u8]) -> (r: Vec<u8>)
    ensures
        r@ == v@,
{
    let mut r: Vec<u8> = Vec::new();
    let mut k: usize = 0;
    while k < v.len()
        invariant
            k <= v@.len(),
            r@ == v@.take(k as int),
        decreases v@.len() - k,
    {
        r.push(v[k]);
        k = k + 1;
        proof {
            assert(v@.take(k as int) =~= v@.take(k - 1).push(v@[k - 1]));
        }
    }
    proof {
        assert(r@ =~= v@);
    }
    r
}

/// Copy a byte range of the text.
#[verifier::loop_isolation(false)]
fn copy_range(text: &[u8], lo: usize, hi: usize) -> (r: Vec<u8>)
    requires
        lo <= hi <= text@.len(),
    ensures
        r@ == text@.subrange(lo as int, hi as int),
{
    let mut r: Vec<u8> = Vec::new();
    let mut k: usize = lo;
    while k < hi
        invariant
            lo <= k <= hi,
            hi <= text@.len(),
            r@ == text@.subrange(lo as int, k as int),
        decreases hi - k,
    {
        r.push(text[k]);
        k = k + 1;
        proof {
            assert(text@.subrange(lo as int, k as int) =~= text@.subrange(lo as int, k - 1).push(
                text@[k - 1],
            ));
        }
    }
    r
}

/// A stored whitespace node for exactly the given run: kind `Spaces`, no
/// children, the run itself as the label.
pub open spec fn spacing_stored(
    store: &NodeStore,
    lstore: &LabelStore,
    id: int,
    bytes: Seq<u8>,
) -> bool {
    &&& 0 <= id < store.spec_len()
    &&& store.records_view()[id].kind == Type::Spaces
    &&& store.records_view()[id].children@.len() == 0
    &&& store.records_view()[id].label matches Some(l) && l < lstore.labels_view().len()
        && lstore.labels_view()[l as int] == bytes
}

/// The kinds whose nodes always carry their exact text as a label and keep no
/// stored children of their own.
pub open spec fn spec_literal_kind(kind: Type) -> bool {
    kind == Type::String || kind == Type::Number || kind == Type::TemplateString
}

/// The stored node `id` faithfully represents the concrete node `node` over
/// `text`: the node's kind, its exact text as a label exactly when one is
/// due, and — unless the kind skips its concrete children — every concrete
/// child stored, in source order, among the spaced children.
pub open spec fn subtree_stored(
    store: &NodeStore,
    lstore: &LabelStore,
    id: int,
    node: TNode,
    text: Seq<u8>,
) -> bool
    decreases node, 1nat,
{
    let rec = store.records_view()[id];
    let kind = type_of_u16(node.kind_id);
    &&& 0 <= id < store.spec_len()
    &&& rec.kind == kind
    &&& (if node.labeled || spec_literal_kind(kind) {
        rec.label matches Some(l) && l < lstore.labels_view().len()
            && lstore.labels_view()[l as int] == text.subrange(
            node.start_byte as int,
            node.end_byte as int,
        )
    } else {
        rec.label is None
    })
    &&& (spec_literal_kind(kind) || kind == Type::TS0 || children_stored(
        store,
        lstore,
        rec.children@,
        node.children@,
        text,
    ))
}

/// The concrete children all appear, in source order, among the stored
/// children: some ascending position sequence marks one faithful store of
/// each.
pub open spec fn children_stored(
    store: &NodeStore,
    lstore: &LabelStore,
    stored: Seq<NodeIdentifier>,
    kids: Seq<TNode>,
    text: Seq<u8>,
) -> bool
    decreases kids, 0nat,
{
    exists|marks: Seq<int>|
        {
            &&& #[trigger] marks.len() == kids.len()
            &&& (forall|j: int| 0 <= j < marks.len() ==> 0 <= #[trigger] marks[j] < stored.len())
            &&& (forall|j1: int, j2: int| 0 <= j1 < j2 < marks.len() ==> marks[j1] < marks[j2])
            &&& (forall|j: int|
                #![trigger marks[j]]
                0 <= j < kids.len() ==> subtree_stored(
                    store,
                    lstore,
                    stored[marks[j]] as int,
                    kids[j],
                    text,
                ))
        }
}

/// A faithfully stored subtree stays faithfully stored when the stores grow.
proof fn lemma_subtree_stored_grow(
    s1: &NodeStore,
    l1: &LabelStore,
    s2: &NodeStore,
    l2: &LabelStore,
    id: int,
    node: TNode,
    text: Seq<u8>,
)
    requires
        subtree_stored(s1, l1, id, node, text),
        store_preserves(s1, s2),
        labels_preserve(l1, l2),
    ensures
        subtree_stored(s2, l2, id, node, text),
    decreases node, 1nat,
{
    let rec = s1.records_view()[id];
    assert(s2.records_view()[id] == rec);
    let kind = type_of_u16(node.kind_id);
    if !(spec_literal_kind(kind) || kind == Type::TS0) {
        lemma_children_stored_grow(s1, l1, s2, l2, rec.children@, node.children@, text);
    }
}

/// As [`lemma_subtree_stored_grow`], for a stored child list.
proof fn lemma_children_stored_grow(
    s1: &NodeStore,
    l1: &LabelStore,
    s2: &NodeStore,
    l2: &LabelStore,
    stored: Seq<NodeIdentifier>,
    kids: Seq<TNode>,
    text: Seq<u8>,
)
    requires
        children_stored(s1, l1, stored, kids, text),
        store_preserves(s1, s2),
        labels_preserve(l1, l2),
    ensures
        children_stored(s2, l2, stored, kids, text),
    decreases kids, 0nat,
{
    let marks = choose|marks: Seq<int>|
        {
            &&& #[trigger] marks.len() == kids.len()
            &&& (forall|j: int| 0 <= j < marks.len() ==> 0 <= #[trigger] marks[j] < stored.len())
            &&& (forall|j1: int, j2: int| 0 <= j1 < j2 < marks.len() ==> marks[j1] < marks[j2])
            &&& (forall|j: int|
                #![trigger marks[j]]
                0 <= j < kids.len() ==> subtree_stored(
                    s1,
                    l1,
                    stored[marks[j]] as int,
                    kids[j],
                    text,
                ))
        };
    assert forall|j: int| #![trigger marks[j]] 0 <= j < kids.len() implies subtree_stored(
        s2,
        l2,
        stored[marks[j]] as int,
        kids[j],
        text,
    ) by {
        lemma_subtree_stored_grow(s1, l1, s2, l2, stored[marks[j]] as int, kids[j], text);
    }
    assert(marks.len() == kids.len());
}

/// The per-language tree builder: it owns the stores it fills and a metadata
/// cache that survives across files.
pub struct TsTreeGen {
    pub line_break: Vec<u8>,
    pub stores: SimpleStores,
    pub md_cache: MDCache,
}

/// The old records of a store are still there, unchanged, under their old
/// identifiers.
pub open spec fn store_preserves(pre: &NodeStore, post: &NodeStore) -> bool {
    &&& post.spec_len() >= pre.spec_len()
    &&& forall|i: int|
        0 <= i < pre.spec_len() ==> #[trigger] post.records_view()[i] == pre.records_view()[i]
}

/// The old labels of a label store are still there under their old
/// identifiers.
pub open spec fn labels_preserve(pre: &LabelStore, post: &LabelStore) -> bool {
    &&& post.labels_view().len() >= pre.labels_view().len()
    &&& forall|i: int|
        0 <= i < pre.labels_view().len() ==> #[trigger] post.labels_view()[i]
            == pre.labels_view()[i]
}

/// All child identifiers accumulated so far point into the store.
pub open spec fn acc_bound(store: &NodeStore, acc: &Acc) -> bool {
    &&& forall|k: int|
        0 <= k < acc.simple.children@.len() ==> (#[trigger] acc.simple.children@[k])
            < store.spec_len()
    &&& forall|k: int|
        0 <= k < acc.no_space@.len() ==> (#[trigger] acc.no_space@[k]) < store.spec_len()
    &&& acc.simple.children@.len() == 0 ==> acc.metrics.size == 0 && acc.metrics.height == 0
}

impl TsTreeGen {
    pub open spec fn wf(&self) -> bool {
        self.stores.wf()
    }

    /// A builder over the given stores, breaking lines at the newline byte.
    pub fn new(stores: SimpleStores, md_cache: MDCache) -> (r: TsTreeGen)
        requires
            stores.wf(),
        ensures
            r.wf(),
            r.stores == stores,
    {
        let mut line_break: Vec<u8> = Vec::new();
        line_break.push(10);
        TsTreeGen { line_break, stores, md_cache }
    }

    /// Whether this kind opens a semantic analysis; only whole programs do,
    /// and the analysis itself is the explicit no-op.
    pub fn build_ana(&mut self, kind: &Type) -> (r: Option<PartialAnalysis>)
        ensures
            *final(self) == *old(self),
            r is Some <==> *kind == Type::Program,
    {
        if *kind == Type::Program {
            Some(PartialAnalysis {  })
        } else {
            None
        }
    }

    /// Open the accumulator of a file's top-level node.
    pub fn init_val(&mut self, text: &[u8], node: &TNode) -> (r: Acc)
        requires
            node.kind_id < 357,
            node.start_byte <= node.end_byte <= text@.len(),
        ensures
            *final(self) == *old(self),
            r.simple.kind == type_of_u16(node.kind_id),
            r.simple.children@.len() == 0,
            r.no_space@.len() == 0,
            r.labeled == node.labeled,
            r.start_byte == node.start_byte,
            r.end_byte == node.end_byte,
            r.metrics == SubTreeMetrics::spec_zero(),
            r.padding_start == 0,
            r.indentation@ == spec_indentation(
                text@,
                0,
                node.start_byte as int,
                old(self).line_break@,
            ),
            r.ana is Some <==> type_of_u16(node.kind_id) == Type::Program,
    {
        let kind = node.obtain_type(&mut self.stores.type_store);
        let parent_indentation = copy_bytes(self.line_break.as_slice());
        let indent = compute_indentation(text, node.start_byte, 0, &parent_indentation);
        let labeled = node.labeled;
        let ana = self.build_ana(&kind);
        Acc {
            simple: BasicAccumulator { kind, children: Vec::new() },
            no_space: Vec::new(),
            labeled,
            start_byte: node.start_byte,
            end_byte: node.end_byte,
            metrics: SubTreeMetrics::zero(),
            ana,
            padding_start: 0,
            indentation: indent,
        }
    }

    /// Open the accumulator of a non-root node: remember where its claim on
    /// the text begins and the indentation context it opens under.
    pub fn pre(&mut self, text: &[u8], node: &TNode, parent: &Acc, global: &Global) -> (r: Acc)
        requires
            node.kind_id < 357,
            global.sum_byte_length <= node.start_byte,
            node.start_byte <= node.end_byte <= text@.len(),
        ensures
            *final(self) == *old(self),
            r.simple.kind == type_of_u16(node.kind_id),
            r.simple.children@.len() == 0,
            r.no_space@.len() == 0,
            r.labeled == node.labeled,
            r.start_byte == node.start_byte,
            r.end_byte == node.end_byte,
            r.metrics == SubTreeMetrics::spec_zero(),
            r.padding_start == global.sum_byte_length,
            r.indentation@ == spec_indentation(
                text@,
                global.sum_byte_length as int,
                node.start_byte as int,
                parent.indentation@,
            ),
            r.ana is Some <==> type_of_u16(node.kind_id) == Type::Program,
    {
        let kind = node.obtain_type(&mut self.stores.type_store);
        let indent = compute_indentation(
            text,
            node.start_byte,
            global.sum_byte_length,
            &parent.indentation,
        );
        let ana = self.build_ana(&kind);
        Acc {
            labeled: node.labeled,
            start_byte: node.start_byte,
            end_byte: node.end_byte,
            metrics: SubTreeMetrics::zero(),
            ana,
            padding_start: global.sum_byte_length,
            indentation: indent,
            simple: BasicAccumulator { kind, children: Vec::new() },
            no_space: Vec::new(),
        }
    }

    /// Open a node, deciding whether its concrete children are skipped:
    /// literal kinds always carry their exact text as a label and keep no
    /// children, and the grammar's end-of-token marker is skipped too.
    pub fn pre_skippable(&mut self, text: &[u8], node: &TNode, parent: &Acc, global: &Global) -> (r:
        (Acc, bool))
        requires
            node.kind_id < 357,
            global.sum_byte_length <= node.start_byte,
            node.start_byte <= node.end_byte <= text@.len(),
        ensures
            *final(self) == *old(self),
            r.0.simple.kind == type_of_u16(node.kind_id),
            r.0.simple.children@.len() == 0,
            r.0.no_space@.len() == 0,
            r.0.start_byte == node.start_byte,
            r.0.end_byte == node.end_byte,
            r.0.metrics == SubTreeMetrics::spec_zero(),
            r.0.padding_start == global.sum_byte_length,
            ({
                let kind = type_of_u16(node.kind_id);
                let literal = kind == Type::String || kind == Type::Number || kind
                    == Type::TemplateString;
                &&& r.0.labeled == (node.labeled || literal)
                &&& r.1 == (literal || kind == Type::TS0)
            }),
    {
        let kind = node.obtain_type(&mut self.stores.type_store);
        let mut skip = false;
        if kind == Type::String || kind == Type::Number || kind == Type::TemplateString {
            skip = true;
        }
        if kind == Type::TS0 {
            skip = true;
        }
        let mut acc = self.pre(text, node, parent, global);
        if kind == Type::String || kind == Type::Number || kind == Type::TemplateString {
            acc.labeled = true;
        }
        (acc, skip)
    }
}

impl SubTreeMetrics {
    pub open spec fn spec_zero() -> SubTreeMetrics {
        SubTreeMetrics {
            size: 0u32,
            height: 0u32,
            hashs: SyntaxNodeHashs { structt: 0u32, label: 0u32, syntax: 0u32 },
            size_no_spaces: 0u32,
        }
    }
}


impl TsTreeGen {
    /// Materialise a whitespace run as a dedicated zero-semantic node: kind
    /// `Spaces`, the run itself as the label, content-bearing size zero. Like
    /// any node it is deduplicated, so recurring runs share one identifier.
    #[verifier::rlimit(100)]
    pub fn make_spacing(&mut self, spacing: Vec<u8>) -> (r: Local)
        requires
            old(self).wf(),
            spacing@.len() <= u32::MAX,
        ensures
            final(self).wf(),
            store_preserves(&old(self).stores.node_store, &final(self).stores.node_store),
            labels_preserve(&old(self).stores.label_store, &final(self).stores.label_store),
            final(self).stores.node_store.spec_len() <= old(self).stores.node_store.spec_len() + 1,
            r.compressed_node < final(self).stores.node_store.spec_len(),
            ({
                let rec = final(self).stores.node_store.records_view()[r.compressed_node as int];
                &&& rec.kind == Type::Spaces
                &&& rec.children@.len() == 0
                &&& rec.label matches Some(l) && l < final(self).stores.label_store.labels_view().len() && final(self).stores.label_store.labels_view()[l as int] == spacing@
            }),
            r.metrics.size == 1,
            r.metrics.height == 1,
            r.metrics.size_no_spaces == 0,
            // zero-semantic: the structure and label hash parts are cleared
            r.metrics.hashs.structt == 0,
            r.metrics.hashs.label == 0,
            final(self).stores.node_store.spec_len() > old(self).stores.node_store.spec_len()
                ==> ({
                let rec = final(self).stores.node_store.records_view()[r.compressed_node as int];
                rec.hashs.structt == 0 && rec.hashs.label == 0 && rec.bytes_len == spacing@.len()
            }),
    {
        let bytes_len = spacing.len();
        let spacing_id = self.stores.label_store.get_or_insert(spacing.as_slice());
        let spaces_u16 = Type::Spaces.canonical_u16();
        let label_hash = hash_bytes(spacing.as_slice());
        let mut hashs = build_hashs(spaces_u16, label_hash, 1, &SyntaxNodeHashs::zero());
        hashs.structt = 0;
        hashs.label = 0;
        let children: Vec<NodeIdentifier> = Vec::new();
        let found = self.stores.node_store.prepare_insertion(
            &Type::Spaces,
            Some(&spacing_id),
            &children,
        );
        let compressed_node = match found {
            Some(id) => id,
            None => {
                let rec = NodeRecord {
                    kind: Type::Spaces,
                    label: Some(spacing_id),
                    children,
                    no_space: None,
                    bytes_len: bytes_len as u32,
                    size: 1,
                    height: 1,
                    size_no_spaces: 0,
                    hashs,
                };
                self.stores.node_store.insert_after_prepare(rec)
            },
        };
        Local {
            compressed_node,
            metrics: SubTreeMetrics { size: 1, height: 1, hashs, size_no_spaces: 0 },
            ana: None,
        }
    }

    /// Close an accumulator into a stored node: compute the node's hash parts
    /// from the accumulated child parts, intern the label if any, and ask the
    /// store for an identifier — reusing an existing one when the content is
    /// already stored, inserting exactly one record otherwise.
    #[verifier::rlimit(100)]
    pub fn make(&mut self, global: &Global, acc: Acc, label: Option<Vec<u8>>) -> (r: FullNode)
        requires
            old(self).wf(),
            acc_bound(&old(self).stores.node_store, &acc),
            acc.start_byte <= acc.end_byte,
            acc.end_byte - acc.start_byte <= u32::MAX,
        ensures
            final(self).wf(),
            store_preserves(&old(self).stores.node_store, &final(self).stores.node_store),
            labels_preserve(&old(self).stores.label_store, &final(self).stores.label_store),
            final(self).stores.node_store.spec_len() <= old(self).stores.node_store.spec_len() + 1,
            r.local.compressed_node < final(self).stores.node_store.spec_len(),
            ({
                let rec = final(self).stores.node_store.records_view()[r.local.compressed_node as int];
                &&& rec.kind == acc.simple.kind
                &&& rec.children@ == acc.simple.children@
                &&& (match label {
                    Some(b) => rec.label matches Some(l) && l < final(self).stores.label_store.labels_view().len() && final(self).stores.label_store.labels_view()[l as int] == b@,
                    None => rec.label is None,
                })
            }),
            r.local.metrics.size == spec_sat_add(acc.metrics.size, 1),
            r.local.metrics.height == spec_sat_add(acc.metrics.height, 1),
            r.local.metrics.size_no_spaces == spec_sat_add(acc.metrics.size_no_spaces, 1),
            // a freshly stored record keeps the accumulator's no-space view,
            // carried separately exactly when it differs from the spaced one
            final(self).stores.node_store.spec_len() > old(self).stores.node_store.spec_len()
                ==> ({
                let rec = final(self).stores.node_store.records_view()[r.local.compressed_node as int];
                rec.spec_children_ns() == if acc.no_space@.len() == acc.simple.children@.len() {
                    acc.simple.children@
                } else {
                    acc.no_space@
                }
            }),
    {
        let interned_kind = acc.simple.kind;
        let size = sat_add(acc.metrics.size, 1);
        let height = sat_add(acc.metrics.height, 1);
        let size_no_spaces = sat_add(acc.metrics.size_no_spaces, 1);
        let label_hash = match &label {
            Some(b) => hash_bytes(b.as_slice()),
            None => 0,
        };
        let hashs = build_hashs(
            interned_kind.canonical_u16(),
            label_hash,
            size_no_spaces,
            &acc.metrics.hashs,
        );
        let label_id = match &label {
            Some(b) => Some(self.stores.label_store.get_or_insert(b.as_slice())),
            None => None,
        };
        let found = self.stores.node_store.prepare_insertion(
            &interned_kind,
            label_id.as_ref(),
            &acc.simple.children,
        );
        let local = match found {
            Some(compressed_node) => {
                Local {
                    compressed_node,
                    metrics: SubTreeMetrics { size, height, hashs, size_no_spaces },
                    ana: None,
                }
            },
            None => {
                let bytes_len = (acc.end_byte - acc.start_byte) as u32;
                let compressed_node = compress(
                    &mut self.stores.node_store,
                    label_id,
                    acc.simple,
                    acc.no_space,
                    size,
                    height,
                    size_no_spaces,
                    hashs,
                    bytes_len,
                );
                Local {
                    compressed_node,
                    metrics: SubTreeMetrics { size, height, hashs, size_no_spaces },
                    ana: None,
                }
            },
        };
        FullNode { global: (global.sum_byte_length, global.depth, global.position), local }
    }
}

/// Store one new record assembled from an accumulator: the no-space child
/// list is carried separately only when whitespace nodes made it differ from
/// the spaced one.
fn compress(
    store: &mut NodeStore,
    label_id: Option<LabelIdentifier>,
    simple: BasicAccumulator,
    no_space: Vec<NodeIdentifier>,
    size: u32,
    height: u32,
    size_no_spaces: u32,
    hashs: SyntaxNodeHashs,
    bytes_len: u32,
) -> (id: NodeIdentifier)
    requires
        old(store).wf(),
        forall|j: int|
            0 <= j < old(store).spec_len() ==> !content_eq(
                &(#[trigger] old(store).records_view()[j]),
                simple.kind,
                label_id,
                simple.children@,
            ),
        forall|k: int|
            0 <= k < simple.children@.len() ==> (#[trigger] simple.children@[k]) < old(
                store,
            ).spec_len(),
        forall|k: int| 0 <= k < no_space@.len() ==> (#[trigger] no_space@[k]) < old(
            store,
        ).spec_len(),
    ensures
        final(store).wf(),
        store_preserves(old(store), final(store)),
        final(store).spec_len() == old(store).spec_len() + 1,
        id == old(store).spec_len(),
        ({
            let rec = final(store).records_view()[id as int];
            &&& rec.kind == simple.kind
            &&& rec.label == label_id
            &&& rec.children@ == simple.children@
            &&& rec.size == size && rec.height == height && rec.size_no_spaces == size_no_spaces
            &&& rec.hashs == hashs && rec.bytes_len == bytes_len
            // the record carries a separate no-space list exactly when the
            // whitespace nodes made it differ from the spaced one
            &&& (no_space@.len() == simple.children@.len() ==> rec.no_space is None)
            &&& (no_space@.len() != simple.children@.len() ==> (rec.no_space matches Some(ns)
                && ns@ == no_space@))
            &&& rec.spec_children_ns() == if no_space@.len() == simple.children@.len() {
                simple.children@
            } else {
                no_space@
            }
        }),
{
    let same = no_space.len() == simple.children.len();
    let rec = NodeRecord {
        kind: simple.kind,
        label: label_id,
        children: simple.children,
        no_space: if same {
            None
        } else {
            Some(no_space)
        },
        bytes_len,
        size,
        height,
        size_no_spaces,
        hashs,
    };
    store.insert_after_prepare(rec)
}

impl TsTreeGen {
    /// Close a child: materialise the whitespace run between the text claimed
    /// so far and the child's start into the parent, extract the child's
    /// exact text as its label when it carries one, and store the child.
    pub fn post(&mut self, parent: &mut Acc, global: &mut Global, text: &[u8], acc: Acc) -> (r:
        FullNode)
        requires
            old(self).wf(),
            acc_bound(&old(self).stores.node_store, &acc),
            acc_bound(&old(self).stores.node_store, old(parent)),
            acc.padding_start <= acc.start_byte <= acc.end_byte <= text@.len(),
            text@.len() <= u32::MAX,
        ensures
            final(self).wf(),
            store_preserves(&old(self).stores.node_store, &final(self).stores.node_store),
            labels_preserve(&old(self).stores.label_store, &final(self).stores.label_store),
            acc_bound(&final(self).stores.node_store, final(parent)),
            r.local.compressed_node < final(self).stores.node_store.spec_len(),
            ({
                let rec = final(self).stores.node_store.records_view()[r.local.compressed_node as int];
                &&& rec.kind == acc.simple.kind
                &&& rec.children@ == acc.simple.children@
                &&& (if acc.labeled {
                    rec.label matches Some(l) && l < final(self).stores.label_store.labels_view().len() && final(self).stores.label_store.labels_view()[l as int] == text@.subrange(acc.start_byte as int, acc.end_byte as int)
                } else {
                    rec.label is None
                })
            }),
            // the whitespace run before the closed child, if any, becomes one
            // dedicated node pushed into the parent; nothing else is pushed
            acc.padding_start == acc.start_byte ==> final(parent).simple.children@ == old(
                parent,
            ).simple.children@,
            acc.padding_start < acc.start_byte ==> ({
                &&& final(parent).simple.children@.len() == old(parent).simple.children@.len() + 1
                &&& forall|i: int|
                    0 <= i < old(parent).simple.children@.len()
                        ==> #[trigger] final(parent).simple.children@[i] == old(
                        parent,
                    ).simple.children@[i]
                &&& spacing_stored(
                    &final(self).stores.node_store,
                    &final(self).stores.label_store,
                    final(parent).simple.children@.last() as int,
                    text@.subrange(acc.padding_start as int, acc.start_byte as int),
                )
            }),
            final(parent).no_space@ == old(parent).no_space@,
            final(parent).simple.kind == old(parent).simple.kind,
            final(parent).labeled == old(parent).labeled,
            final(parent).start_byte == old(parent).start_byte,
            final(parent).end_byte == old(parent).end_byte,
            final(parent).padding_start == old(parent).padding_start,
            final(parent).indentation == old(parent).indentation,
            final(global).sum_byte_length == old(global).sum_byte_length,
    {
        let spacing = get_spacing(acc.padding_start, acc.start_byte, text);
        match spacing {
            Some(spacing) => {
                let local = self.make_spacing(spacing);
                parent.push(
                    FullNode {
                        global: (global.sum_byte_length, global.depth, global.position),
                        local,
                    },
                );
            },
            None => {},
        }
        let label = if acc.labeled {
            Some(copy_range(text, acc.start_byte, acc.end_byte))
        } else {
            None
        };
        proof {
            assert(acc_bound(&self.stores.node_store, &acc));
        }
        self.make(global, acc, label)
    }

    /// Walk one concrete subtree bottom-up: open the node, build its children
    /// left to right (unless the node's kind skips them), then close it into
    /// its parent's accumulator. Claims the node's whole span of the text.
    #[verifier::loop_isolation(false)]
    pub fn gen_rec(&mut self, text: &[u8], node: &TNode, parent: &mut Acc, global: &mut Global)
        requires
            old(self).wf(),
            wf_tnode(*node, old(global).sum_byte_length as int, text@.len() as int),
            text@.len() <= u32::MAX,
            acc_bound(&old(self).stores.node_store, old(parent)),
        ensures
            final(self).wf(),
            store_preserves(&old(self).stores.node_store, &final(self).stores.node_store),
            labels_preserve(&old(self).stores.label_store, &final(self).stores.label_store),
            acc_bound(&final(self).stores.node_store, final(parent)),
            final(global).sum_byte_length == node.end_byte,
            final(parent).simple.kind == old(parent).simple.kind,
            final(parent).labeled == old(parent).labeled,
            final(parent).start_byte == old(parent).start_byte,
            final(parent).end_byte == old(parent).end_byte,
            final(parent).padding_start == old(parent).padding_start,
            final(parent).indentation == old(parent).indentation,
            final(parent).no_space@.len() >= old(parent).no_space@.len(),
            // what the walk pushes into the parent: the preceding whitespace
            // run, if any, then the closed node itself
            final(parent).simple.children@.len() == old(parent).simple.children@.len() + (
            if old(global).sum_byte_length < node.start_byte {
                2int
            } else {
                1int
            }),
            forall|i: int|
                0 <= i < old(parent).simple.children@.len()
                    ==> #[trigger] final(parent).simple.children@[i] == old(
                    parent,
                ).simple.children@[i],
            old(global).sum_byte_length < node.start_byte ==> spacing_stored(
                &final(self).stores.node_store,
                &final(self).stores.label_store,
                final(parent).simple.children@[old(parent).simple.children@.len() as int] as int,
                text@.subrange(old(global).sum_byte_length as int, node.start_byte as int),
            ),
            subtree_stored(
                &final(self).stores.node_store,
                &final(self).stores.label_store,
                final(parent).simple.children@.last() as int,
                *node,
                text@,
            ),
        decreases *node,
    {
        let ghost store0 = self.stores.node_store;
        let ghost labels0 = self.stores.label_store;
        let (mut acc, skip) = self.pre_skippable(text, node, parent, global);
        global.sum_byte_length = node.start_byte;
        let ghost mut marks: Seq<int> = Seq::empty();
        if !skip {
            let nchild = node.children.len();
            let mut k: usize = 0;
            while k < nchild
                invariant
                    k <= nchild,
                    nchild == node.children@.len(),
                    self.wf(),
                    text@.len() <= u32::MAX,
                    wf_tnode(*node, acc.padding_start as int, text@.len() as int),
                    store_preserves(&store0, &self.stores.node_store),
                    labels_preserve(&labels0, &self.stores.label_store),
                    acc_bound(&self.stores.node_store, &acc),
                    acc_bound(&self.stores.node_store, parent),
                    global.sum_byte_length == if k == 0 {
                        node.start_byte
                    } else {
                        node.children@[k - 1].end_byte
                    },
                    acc.simple.kind == type_of_u16(node.kind_id),
                    acc.start_byte == node.start_byte,
                    acc.end_byte == node.end_byte,
                    acc.padding_start == old(global).sum_byte_length,
                    acc.padding_start <= node.start_byte,
                    acc.labeled == (node.labeled || type_of_u16(node.kind_id) == Type::String
                        || type_of_u16(node.kind_id) == Type::Number || type_of_u16(node.kind_id)
                        == Type::TemplateString),
                    parent.simple.kind == old(parent).simple.kind,
                    parent.labeled == old(parent).labeled,
                    parent.start_byte == old(parent).start_byte,
                    parent.end_byte == old(parent).end_byte,
                    parent.padding_start == old(parent).padding_start,
                    parent.indentation == old(parent).indentation,
                    parent.simple.children@ == old(parent).simple.children@,
                    parent.no_space@ == old(parent).no_space@,
                    marks.len() == k,
                    forall|j: int|
                        0 <= j < k ==> 0 <= #[trigger] marks[j] < acc.simple.children@.len(),
                    forall|j1: int, j2: int| 0 <= j1 < j2 < k ==> marks[j1] < marks[j2],
                    forall|j: int|
                        #![trigger marks[j]]
                        0 <= j < k ==> subtree_stored(
                            &self.stores.node_store,
                            &self.stores.label_store,
                            acc.simple.children@[marks[j]] as int,
                            node.children@[j],
                            text@,
                        ),
                decreases nchild - k,
            {
                proof {
                    lemma_wf_child(
                        node.children@,
                        node.children@.len() as int,
                        node.start_byte as int,
                        node.end_byte as int,
                        k as int,
                    );
                    let lo = if k == 0 {
                        node.start_byte as int
                    } else {
                        node.children@[k - 1].end_byte as int
                    };
                    lemma_wf_tnode_widen(
                        node.children@[k as int],
                        lo,
                        node.end_byte as int,
                        lo,
                        text@.len() as int,
                    );
                    assert(decreases_to!(*node => node.children));
                    assert(decreases_to!(node.children => node.children@));
                    assert(decreases_to!(node.children@ => node.children@[k as int]));
                }
                let child = &node.children[k];
                let ghost s_pre = self.stores.node_store;
                let ghost l_pre = self.stores.label_store;
                let ghost acc_pre = acc.simple.children@;
                self.gen_rec(text, child, &mut acc, global);
                proof {
                    marks = marks.push(acc.simple.children@.len() - 1);
                    assert forall|j: int| #![trigger marks[j]] 0 <= j < k + 1 implies subtree_stored(
                        &self.stores.node_store,
                        &self.stores.label_store,
                        acc.simple.children@[marks[j]] as int,
                        node.children@[j],
                        text@,
                    ) by {
                        if j < k {
                            assert(acc.simple.children@[marks[j]] == acc_pre[marks[j]]);
                            lemma_subtree_stored_grow(
                                &s_pre,
                                &l_pre,
                                &self.stores.node_store,
                                &self.stores.label_store,
                                acc_pre[marks[j]] as int,
                                node.children@[j],
                                text@,
                            );
                        }
                    }
                }
                k = k + 1;
            }
        }
        global.sum_byte_length = node.end_byte;
        let ghost s_mid = self.stores.node_store;
        let ghost l_mid = self.stores.label_store;
        let ghost acc_children = acc.simple.children@;
        let ghost node_kind = type_of_u16(node.kind_id);
        let fnode = self.post(parent, global, text, acc);
        proof {
            let id = fnode.local.compressed_node as int;
            let rec = self.stores.node_store.records_view()[id];
            assert(rec.children@ == acc_children);
            if !(spec_literal_kind(node_kind) || node_kind == Type::TS0) {
                assert(!skip);
                assert forall|j: int| #![trigger marks[j]] 0 <= j
                    < node.children@.len() implies subtree_stored(
                    &self.stores.node_store,
                    &self.stores.label_store,
                    acc_children[marks[j]] as int,
                    node.children@[j],
                    text@,
                ) by {
                    lemma_subtree_stored_grow(
                        &s_mid,
                        &l_mid,
                        &self.stores.node_store,
                        &self.stores.label_store,
                        acc_children[marks[j]] as int,
                        node.children@[j],
                        text@,
                    );
                }
                assert(marks.len() == node.children@.len());
                assert(children_stored(
                    &self.stores.node_store,
                    &self.stores.label_store,
                    rec.children@,
                    node.children@,
                    text@,
                ));
            }
            assert(subtree_stored(
                &self.stores.node_store,
                &self.stores.label_store,
                id,
                *node,
                text@,
            ));
        }
        parent.push(fnode);
    }

    /// Build the whole tree of one file: a leading whitespace run becomes the
    /// first child, each concrete child is walked bottom-up, a trailing run
    /// becomes the last child, and the top-level node is closed under the
    /// file's name as its label.
    pub fn generate_file(&mut self, name: &[u8], text: &[u8], root: &TNode) -> (r: FullNode)
        requires
            old(self).wf(),
            wf_tnode(*root, 0, text@.len() as int),
            text@.len() <= u32::MAX,
        ensures
            final(self).wf(),
            store_preserves(&old(self).stores.node_store, &final(self).stores.node_store),
            labels_preserve(&old(self).stores.label_store, &final(self).stores.label_store),
            r.local.compressed_node < final(self).stores.node_store.spec_len(),
            ({
                let rec = final(self).stores.node_store.records_view()[r.local.compressed_node as int];
                &&& rec.kind == type_of_u16(root.kind_id)
                &&& rec.label matches Some(l) && l < final(self).stores.label_store.labels_view().len() && final(self).stores.label_store.labels_view()[l as int] == name@
                // every concrete child is stored, in source order, among the
                // top-level node's children
                &&& children_stored(
                    &final(self).stores.node_store,
                    &final(self).stores.label_store,
                    rec.children@,
                    root.children@,
                    text@,
                )
                // leading and trailing whitespace become explicit nodes
                &&& root.start_byte > 0 ==> rec.children@.len() >= 1 && spacing_stored(
                    &final(self).stores.node_store,
                    &final(self).stores.label_store,
                    rec.children@[0] as int,
                    text@.subrange(0, root.start_byte as int),
                )
                &&& root.end_byte < text@.len() ==> rec.children@.len() >= 1 && spacing_stored(
                    &final(self).stores.node_store,
                    &final(self).stores.label_store,
                    rec.children@.last() as int,
                    text@.subrange(root.end_byte as int, text@.len() as int),
                )
            }),
    {
        let mut global = Global::new();
        let mut init = self.init_val(text, root);
        let spacing = get_spacing(0, init.start_byte, text);
        match spacing {
            Some(spacing) => {
                global.down();
                init.start_byte = 0;
                let local = self.make_spacing(spacing);
                init.push(
                    FullNode {
                        global: (global.sum_byte_length, global.depth, global.position),
                        local,
                    },
                );
                global.right();
            },
            None => {},
        }
        global.sum_byte_length = root.start_byte;
        let ghost store0 = self.stores.node_store;
        let ghost labels0 = self.stores.label_store;
        let ghost lead: bool = root.start_byte > 0;
        let ghost mut marks: Seq<int> = Seq::empty();
        let nchild = root.children.len();
        let mut k: usize = 0;
        while k < nchild
            invariant
                k <= nchild,
                nchild == root.children@.len(),
                self.wf(),
                text@.len() <= u32::MAX,
                wf_tnode(*root, 0, text@.len() as int),
                store_preserves(&store0, &self.stores.node_store),
                labels_preserve(&labels0, &self.stores.label_store),
                acc_bound(&self.stores.node_store, &init),
                global.sum_byte_length == if k == 0 {
                    root.start_byte
                } else {
                    root.children@[k - 1].end_byte
                },
                init.simple.kind == type_of_u16(root.kind_id),
                init.end_byte == root.end_byte,
                init.start_byte <= init.end_byte,
                lead ==> init.simple.children@.len() >= 1 && spacing_stored(
                    &self.stores.node_store,
                    &self.stores.label_store,
                    init.simple.children@[0] as int,
                    text@.subrange(0, root.start_byte as int),
                ),
                marks.len() == k,
                forall|j: int|
                    0 <= j < k ==> 0 <= #[trigger] marks[j] < init.simple.children@.len(),
                forall|j1: int, j2: int| 0 <= j1 < j2 < k ==> marks[j1] < marks[j2],
                forall|j: int|
                    #![trigger marks[j]]
                    0 <= j < k ==> subtree_stored(
                        &self.stores.node_store,
                        &self.stores.label_store,
                        init.simple.children@[marks[j]] as int,
                        root.children@[j],
                        text@,
                    ),
            decreases nchild - k,
        {
            proof {
                lemma_wf_child(
                    root.children@,
                    root.children@.len() as int,
                    root.start_byte as int,
                    root.end_byte as int,
                    k as int,
                );
                let lo = if k == 0 {
                    root.start_byte as int
                } else {
                    root.children@[k - 1].end_byte as int
                };
                lemma_wf_tnode_widen(
                    root.children@[k as int],
                    lo,
                    root.end_byte as int,
                    lo,
                    text@.len() as int,
                );
                assert(decreases_to!(*root => root.children));
                assert(decreases_to!(root.children => root.children@));
                assert(decreases_to!(root.children@ => root.children@[k as int]));
            }
            let child = &root.children[k];
            let ghost s_pre = self.stores.node_store;
            let ghost l_pre = self.stores.label_store;
            let ghost init_pre = init.simple.children@;
            self.gen_rec(text, child, &mut init, &mut global);
            proof {
                marks = marks.push(init.simple.children@.len() - 1);
                assert forall|j: int| #![trigger marks[j]] 0 <= j < k + 1 implies subtree_stored(
                    &self.stores.node_store,
                    &self.stores.label_store,
                    init.simple.children@[marks[j]] as int,
                    root.children@[j],
                    text@,
                ) by {
                    if j < k {
                        assert(init.simple.children@[marks[j]] == init_pre[marks[j]]);
                        lemma_subtree_stored_grow(
                            &s_pre,
                            &l_pre,
                            &self.stores.node_store,
                            &self.stores.label_store,
                            init_pre[marks[j]] as int,
                            root.children@[j],
                            text@,
                        );
                    }
                }
            }
            k = k + 1;
        }
        global.sum_byte_length = root.end_byte;
        let ghost s_loop = self.stores.node_store;
        let ghost l_loop = self.stores.label_store;
        let ghost init_loop = init.simple.children@;
        if has_final_space(&0, global.sum_byte_length, text) {
            let spacing = get_spacing(global.sum_byte_length, text.len(), text);
            match spacing {
                Some(spacing) => {
                    global.right();
                    let local = self.make_spacing(spacing);
                    init.push(
                        FullNode {
                            global: (global.sum_byte_length, global.depth, global.position),
                            local,
                        },
                    );
                },
                None => {},
            }
        }
        let ghost init_children = init.simple.children@;
        let label = Some(copy_bytes(name));
        let r = self.make(&global, init, label);
        proof {
            let sf = &self.stores.node_store;
            let lf = &self.stores.label_store;
            let id = r.local.compressed_node as int;
            let rec = sf.records_view()[id];
            assert(rec.children@ == init_children);
            assert(store_preserves(&s_loop, sf));
            assert(labels_preserve(&l_loop, lf));
            assert forall|j: int| #![trigger marks[j]] 0 <= j
                < root.children@.len() implies subtree_stored(
                sf,
                lf,
                init_children[marks[j]] as int,
                root.children@[j],
                text@,
            ) by {
                assert(init_children[marks[j]] == init_loop[marks[j]]);
                lemma_subtree_stored_grow(
                    &s_loop,
                    &l_loop,
                    sf,
                    lf,
                    init_loop[marks[j]] as int,
                    root.children@[j],
                    text@,
                );
            }
            assert(marks.len() == root.children@.len());
            assert(children_stored(sf, lf, rec.children@, root.children@, text@));
        }
        r
    }
}

} // verus!
