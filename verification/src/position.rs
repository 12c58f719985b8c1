//! Position reconstruction over a decompressed arena.
//!
//! A shared subtree has no single canonical position, so positions are
//! reconstructed per arena instance by a memoized recursion: a node's position
//! is its left sibling's position advanced by the sibling's length, or — with
//! no left sibling — its parent's position with the length updated; children
//! of directory nodes are path-anchored at offset zero instead. The memo
//! lives in the processor and is valid only for its arena.

use crate::complete_post_order::{lemma_lsib_is_sibling, CompletePostOrder};
use crate::label_store::LabelStore;
use crate::node_store::{NodeIdentifier, NodeStore};
use crate::type_table::Type;
use std::collections::HashMap;
use vstd::prelude::*;

verus! {

/// A resolved position: the file path it is anchored in, a byte offset and a
/// byte length.
pub struct Position {
    pub file: Vec<u8>,
    pub offset: usize,
    pub len: usize,
}

impl Position {
    pub fn new(file: Vec<u8>, offset: usize, len: usize) -> (r: Position)
        ensures
            r.file == file,
            r.offset == offset,
            r.len == len,
    {
        Position { file, offset, len }
    }

    /// The byte range this position covers.
    pub fn range(&self) -> (r: (usize, usize))
        ensures
            r.0 == self.offset,
            r.1 == spec_sat_add_usize(self.offset as int, self.len as int),
    {
        (self.offset, sat_add_usize(self.offset, self.len))
    }
}

/// Saturating addition on offsets.
pub open spec fn spec_sat_add_usize(a: int, b: int) -> usize {
    if a + b > usize::MAX {
        usize::MAX
    } else {
        (a + b) as usize
    }
}

fn sat_add_usize(a: usize, b: usize) -> (r: usize)
    ensures
        r == spec_sat_add_usize(a as int, b as int),
{
    if a > usize::MAX - b {
        usize::MAX
    } else {
        a + b
    }
}

/// How many parent steps lead from `c` to the root.
pub open spec fn spec_depth(a: &CompletePostOrder, c: int) -> nat
    decreases a.spec_len() - c,
    when a.wf() && 0 <= c < a.spec_len()
{
    if c == a.spec_len() - 1 {
        0
    } else {
        1 + spec_depth(a, a.parent_view()[c] as int)
    }
}

/// A left sibling sits at the same depth.
proof fn lemma_depth_lsib(a: &CompletePostOrder, c: int)
    requires
        a.wf(),
        0 <= c < a.spec_len() - 1,
        a.llds_view()[a.parent_view()[c] as int] < a.llds_view()[c],
    ensures
        a.llds_view()[c] - 1 < c,
        spec_depth(a, a.llds_view()[c] - 1) == spec_depth(a, c),
{
    lemma_lsib_is_sibling(a, c);
    let w = a.llds_view()[c] - 1;
    assert(a.parent_view()[w] == a.parent_view()[c]);
    assert(w < a.spec_len() - 1);
    assert(spec_depth(a, w) == 1 + spec_depth(a, a.parent_view()[w] as int));
    assert(spec_depth(a, c) == 1 + spec_depth(a, a.parent_view()[c] as int));
}

/// A way to fold a path through the arena into a value: one step for "my
/// parent's value reaches me first", one for "my left sibling's value reaches
/// me first", and the value a root starts from. An implementation also knows
/// how to duplicate its values, so memoized results can be handed out.
pub trait NodeAggregator {
    type Out;

    spec fn default_spec(&self) -> Self::Out;

    spec fn with_p_spec(&self, acc: Self::Out, id: NodeIdentifier) -> Self::Out;

    spec fn with_lsib_spec(&self, acc: Self::Out, id: NodeIdentifier) -> Self::Out;

    fn default_out(&self) -> (r: Self::Out)
        ensures
            r == self.default_spec(),
    ;

    fn with_p(&self, acc: Self::Out, id: NodeIdentifier) -> (r: Self::Out)
        ensures
            r == self.with_p_spec(acc, id),
    ;

    fn with_lsib(&self, acc: Self::Out, id: NodeIdentifier) -> (r: Self::Out)
        ensures
            r == self.with_lsib_spec(acc, id),
    ;

    fn clone_out(&self, o: &Self::Out) -> (r: Self::Out)
        ensures
            r == *o,
    ;
}

/// The value `position2` computes for an index, without memoization: fold the
/// chain of left siblings and parents down from the root.
pub open spec fn spec_pos2<A: NodeAggregator>(
    agg: &A,
    a: &CompletePostOrder,
    root: NodeIdentifier,
    c: int,
) -> A::Out
    decreases spec_depth(a, c), c,
    when a.wf() && 0 <= c < a.spec_len()
    via spec_pos2_dec::<A>
{
    if c == a.spec_len() - 1 {
        agg.with_p_spec(agg.default_spec(), a.orig_view()[c])
    } else {
        let p = a.parent_view()[c] as int;
        if a.llds_view()[p] < a.llds_view()[c] {
            agg.with_lsib_spec(spec_pos2(agg, a, root, a.llds_view()[c] - 1), a.orig_view()[c])
        } else if a.orig_view()[c] == root {
            agg.with_p_spec(agg.default_spec(), a.orig_view()[c])
        } else {
            agg.with_p_spec(spec_pos2(agg, a, root, p), a.orig_view()[c])
        }
    }
}

#[via_fn]
proof fn spec_pos2_dec<A: NodeAggregator>(
    agg: &A,
    a: &CompletePostOrder,
    root: NodeIdentifier,
    c: int,
) {
    if c < a.spec_len() - 1 {
        let p = a.parent_view()[c] as int;
        if a.llds_view()[p] < a.llds_view()[c] {
            lemma_depth_lsib(a, c);
        }
    }
}

/// A memoized fold over one arena: results are cached per index and reused.
pub struct RecCachedProcessor<'a, A: NodeAggregator> {
    ds: &'a CompletePostOrder,
    root: NodeIdentifier,
    cache: HashMap<usize, A::Out>,
    cache_s: HashMap<usize, A::Out>,
    agg: A,
}

impl<'a, A: NodeAggregator> RecCachedProcessor<'a, A> {
    pub closed spec fn arena(&self) -> &'a CompletePostOrder {
        self.ds
    }

    pub closed spec fn root_spec(&self) -> NodeIdentifier {
        self.root
    }

    pub closed spec fn agg_spec(&self) -> &A {
        &self.agg
    }

    pub closed spec fn cache_view(&self) -> Map<usize, A::Out> {
        self.cache@
    }

    /// Every memoized value is the value the fold computes.
    pub open spec fn wf(&self) -> bool {
        &&& self.arena().wf()
        &&& forall|k: usize|
            self.cache_view().contains_key(k) ==> (#[trigger] self.cache_view()[k]) == spec_pos2(
                self.agg_spec(),
                self.arena(),
                self.root_spec(),
                k as int,
            )
    }

    /// A fresh processor over an arena, anchored at `root`, with an empty
    /// memo.
    pub fn from(ds: &'a CompletePostOrder, root: NodeIdentifier, agg: A) -> (r: Self)
        requires
            ds.wf(),
        ensures
            r.wf(),
            r.arena() == ds,
            r.root_spec() == root,
            r.agg_spec() == &agg,
            r.cache_s_view() == Map::<usize, A::Out>::empty(),
    {
        RecCachedProcessor { ds, root, cache: HashMap::new(), cache_s: HashMap::new(), agg }
    }

    /// The fold value of index `c`, memoized: the left sibling's value folded
    /// by one sibling step, else the parent's value folded by one parent
    /// step; the root and the anchor node start from the default value.
    pub fn position2(&mut self, c: usize) -> (r: A::Out)
        requires
            old(self).wf(),
            c < old(self).arena().spec_len(),
        ensures
            final(self).wf(),
            final(self).arena() == old(self).arena(),
            final(self).root_spec() == old(self).root_spec(),
            final(self).agg_spec() == old(self).agg_spec(),
            r == spec_pos2(
                old(self).agg_spec(),
                old(self).arena(),
                old(self).root_spec(),
                c as int,
            ),
        decreases spec_depth(old(self).arena(), c as int), c,
    {
        let cached = self.cache.contains_key(&c);
        if cached {
            let v = match self.cache.get(&c) {
                Some(v) => {
                    proof {
                        assert(self.cache_view().contains_key(c));
                        assert(*v == self.cache_view()[c]);
                        assert(self.cache_view()[c] == spec_pos2(
                            self.agg_spec(),
                            self.arena(),
                            self.root_spec(),
                            c as int,
                        ));
                    }
                    self.agg.clone_out(v)
                },
                None => {
                    // contradicts the membership test just made
                    proof {
                        assert(false);
                    }
                    self.agg.default_out()
                },
            };
            return v;
        }
        let n = self.ds.len();
        let v: A::Out;
        if c == n - 1 {
            let ori = self.ds.original(c);
            v = self.agg.with_p(self.agg.default_out(), ori);
        } else {
            let p = match self.ds.parent(c) {
                Some(p) => p,
                None => {
                    proof {
                        assert(false);
                    }
                    0
                },
            };
            let p_lld = self.ds.first_descendant(p);
            match self.ds.lsib(c, p_lld) {
                Some(lsib) => {
                    proof {
                        lemma_depth_lsib(self.ds, c as int);
                    }
                    let prev = self.position2(lsib);
                    let ori = self.ds.original(c);
                    v = self.agg.with_lsib(prev, ori);
                },
                None => {
                    let ori = self.ds.original(c);
                    if ori == self.root {
                        v = self.agg.with_p(self.agg.default_out(), ori);
                    } else {
                        let prev = self.position2(p);
                        v = self.agg.with_p(prev, ori);
                    }
                },
            }
        }
        proof {
            assert(v == spec_pos2(old(self).agg_spec(), old(self).arena(), old(self).root_spec(), c as int));
        }
        let ghost pre = *self;
        let out = self.agg.clone_out(&v);
        self.cache.insert(c, v);
        proof {
            assert forall|k: usize| self.cache_view().contains_key(k) implies (
            #[trigger] self.cache_view()[k]) == spec_pos2(
                self.agg_spec(),
                self.arena(),
                self.root_spec(),
                k as int,
            ) by {
                if k != c {
                    assert(pre.cache_view().contains_key(k));
                    assert(self.cache_view()[k] == pre.cache_view()[k]);
                }
            }
        }
        out
    }
}


/// The spec-level value of a resolved position.
pub open spec fn spec_pos_file(p: (Seq<u8>, int, int)) -> Seq<u8> {
    p.0
}

/// What must hold of an arena and its stores for positions to resolve: every
/// arena index stands for a stored node, labels point into the label store,
/// entries of directories are labeled, and a directory or file root is
/// labeled with its name.
pub open spec fn positionable(
    store: &NodeStore,
    lstore: &LabelStore,
    a: &CompletePostOrder,
) -> bool {
    &&& a.wf()
    &&& forall|i: int| 0 <= i < a.spec_len() ==> (#[trigger] a.orig_view()[i]) < store.spec_len()
    &&& forall|i: int|
        0 <= i < a.spec_len() ==> ((#[trigger] store.records_view()[a.orig_view()[i] as int].label)
            matches Some(l) ==> l < lstore.labels_view().len())
    &&& forall|i: int|
        0 <= i < a.spec_len() - 1 ==> (store.records_view()[a.orig_view()[#[trigger] a.parent_view()[i] as int] as int].kind
            == Type::Directory ==> store.records_view()[a.orig_view()[i] as int].label is Some)
    &&& (store.records_view()[a.orig_view()[a.spec_len() - 1] as int].kind == Type::Directory
        || store.records_view()[a.orig_view()[a.spec_len() - 1] as int].kind == Type::Program
        ==> store.records_view()[a.orig_view()[a.spec_len() - 1] as int].label is Some)
}

/// The position of an arena index: its left sibling's position advanced by
/// the sibling's length, or its parent's position with the length updated;
/// entries of directory nodes are instead path-anchored at offset zero, the
/// path growing by one segment per directory, and the anchor node and the
/// root start fresh.
pub open spec fn spec_file_pos(
    store: &NodeStore,
    lstore: &LabelStore,
    a: &CompletePostOrder,
    root: NodeIdentifier,
    c: int,
) -> (Seq<u8>, int, int)
    decreases spec_depth(a, c), c,
    when positionable(store, lstore, a) && 0 <= c < a.spec_len()
    via spec_file_pos_dec
{
    let o = a.orig_view()[c];
    let rec = store.records_view()[o as int];
    let len = rec.bytes_len as int;
    if c == a.spec_len() - 1 {
        if rec.kind == Type::Directory || rec.kind == Type::Program {
            (lstore.labels_view()[rec.label.unwrap() as int], 0, len)
        } else {
            (Seq::empty(), 0, len)
        }
    } else {
        let p = a.parent_view()[c] as int;
        let p_rec = store.records_view()[a.orig_view()[p] as int];
        if p_rec.kind == Type::Directory {
            if o == root {
                (lstore.labels_view()[rec.label.unwrap() as int], 0, len)
            } else {
                let pos = spec_file_pos(store, lstore, a, root, p);
                (
                    pos.0 + seq![47u8] + lstore.labels_view()[rec.label.unwrap() as int],
                    pos.1,
                    len,
                )
            }
        } else if a.llds_view()[p] < a.llds_view()[c] {
            let pos = spec_file_pos(store, lstore, a, root, a.llds_view()[c] - 1);
            (pos.0, spec_sat_add_usize(pos.1, pos.2) as int, len)
        } else if o == root {
            (Seq::empty(), 0, len)
        } else {
            let pos = spec_file_pos(store, lstore, a, root, p);
            (pos.0, pos.1, len)
        }
    }
}

#[via_fn]
proof fn spec_file_pos_dec(
    store: &NodeStore,
    lstore: &LabelStore,
    a: &CompletePostOrder,
    root: NodeIdentifier,
    c: int,
) {
    if c < a.spec_len() - 1 {
        let p = a.parent_view()[c] as int;
        let p_rec = store.records_view()[a.orig_view()[p] as int];
        if p_rec.kind != Type::Directory && a.llds_view()[p] < a.llds_view()[c] {
            lemma_depth_lsib(a, c);
        }
    }
}

/// Duplicate a position value.
pub fn clone_pos(p: &Position) -> (r: Position)
    ensures
        r.file@ == p.file@,
        r.offset == p.offset,
        r.len == p.len,
{
    let mut file: Vec<u8> = Vec::new();
    let mut k: usize = 0;
    while k < p.file.len()
        invariant
            k <= p.file@.len(),
            file@ == p.file@.take(k as int),
        decreases p.file@.len() - k,
    {
        file.push(p.file[k]);
        k = k + 1;
        proof {
            assert(p.file@.take(k as int) =~= p.file@.take(k - 1).push(p.file@[k - 1]));
        }
    }
    proof {
        assert(file@ =~= p.file@);
    }
    Position { file, offset: p.offset, len: p.len }
}

/// Memoized position reconstruction over one arena, anchored at one stored
/// root.
pub struct RecCachedPositionProcessor<'a> {
    ds: &'a CompletePostOrder,
    root: NodeIdentifier,
    cache: HashMap<usize, Position>,
}

impl<'a> RecCachedPositionProcessor<'a> {
    pub closed spec fn arena(&self) -> &'a CompletePostOrder {
        self.ds
    }

    pub closed spec fn root_spec(&self) -> NodeIdentifier {
        self.root
    }

    pub closed spec fn cache_view(&self) -> Map<usize, Position> {
        self.cache@
    }

    /// Every memoized position is the position the recursion computes over
    /// the given stores.
    pub open spec fn coherent(&self, store: &NodeStore, lstore: &LabelStore) -> bool {
        forall|k: usize|
            self.cache_view().contains_key(k) ==> spec_of_position(
                #[trigger] self.cache_view()[k],
            ) == spec_file_pos(store, lstore, self.arena(), self.root_spec(), k as int)
    }

    /// A fresh processor with an empty memo.
    pub fn from(ds: &'a CompletePostOrder, root: NodeIdentifier) -> (r: Self)
        requires
            ds.wf(),
        ensures
            r.arena() == ds,
            r.root_spec() == root,
            r.cache_view() == Map::<usize, Position>::empty(),
    {
        RecCachedPositionProcessor { ds, root, cache: HashMap::new() }
    }

    /// The position of arena index `c`, memoized.
    pub fn position(&mut self, store: &NodeStore, lstore: &LabelStore, c: usize) -> (r: Position)
        requires
            positionable(store, lstore, old(self).arena()),
            old(self).coherent(store, lstore),
            c < old(self).arena().spec_len(),
        ensures
            final(self).arena() == old(self).arena(),
            final(self).root_spec() == old(self).root_spec(),
            final(self).coherent(store, lstore),
            spec_of_position(r) == spec_file_pos(
                store,
                lstore,
                old(self).arena(),
                old(self).root_spec(),
                c as int,
            ),
        decreases spec_depth(old(self).arena(), c as int), c,
    {
        let cached = self.cache.contains_key(&c);
        if cached {
            match self.cache.get(&c) {
                Some(v) => {
                    proof {
                        assert(self.cache_view().contains_key(c));
                        assert(*v == self.cache_view()[c]);
                    }
                    return clone_pos(v);
                },
                None => {
                    proof {
                        assert(false);
                    }
                },
            }
        }
        let n = self.ds.len();
        let o = self.ds.original(c);
        let rec = store.resolve(o);
        let len32 = rec.bytes_len;
        let v: Position;
        if c == n - 1 {
            if rec.kind == Type::Directory || rec.kind == Type::Program {
                let l = match &rec.label {
                    Some(l) => *l,
                    None => {
                        proof {
                            assert(false);
                        }
                        0
                    },
                };
                v = Position { file: copy_label(lstore, l), offset: 0, len: len32 as usize };
            } else {
                v = Position { file: Vec::new(), offset: 0, len: len32 as usize };
            }
        } else {
            let p = match self.ds.parent(c) {
                Some(p) => p,
                None => {
                    proof {
                        assert(false);
                    }
                    0
                },
            };
            let p_rec = store.resolve(self.ds.original(p));
            if p_rec.kind == Type::Directory {
                let l = match &rec.label {
                    Some(l) => *l,
                    None => {
                        proof {
                            assert(false);
                        }
                        0
                    },
                };
                if o == self.root {
                    v = Position { file: copy_label(lstore, l), offset: 0, len: len32 as usize };
                } else {
                    let pos = self.position(store, lstore, p);
                    let mut file = pos.file;
                    file.push(47);
                    let lab = lstore.resolve(l);
                    let mut k: usize = 0;
                    let ghost file0 = file@;
                    while k < lab.len()
                        invariant
                            k <= lab@.len(),
                            file@ == file0 + lab@.take(k as int),
                        decreases lab@.len() - k,
                    {
                        file.push(lab[k]);
                        k = k + 1;
                        proof {
                            assert(file0 + lab@.take(k as int) =~= (file0 + lab@.take(k - 1)).push(
                                lab@[k - 1],
                            ));
                        }
                    }
                    proof {
                        assert(file@ =~= file0 + lab@);
                        assert(file0 =~= pos.file@ + seq![47u8]);
                        assert(file@ =~= pos.file@ + seq![47u8] + lab@);
                    }
                    v = Position { file, offset: pos.offset, len: len32 as usize };
                }
            } else {
                let p_lld = self.ds.first_descendant(p);
                match self.ds.lsib(c, p_lld) {
                    Some(lsib) => {
                        proof {
                            lemma_depth_lsib(self.ds, c as int);
                        }
                        let pos = self.position(store, lstore, lsib);
                        let off = sat_add_usize(pos.offset, pos.len);
                        v = Position { file: pos.file, offset: off, len: len32 as usize };
                    },
                    None => {
                        if o == self.root {
                            v = Position { file: Vec::new(), offset: 0, len: len32 as usize };
                        } else {
                            let pos = self.position(store, lstore, p);
                            v = Position { file: pos.file, offset: pos.offset, len: len32 as usize };
                        }
                    },
                }
            }
        }
        proof {
            assert(spec_of_position(v) == spec_file_pos(
                store,
                lstore,
                old(self).arena(),
                old(self).root_spec(),
                c as int,
            ));
        }
        let ghost pre = *self;
        let out = clone_pos(&v);
        self.cache.insert(c, v);
        proof {
            assert forall|k: usize| self.cache_view().contains_key(k) implies spec_of_position(
                #[trigger] self.cache_view()[k],
            ) == spec_file_pos(store, lstore, self.arena(), self.root_spec(), k as int) by {
                if k != c {
                    assert(pre.cache_view().contains_key(k));
                    assert(self.cache_view()[k] == pre.cache_view()[k]);
                }
            }
        }
        out
    }
}

/// The value the store-aware fold computes for an index: like the plain fold,
/// but entries of directory nodes always take the parent step, so sibling
/// advancement never crosses a directory boundary.
pub open spec fn spec_pos_s<A: NodeAggregator>(
    agg: &A,
    store: &NodeStore,
    a: &CompletePostOrder,
    root: NodeIdentifier,
    c: int,
) -> A::Out
    decreases spec_depth(a, c), c,
    when a.wf() && 0 <= c < a.spec_len()
    via spec_pos_s_dec::<A>
{
    if c == a.spec_len() - 1 {
        agg.with_p_spec(agg.default_spec(), a.orig_view()[c])
    } else {
        let p = a.parent_view()[c] as int;
        let p_kind = store.records_view()[a.orig_view()[p] as int].kind;
        if p_kind == Type::Directory {
            if a.orig_view()[c] == root {
                agg.with_p_spec(agg.default_spec(), a.orig_view()[c])
            } else {
                agg.with_p_spec(spec_pos_s(agg, store, a, root, p), a.orig_view()[c])
            }
        } else if a.llds_view()[p] < a.llds_view()[c] {
            agg.with_lsib_spec(
                spec_pos_s(agg, store, a, root, a.llds_view()[c] - 1),
                a.orig_view()[c],
            )
        } else if a.orig_view()[c] == root {
            agg.with_p_spec(agg.default_spec(), a.orig_view()[c])
        } else {
            agg.with_p_spec(spec_pos_s(agg, store, a, root, p), a.orig_view()[c])
        }
    }
}

#[via_fn]
proof fn spec_pos_s_dec<A: NodeAggregator>(
    agg: &A,
    store: &NodeStore,
    a: &CompletePostOrder,
    root: NodeIdentifier,
    c: int,
) {
    if c < a.spec_len() - 1 {
        let p = a.parent_view()[c] as int;
        let p_kind = store.records_view()[a.orig_view()[p] as int].kind;
        if p_kind != Type::Directory && a.llds_view()[p] < a.llds_view()[c] {
            lemma_depth_lsib(a, c);
        }
    }
}

impl<'a, A: NodeAggregator> RecCachedProcessor<'a, A> {
    pub closed spec fn cache_s_view(&self) -> Map<usize, A::Out> {
        self.cache_s@
    }

    /// Every memoized store-aware value is the value the store-aware fold
    /// computes over the given store.
    pub open spec fn coherent_s(&self, store: &NodeStore) -> bool {
        forall|k: usize|
            self.cache_s_view().contains_key(k) ==> (#[trigger] self.cache_s_view()[k])
                == spec_pos_s(self.agg_spec(), store, self.arena(), self.root_spec(), k as int)
    }

    /// The store-aware fold value of index `c`, memoized: as `position2`, but
    /// under a directory parent the parent step is always taken, and the
    /// anchor node under a directory starts fresh.
    pub fn position(&mut self, store: &NodeStore, c: usize) -> (r: A::Out)
        requires
            old(self).wf(),
            old(self).coherent_s(store),
            c < old(self).arena().spec_len(),
            forall|i: int|
                0 <= i < old(self).arena().spec_len() ==> (#[trigger] old(
                    self,
                ).arena().orig_view()[i]) < store.spec_len(),
        ensures
            final(self).wf(),
            final(self).coherent_s(store),
            final(self).arena() == old(self).arena(),
            final(self).root_spec() == old(self).root_spec(),
            final(self).agg_spec() == old(self).agg_spec(),
            final(self).cache_view() == old(self).cache_view(),
            r == spec_pos_s(
                old(self).agg_spec(),
                store,
                old(self).arena(),
                old(self).root_spec(),
                c as int,
            ),
        decreases spec_depth(old(self).arena(), c as int), c,
    {
        let cached = self.cache_s.contains_key(&c);
        if cached {
            match self.cache_s.get(&c) {
                Some(v) => {
                    proof {
                        assert(self.cache_s_view().contains_key(c));
                        assert(*v == self.cache_s_view()[c]);
                    }
                    return self.agg.clone_out(v);
                },
                None => {
                    proof {
                        assert(false);
                    }
                },
            }
        }
        let n = self.ds.len();
        let v: A::Out;
        if c == n - 1 {
            let ori = self.ds.original(c);
            v = self.agg.with_p(self.agg.default_out(), ori);
        } else {
            let p = match self.ds.parent(c) {
                Some(p) => p,
                None => {
                    proof {
                        assert(false);
                    }
                    0
                },
            };
            let ori = self.ds.original(c);
            let p_kind = store.resolve(self.ds.original(p)).kind;
            if p_kind == Type::Directory {
                if ori == self.root {
                    v = self.agg.with_p(self.agg.default_out(), ori);
                } else {
                    let prev = self.position(store, p);
                    v = self.agg.with_p(prev, ori);
                }
            } else {
                let p_lld = self.ds.first_descendant(p);
                match self.ds.lsib(c, p_lld) {
                    Some(lsib) => {
                        proof {
                            lemma_depth_lsib(self.ds, c as int);
                        }
                        let prev = self.position(store, lsib);
                        v = self.agg.with_lsib(prev, ori);
                    },
                    None => {
                        if ori == self.root {
                            v = self.agg.with_p(self.agg.default_out(), ori);
                        } else {
                            let prev = self.position(store, p);
                            v = self.agg.with_p(prev, ori);
                        }
                    },
                }
            }
        }
        let ghost pre = *self;
        let out = self.agg.clone_out(&v);
        self.cache_s.insert(c, v);
        proof {
            assert forall|k: usize| self.cache_s_view().contains_key(k) implies (
            #[trigger] self.cache_s_view()[k]) == spec_pos_s(
                self.agg_spec(),
                store,
                self.arena(),
                self.root_spec(),
                k as int,
            ) by {
                if k != c {
                    assert(pre.cache_s_view().contains_key(k));
                    assert(self.cache_s_view()[k] == pre.cache_s_view()[k]);
                }
            }
            assert(self.cache_view() == old(self).cache_view());
            assert forall|k: usize| self.cache_view().contains_key(k) implies (
            #[trigger] self.cache_view()[k]) == spec_pos2(
                self.agg_spec(),
                self.arena(),
                self.root_spec(),
                k as int,
            ) by {
                assert(old(self).cache_view().contains_key(k));
                assert(old(self).cache_view()[k] == self.cache_view()[k]);
            }
        }
        out
    }
}

/// A ready-made aggregator: it counts the left-sibling steps of the fold,
/// which is how many earlier siblings lie on the chain walked from the root
/// down to a node. The counter stops at its ceiling.
pub struct SiblingCounter;

impl NodeAggregator for SiblingCounter {
    type Out = usize;

    open spec fn default_spec(&self) -> usize {
        0
    }

    open spec fn with_p_spec(&self, acc: usize, id: NodeIdentifier) -> usize {
        acc
    }

    open spec fn with_lsib_spec(&self, acc: usize, id: NodeIdentifier) -> usize {
        if acc < usize::MAX {
            (acc + 1) as usize
        } else {
            acc
        }
    }

    fn default_out(&self) -> (r: usize) {
        0
    }

    fn with_p(&self, acc: usize, id: NodeIdentifier) -> (r: usize) {
        acc
    }

    fn with_lsib(&self, acc: usize, id: NodeIdentifier) -> (r: usize) {
        if acc < usize::MAX {
            acc + 1
        } else {
            acc
        }
    }

    fn clone_out(&self, o: &usize) -> (r: usize) {
        *o
    }
}

/// The spec-level triple of an executable position.
pub open spec fn spec_of_position(p: Position) -> (Seq<u8>, int, int) {
    (p.file@, p.offset as int, p.len as int)
}

/// Copy an interned label's bytes.
fn copy_label(lstore: &LabelStore, l: usize) -> (r: Vec<u8>)
    requires
        (l as int) < lstore.labels_view().len(),
    ensures
        r@ == lstore.labels_view()[l as int],
{
    let lab = lstore.resolve(l);
    let mut file: Vec<u8> = Vec::new();
    let mut k: usize = 0;
    while k < lab.len()
        invariant
            k <= lab@.len(),
            lab@ == lstore.labels_view()[l as int],
            file@ == lab@.take(k as int),
        decreases lab@.len() - k,
    {
        file.push(lab[k]);
        k = k + 1;
        proof {
            assert(lab@.take(k as int) =~= lab@.take(k - 1).push(lab@[k - 1]));
        }
    }
    proof {
        assert(file@ =~= lab@);
    }
    file
}

} // verus!
