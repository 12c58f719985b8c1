//! The greedy bottom-up matcher: the heuristic whole-tree pass of the diff.
//!
//! Source nodes are visited in post-order. An unmapped internal node with at
//! least one already-mapped descendant is scored against every destination
//! candidate of the same kind by the Dice coefficient over the current
//! mappings, and the strictly best candidate at or above the configured
//! threshold is accepted; ties keep the earlier candidate of the fixed
//! enumeration order (seeds ascending, ancestors bottom-up), so runs are
//! reproducible. On acceptance the bounded optimal matcher first refines the
//! two subtrees — only when both are below the size threshold — and the two
//! roots are then linked if the refinement left them free. After the pass the
//! absolute tree roots are force-linked if still unmapped and refined the same
//! way, so every diff of two non-empty trees ends with the roots mapped.

use crate::complete_post_order::{lemma_contiguous_descendants, lemma_desc_up, CompletePostOrder};
use crate::label_store::LabelStore;
use crate::mapping_store::{lemma_extends_trans, MappingStore};
use crate::node_store::{NodeIdentifier, NodeStore};
use crate::type_table::Type;
use crate::similarity_metrics::{spec_mapped_pairs, SimilarityMeasure};
use crate::zs::{ZsMatcher, ZsTree};
use vstd::prelude::*;

verus! {

pub struct GreedyBottomUpMatcher<'a> {
    pub node_store: &'a NodeStore,
    pub label_store: &'a LabelStore,
    pub src_arena: CompletePostOrder,
    pub dst_arena: CompletePostOrder,
    pub mappings: MappingStore,
    /// Subtrees at least this large skip the exact refinement.
    pub size_threshold: usize,
    /// Numerator of the acceptance threshold for Dice scores.
    pub sim_threshold_num: u32,
    /// Denominator of the acceptance threshold for Dice scores.
    pub sim_threshold_den: u32,
}

impl<'a> GreedyBottomUpMatcher<'a> {
    pub open spec fn store(&self) -> &'a NodeStore {
        self.node_store
    }

    pub open spec fn wf(&self) -> bool {
        &&& self.store().wf()
        &&& self.src_arena.wf()
        &&& self.src_arena.consistent_with(self.store())
        &&& self.dst_arena.wf()
        &&& self.dst_arena.consistent_with(self.store())
        &&& self.mappings.wf()
        &&& self.mappings.spec_src_size() == self.src_arena.spec_len()
        &&& self.mappings.spec_dst_size() == self.dst_arena.spec_len()
    }

    /// The mapped descendant pairs between source node `a` and destination
    /// node `c`, over the current mappings.
    pub open spec fn spec_pairs(&self, a: int, c: int) -> int {
        spec_mapped_pairs(
            &self.mappings,
            self.src_arena.llds_view()[a] as int,
            a,
            self.dst_arena.llds_view()[c] as int,
            c,
        )
    }

    /// The Dice denominator of the pair: both sides' descendant counts.
    pub open spec fn spec_den(&self, a: int, c: int) -> int {
        (a - self.src_arena.llds_view()[a]) + (c - self.dst_arena.llds_view()[c])
    }

    /// The Dice acceptance test between the descendants of source node `a`
    /// and destination node `c`, over the current mappings: twice the mapped
    /// descendant pairs, against `num/den` of the total descendant count.
    pub open spec fn spec_score_accepted(&self, a: int, c: int) -> bool {
        2 * self.spec_pairs(a, c) * self.sim_threshold_den as int >= self.sim_threshold_num as int
            * self.spec_den(a, c)
    }

    /// Candidate `c1` scores strictly better than `c2` for source node `a`:
    /// the Dice coefficients compare as exact cross-multiplied rationals.
    pub open spec fn spec_better(&self, a: int, c1: int, c2: int) -> bool {
        self.spec_pairs(a, c1) * self.spec_den(a, c2) > self.spec_pairs(a, c2) * self.spec_den(
            a,
            c1,
        )
    }

    /// The stored kind behind a source arena index.
    pub open spec fn spec_kind_of_src(&self, s: int) -> Type {
        self.store().records_view()[self.src_arena.orig_view()[s] as int].kind
    }

    /// The stored kind behind a destination arena index.
    pub open spec fn spec_kind_of_dst(&self, d: int) -> Type {
        self.store().records_view()[self.dst_arena.orig_view()[d] as int].kind
    }

    /// Every link added on top of `m` joins nodes of the same kind.
    pub open spec fn new_links_kind_equal(&self, m: &MappingStore) -> bool {
        forall|s: int|
            #[trigger] self.mappings.spec_is_src(s) && !m.spec_is_src(s)
                ==> self.spec_kind_of_src(s) == self.spec_kind_of_dst(self.mappings.spec_get_dst(s))
    }

    /// Source node `a` and destination node `q` share a mapped-descendant
    /// relation: some mapped descendant of `a` has its image inside `q`.
    pub open spec fn spec_shares_mapped_descendant(&self, a: int, q: int) -> bool {
        exists|s: int|
            self.src_arena.llds_view()[a] <= s < a && self.mappings.spec_is_src(s)
                && #[trigger] self.dst_arena.is_desc(self.mappings.spec_get_dst(s), q)
    }

    /// What makes `q` a destination candidate for source node `a`: a non-root
    /// destination index, still unmapped, of `a`'s kind, sharing at least one
    /// mapped-descendant relation with `a`.
    pub open spec fn spec_is_candidate(&self, a: int, q: int) -> bool {
        &&& 0 <= q < self.dst_arena.spec_len() - 1
        &&& !self.mappings.spec_is_dst(q)
        &&& self.spec_kind_of_dst(q) == self.spec_kind_of_src(a)
        &&& self.spec_shares_mapped_descendant(a, q)
    }

    /// Every link added on top of `m` joins nodes of the same kind, except
    /// possibly the force-linked pair of the two absolute roots.
    pub open spec fn new_links_kind_equal_except_roots(&self, m: &MappingStore) -> bool {
        forall|s: int|
            #[trigger] self.mappings.spec_is_src(s) && !m.spec_is_src(s) ==> (s
                == self.src_arena.spec_len() - 1 && self.mappings.spec_get_dst(s)
                == self.dst_arena.spec_len() - 1) || self.spec_kind_of_src(s)
                == self.spec_kind_of_dst(self.mappings.spec_get_dst(s))
    }

    /// Everything but the mappings is left untouched.
    pub open spec fn same_but_mappings(&self, o: &Self) -> bool {
        &&& self.node_store == o.node_store
        &&& self.label_store == o.label_store
        &&& self.src_arena == o.src_arena
        &&& self.dst_arena == o.dst_arena
        &&& self.size_threshold == o.size_threshold
        &&& self.sim_threshold_num == o.sim_threshold_num
        &&& self.sim_threshold_den == o.sim_threshold_den
    }

    /// Assemble a matcher over two prepared arenas and a seed mapping sized
    /// for them, with the documented default thresholds: refinement below
    /// 1000 descendants, acceptance at one half.
    pub fn new(
        node_store: &'a NodeStore,
        label_store: &'a LabelStore,
        src_arena: CompletePostOrder,
        dst_arena: CompletePostOrder,
        mappings: MappingStore,
    ) -> (r: Self)
        requires
            node_store.wf(),
            src_arena.wf(),
            src_arena.consistent_with(node_store),
            dst_arena.wf(),
            dst_arena.consistent_with(node_store),
            mappings.wf(),
            mappings.spec_src_size() == src_arena.spec_len(),
            mappings.spec_dst_size() == dst_arena.spec_len(),
        ensures
            r.wf(),
            r.store() == node_store,
            r.src_arena == src_arena,
            r.dst_arena == dst_arena,
            r.mappings == mappings,
            r.size_threshold == 1000usize,
            r.sim_threshold_num == 1u32,
            r.sim_threshold_den == 2u32,
    {
        GreedyBottomUpMatcher {
            node_store,
            label_store,
            src_arena,
            dst_arena,
            mappings,
            size_threshold: 1000,
            sim_threshold_num: 1,
            sim_threshold_den: 2,
        }
    }

    /// Decompress both roots, size an empty mapping store for them, and run
    /// the whole pass. This entry starts from scratch: a partial seed mapping
    /// from an external top-down pass enters through [`Self::new`] followed by
    /// [`Self::execute`], sized to arenas prepared by the caller.
    pub fn matchh(
        compressed_node_store: &'a NodeStore,
        label_store: &'a LabelStore,
        src: NodeIdentifier,
        dst: NodeIdentifier,
        mappings: MappingStore,
    ) -> (r: Self)
        requires
            compressed_node_store.wf(),
            src < compressed_node_store.spec_len(),
            dst < compressed_node_store.spec_len(),
            mappings.wf(),
            mappings.spec_src_size() == 0,
            mappings.spec_dst_size() == 0,
        ensures
            r.wf(),
            r.mappings.spec_is_src(r.src_arena.spec_len() - 1),
            r.mappings.spec_get_dst(r.src_arena.spec_len() - 1) == r.dst_arena.spec_len() - 1,
            // every link but the forced root pair joins nodes of the same kind
            forall|s: int|
                #[trigger] r.mappings.spec_is_src(s) ==> (s == r.src_arena.spec_len() - 1
                    && r.mappings.spec_get_dst(s) == r.dst_arena.spec_len() - 1)
                    || r.spec_kind_of_src(s) == r.spec_kind_of_dst(r.mappings.spec_get_dst(s)),
    {
        let src_arena = CompletePostOrder::new(compressed_node_store, src);
        let dst_arena = CompletePostOrder::new(compressed_node_store, dst);
        let mut mappings = mappings;
        mappings.topit(src_arena.len(), dst_arena.len());
        let mut matcher = Self::new(
            compressed_node_store,
            label_store,
            src_arena,
            dst_arena,
            mappings,
        );
        matcher.execute();
        matcher
    }

    /// Whether the source node `a` has at least one semantic child. The store
    /// record and the arena agree on this, and the arena interval is the
    /// witness: a node has children exactly when its interval is non-empty.
    pub fn src_has_children(&mut self, src: usize) -> (r: bool)
        requires
            old(self).wf(),
            src < old(self).src_arena.spec_len(),
        ensures
            *final(self) == *old(self),
            r == (old(self).src_arena.llds_view()[src as int] < src),
    {
        let o = self.src_arena.original(src);
        proof {
            assert(self.src_arena.orig_view()[src as int] < self.store().spec_len());
            assert(self.src_arena.llds_view()[src as int] <= src);
        }
        let r = self.node_store.resolve(o).has_children();
        r
    }

    /// The destination candidates for the unmapped source node `a`: walk up
    /// from the images of `a`'s mapped descendants, in ascending seed order
    /// and bottom-up per seed, collecting unmapped non-root nodes of `a`'s
    /// kind. The result holds exactly the candidates, each once, and the
    /// fixed order makes candidate enumeration — and with it the whole pass —
    /// deterministic.
    #[verifier::loop_isolation(false)]
    pub fn get_dst_candidates(&self, a: usize) -> (r: Vec<usize>)
        requires
            self.wf(),
            a < self.src_arena.spec_len(),
        ensures
            forall|j: int|
                0 <= j < r@.len() ==> self.spec_is_candidate(a as int, (#[trigger] r@[j]) as int),
            forall|q: int| self.spec_is_candidate(a as int, q) ==> r@.contains(q as usize),
    {
        let dst_len = self.dst_arena.len();
        let dst_root = self.dst_arena.root();
        let mut seen: Vec<bool> = Vec::new();
        let mut v: usize = 0;
        while v < dst_len
            invariant
                v <= dst_len,
                seen@.len() == v,
                forall|p: int| 0 <= p < v ==> !(#[trigger] seen@[p]),
            decreases dst_len - v,
        {
            seen.push(false);
            v = v + 1;
        }
        let o_a = self.src_arena.original(a);
        proof {
            assert(self.src_arena.orig_view()[a as int] < self.store().spec_len());
        }
        let a_kind = self.node_store.resolve(o_a).kind;
        let mut cands: Vec<usize> = Vec::new();
        let lo = self.src_arena.first_descendant(a);
        let mut s: usize = lo;
        while s < a
            invariant
                self.src_arena.llds_view()[a as int] <= s <= a,
                a < self.src_arena.spec_len(),
                dst_len == self.dst_arena.spec_len(),
                dst_root == dst_len - 1,
                seen@.len() == dst_len,
                a_kind == self.spec_kind_of_src(a as int),
                // every ancestor of the image of a processed mapped seed is seen
                forall|s2: int, p: int|
                    self.src_arena.llds_view()[a as int] <= s2 < s && self.mappings.spec_is_src(s2)
                        && 0 <= p < dst_len && #[trigger] self.dst_arena.is_desc(
                        self.mappings.spec_get_dst(s2),
                        p,
                    ) ==> seen@[p],
                // every collected index is a candidate
                forall|j: int|
                    0 <= j < cands@.len() ==> self.spec_is_candidate(
                        a as int,
                        (#[trigger] cands@[j]) as int,
                    ),
                // every seen index passing the filters is collected
                forall|p: int|
                    0 <= p < dst_len - 1 && (#[trigger] seen@[p])
                        && !self.mappings.spec_is_dst(p) && self.spec_kind_of_dst(p)
                        == self.spec_kind_of_src(a as int) ==> cands@.contains(p as usize),
            decreases a - s,
        {
            if self.mappings.is_src(s) {
                let d = self.mappings.get_dst(s);
                let ghost seen_pre = seen@;
                let mut cur = d;
                while cur < dst_root
                    invariant
                        self.src_arena.llds_view()[a as int] <= s < a,
                        a < self.src_arena.spec_len(),
                        dst_len == self.dst_arena.spec_len(),
                        dst_root == dst_len - 1,
                        seen@.len() == dst_len,
                        a_kind == self.spec_kind_of_src(a as int),
                        cur < dst_len,
                        d < dst_len,
                        self.mappings.spec_is_src(s as int),
                        d == self.mappings.spec_get_dst(s as int),
                        cur == d || self.dst_arena.is_desc(d as int, cur as int),
                        // marks only grow
                        forall|p: int|
                            0 <= p < dst_len && seen_pre[p] ==> #[trigger] seen@[p],
                        // the walked prefix of d's ancestor chain is seen
                        forall|p: int|
                            0 <= p < dst_len && #[trigger] self.dst_arena.is_desc(d as int, p) && p
                                <= cur ==> seen@[p],
                        forall|s2: int, p: int|
                            self.src_arena.llds_view()[a as int] <= s2 < s
                                && self.mappings.spec_is_src(s2) && 0 <= p < dst_len
                                && #[trigger] self.dst_arena.is_desc(
                                self.mappings.spec_get_dst(s2),
                                p,
                            ) ==> seen@[p],
                        forall|j: int|
                            0 <= j < cands@.len() ==> self.spec_is_candidate(
                                a as int,
                                (#[trigger] cands@[j]) as int,
                            ),
                        forall|p: int|
                            0 <= p < dst_len - 1 && (#[trigger] seen@[p])
                                && !self.mappings.spec_is_dst(p) && self.spec_kind_of_dst(p)
                                == self.spec_kind_of_src(a as int) ==> cands@.contains(p as usize),
                    decreases dst_root - cur,
                {
                    let p = match self.dst_arena.parent(cur) {
                        Some(p) => p,
                        None => {
                            proof {
                                assert(false);
                            }
                            0
                        },
                    };
                    proof {
                        lemma_desc_up(&self.dst_arena, d as int, cur as int);
                    }
                    let ghost cands_pre = cands@;
                    let ghost seen_loop = seen@;
                    if !seen[p] {
                        seen.set(p, true);
                        if p != dst_root && !self.mappings.is_dst(p) {
                            let o_p = self.dst_arena.original(p);
                            proof {
                                assert(self.dst_arena.orig_view()[p as int]
                                    < self.store().spec_len());
                            }
                            if self.node_store.resolve(o_p).kind == a_kind {
                                proof {
                                    assert(self.spec_shares_mapped_descendant(a as int, p as int));
                                }
                                cands.push(p);
                            }
                        }
                    }
                    proof {
                        assert forall|j: int| 0 <= j < cands@.len() implies self.spec_is_candidate(
                            a as int,
                            (#[trigger] cands@[j]) as int,
                        ) by {
                            if j < cands_pre.len() {
                                assert(cands@[j] == cands_pre[j]);
                            }
                        }
                        // every seen index passing the filters stays collected
                        assert forall|pp: int|
                            0 <= pp < dst_len - 1 && (#[trigger] seen@[pp])
                                && !self.mappings.spec_is_dst(pp) && self.spec_kind_of_dst(pp)
                                == self.spec_kind_of_src(a as int) implies cands@.contains(
                            pp as usize,
                        ) by {
                            if pp == p && !seen_loop[p as int] {
                                // marked just now: the filters passed, so it was pushed
                                assert(cands@.len() == cands_pre.len() + 1);
                                assert(cands@[cands@.len() - 1] == p);
                            } else {
                                // already collected earlier; pushing keeps it
                                assert(cands_pre.contains(pp as usize));
                                let w = choose|w: int|
                                    0 <= w < cands_pre.len() && cands_pre[w] == pp as usize;
                                assert(cands@[w] == pp as usize);
                            }
                        }
                        // the only ancestor of d in (cur, p] is p itself
                        assert forall|pp: int|
                            0 <= pp < dst_len && #[trigger] self.dst_arena.is_desc(d as int, pp)
                                && pp <= p implies seen@[pp] by {
                            if cur < pp < p {
                                lemma_contiguous_descendants(&self.dst_arena, pp);
                                assert(self.dst_arena.llds_view()[pp] <= d);
                                assert(self.dst_arena.llds_view()[pp] <= cur < pp);
                                assert(cur < self.dst_arena.parent_view()[cur as int] <= pp);
                                assert(false);
                            }
                        }
                    }
                    cur = p;
                }
                proof {
                    // the whole ancestor chain of d is now seen
                    assert forall|s2: int, p: int|
                        self.src_arena.llds_view()[a as int] <= s2 < s + 1
                            && self.mappings.spec_is_src(s2) && 0 <= p < dst_len
                            && #[trigger] self.dst_arena.is_desc(
                            self.mappings.spec_get_dst(s2),
                            p,
                        ) implies seen@[p] by {
                        if s2 == s {
                            assert(self.dst_arena.is_desc(d as int, p) && p <= dst_root);
                        }
                    }
                }
            }
            s = s + 1;
        }
        proof {
            assert forall|q: int| self.spec_is_candidate(a as int, q) implies cands@.contains(
                q as usize,
            ) by {
                let s2 = choose|s2: int|
                    self.src_arena.llds_view()[a as int] <= s2 < a && self.mappings.spec_is_src(s2)
                        && #[trigger] self.dst_arena.is_desc(self.mappings.spec_get_dst(s2), q);
                assert(self.dst_arena.is_desc(self.mappings.spec_get_dst(s2), q));
                assert(seen@[q]);
            }
        }
        cands
    }

    /// Score the candidates of `a` and pick the strictly best one at or above
    /// the threshold; ties keep the earlier candidate of the enumeration
    /// order. The pick maximizes the Dice score over all candidates, and a
    /// node whose candidates all score below the threshold gets none and
    /// therefore stays unmapped.
    #[verifier::loop_isolation(false)]
    pub fn best_candidate(&self, a: usize) -> (r: Option<usize>)
        requires
            self.wf(),
            a < self.src_arena.spec_len(),
            self.src_arena.llds_view()[a as int] < a,
        ensures
            match r {
                Some(c) => {
                    &&& self.spec_is_candidate(a as int, c as int)
                    &&& self.spec_score_accepted(a as int, c as int)
                    &&& forall|q: int|
                        self.spec_is_candidate(a as int, q) && self.spec_score_accepted(
                            a as int,
                            q,
                        ) ==> !self.spec_better(a as int, q, c as int)
                },
                None => (self.src_arena.spec_len() < 0x8000_0000_0000_0000
                    && self.dst_arena.spec_len() < 0x8000_0000_0000_0000) ==> forall|q: int|
                    self.spec_is_candidate(a as int, q) ==> !self.spec_score_accepted(a as int, q),
            },
    {
        if self.src_arena.len() as u64 >= 0x8000_0000_0000_0000u64 || self.dst_arena.len() as u64
            >= 0x8000_0000_0000_0000u64 {
            // trees this large are outside the scorer's arithmetic range
            return None;
        }
        let candidates = self.get_dst_candidates(a);
        let a_lo = self.src_arena.first_descendant(a);
        let mut best: Option<usize> = None;
        let mut best_m = SimilarityMeasure { mapped: 0, src_count: 0, dst_count: 0 };
        let mut q: usize = 0;
        while q < candidates.len()
            invariant
                q <= candidates@.len(),
                a < self.src_arena.spec_len(),
                self.src_arena.llds_view()[a as int] < a,
                self.src_arena.spec_len() < 0x8000_0000_0000_0000,
                self.dst_arena.spec_len() < 0x8000_0000_0000_0000,
                a_lo == self.src_arena.llds_view()[a as int],
                forall|j: int|
                    0 <= j < candidates@.len() ==> self.spec_is_candidate(
                        a as int,
                        (#[trigger] candidates@[j]) as int,
                    ),
                match best {
                    Some(c) => {
                        &&& self.spec_is_candidate(a as int, c as int)
                        &&& self.spec_score_accepted(a as int, c as int)
                        &&& best_m.mapped == self.spec_pairs(a as int, c as int)
                        &&& best_m.src_count == a - a_lo
                        &&& best_m.dst_count == c - self.dst_arena.llds_view()[c as int]
                        &&& best_m.mapped <= best_m.src_count
                        &&& forall|j: int|
                            0 <= j < q && self.spec_score_accepted(
                                a as int,
                                (#[trigger] candidates@[j]) as int,
                            ) ==> !self.spec_better(a as int, candidates@[j] as int, c as int)
                    },
                    None => forall|j: int|
                        0 <= j < q ==> !self.spec_score_accepted(
                            a as int,
                            (#[trigger] candidates@[j]) as int,
                        ),
                },
            decreases candidates@.len() - q,
        {
            let cand = candidates[q];
            let c_lo = self.dst_arena.first_descendant(cand);
            let sim = SimilarityMeasure::range(a_lo, a, c_lo, cand, &self.mappings);
            let accepted = sim.dice_at_least(self.sim_threshold_num, self.sim_threshold_den);
            proof {
                assert(accepted == self.spec_score_accepted(a as int, cand as int));
            }
            let better = match &best {
                None => accepted,
                Some(_) => accepted && sim.dice_gt(&best_m),
            };
            let ghost old_best = best;
            if better {
                best = Some(cand);
                best_m = sim;
            }
            q = q + 1;
            proof {
                match best {
                    Some(c) => {
                        assert forall|j: int|
                            0 <= j < q && self.spec_score_accepted(
                                a as int,
                                (#[trigger] candidates@[j]) as int,
                            ) implies !self.spec_better(a as int, candidates@[j] as int, c as int) by {
                            let cj = candidates@[j] as int;
                            if j == q - 1 {
                                if c == cand {
                                    lemma_not_better_self(self, a as int, cj);
                                } else {
                                    // the last candidate did not displace the best
                                    assert(!self.spec_better(a as int, cj, c as int));
                                }
                            } else {
                                let b0 = old_best.unwrap() as int;
                                if c == cand && b0 != c as int {
                                    // the best improved strictly; earlier scores stay below
                                    assert(!self.spec_better(a as int, cj, b0));
                                    assert(self.spec_better(a as int, c as int, b0));
                                    lemma_dice_chain(
                                        self.spec_pairs(a as int, cj),
                                        self.spec_den(a as int, cj),
                                        self.spec_pairs(a as int, b0),
                                        self.spec_den(a as int, b0),
                                        self.spec_pairs(a as int, c as int),
                                        self.spec_den(a as int, c as int),
                                    );
                                }
                            }
                        }
                    },
                    None => {},
                }
            }
        }
        proof {
            match best {
                Some(c) => {
                    assert forall|q2: int|
                        self.spec_is_candidate(a as int, q2) && self.spec_score_accepted(
                            a as int,
                            q2,
                        ) implies !self.spec_better(a as int, q2, c as int) by {
                        assert(candidates@.contains(q2 as usize));
                        let j = choose|j: int|
                            0 <= j < candidates@.len() && candidates@[j] == q2 as usize;
                        assert(self.spec_score_accepted(a as int, candidates@[j] as int));
                    }
                },
                None => {
                    assert forall|q2: int| self.spec_is_candidate(a as int, q2) implies !self.spec_score_accepted(
                        a as int,
                        q2,
                    ) by {
                        assert(candidates@.contains(q2 as usize));
                        let j = choose|j: int|
                            0 <= j < candidates@.len() && candidates@[j] == q2 as usize;
                    }
                },
            }
        }
        best
    }

    /// Refine an accepted pair with the bounded optimal matcher, when both
    /// subtrees are below the size threshold: re-decompress them locally, run
    /// the exact alignment, remap local indices back to the arenas, and merge
    /// each pair only if both endpoints are still unmapped and the nodes share
    /// a kind — an already-recorded, higher-confidence link is never
    /// overwritten, and kind-mismatched pairs are never merged.
    #[verifier::loop_isolation(false)]
    pub fn last_chance_match_zs(&mut self, src: usize, dst: usize)
        requires
            old(self).wf(),
            src < old(self).src_arena.spec_len(),
            dst < old(self).dst_arena.spec_len(),
        ensures
            final(self).wf(),
            final(self).same_but_mappings(old(self)),
            final(self).mappings.extends(&old(self).mappings),
            forall|s: int|
                #[trigger] final(self).mappings.spec_is_src(s) ==> old(self).mappings.spec_is_src(s)
                    || old(self).src_arena.llds_view()[src as int] <= s <= src,
            forall|d: int|
                #[trigger] final(self).mappings.spec_is_dst(d) ==> old(self).mappings.spec_is_dst(d)
                    || old(self).dst_arena.llds_view()[dst as int] <= d <= dst,
            // kind-mismatched pairs of the exact alignment are never merged
            final(self).new_links_kind_equal(&old(self).mappings),
            // at or above the size threshold on either side, nothing runs
            (src - old(self).src_arena.llds_view()[src as int] >= old(self).size_threshold || dst
                - old(self).dst_arena.llds_view()[dst as int] >= old(self).size_threshold)
                ==> final(self).mappings == old(self).mappings,
    {
        let src_offset = self.src_arena.first_descendant(src);
        let dst_offset = self.dst_arena.first_descendant(dst);
        let src_s = self.src_arena.descendants_count(src);
        let dst_s = self.dst_arena.descendants_count(dst);
        if src_s < self.size_threshold && dst_s < self.size_threshold {
            let o_src = self.src_arena.original(src);
            let o_dst = self.dst_arena.original(dst);
            proof {
                assert(self.src_arena.orig_view()[src as int] < self.store().spec_len());
                assert(self.dst_arena.orig_view()[dst as int] < self.store().spec_len());
            }
            let z_src = ZsTree::new(self.node_store, o_src);
            let z_dst = ZsTree::new(self.node_store, o_dst);
            let matcher = ZsMatcher::match_with(z_src, z_dst);
            let pairs = matcher.mappings;
            let ghost m0 = self.mappings;
            let mut q: usize = 0;
            while q < pairs.len()
                invariant
                    self.wf(),
                    self.same_but_mappings(old(self)),
                    self.mappings.extends(&m0),
                    src < self.src_arena.spec_len(),
                    dst < self.dst_arena.spec_len(),
                    src_offset == self.src_arena.llds_view()[src as int],
                    dst_offset == self.dst_arena.llds_view()[dst as int],
                    src_s == src - src_offset,
                    dst_s == dst - dst_offset,
                    forall|s: int|
                        #[trigger] self.mappings.spec_is_src(s) ==> m0.spec_is_src(s) || src_offset
                            <= s <= src,
                    forall|d: int|
                        #[trigger] self.mappings.spec_is_dst(d) ==> m0.spec_is_dst(d) || dst_offset
                            <= d <= dst,
                    self.new_links_kind_equal(&m0),
                decreases pairs@.len() - q,
            {
                let (i, t) = pairs[q];
                if i <= src_s + 1 && t <= dst_s + 1 {
                    let src_g = src_offset + i - 1;
                    let dst_g = dst_offset + t - 1;
                    if !self.mappings.is_src(src_g) && !self.mappings.is_dst(dst_g) {
                        let t_src = self.node_store.resolve(self.src_arena.original(src_g)).kind;
                        let t_dst = self.node_store.resolve(self.dst_arena.original(dst_g)).kind;
                        if t_src == t_dst {
                            let ghost m_pre = self.mappings;
                            self.mappings.link(src_g, dst_g);
                            proof {
                                lemma_extends_trans(&self.mappings, &m_pre, &m0);
                            }
                        }
                    }
                }
                q = q + 1;
            }
        }
    }

    /// One whole greedy pass. The seed mappings may be partial but must leave
    /// both absolute roots free; afterwards the two roots are mapped to one
    /// another, every seed link is still present, and the mapping is still a
    /// partial bijection.
    #[verifier::loop_isolation(false)]
    pub fn execute(&mut self)
        requires
            old(self).wf(),
            !old(self).mappings.spec_is_src(old(self).src_arena.spec_len() - 1),
            !old(self).mappings.spec_is_dst(old(self).dst_arena.spec_len() - 1),
        ensures
            final(self).wf(),
            final(self).same_but_mappings(old(self)),
            final(self).mappings.extends(&old(self).mappings),
            final(self).mappings.spec_is_src(old(self).src_arena.spec_len() - 1),
            final(self).mappings.spec_get_dst(old(self).src_arena.spec_len() - 1) == old(
                self,
            ).dst_arena.spec_len() - 1,
            // apart from the forced root pair, every link this pass adds joins
            // nodes of the same kind
            final(self).new_links_kind_equal_except_roots(&old(self).mappings),
    {
        let src_root = self.src_arena.root();
        let dst_root = self.dst_arena.root();
        let n = self.src_arena.len();
        let ghost m0 = self.mappings;
        let mut a: usize = 0;
        while a < n - 1
            invariant
                self.wf(),
                self.same_but_mappings(old(self)),
                n == self.src_arena.spec_len(),
                src_root == n - 1,
                dst_root == self.dst_arena.spec_len() - 1,
                a <= n - 1,
                self.mappings.extends(&m0),
                !self.mappings.spec_is_src(src_root as int),
                !self.mappings.spec_is_dst(dst_root as int),
                self.new_links_kind_equal(&m0),
            decreases n - 1 - a,
        {
            let mapped = self.mappings.is_src(a);
            let has_children = self.src_has_children(a);
            if !mapped && has_children {
                let best = self.best_candidate(a);
                match best {
                    Some(best) => {
                        let ghost m_pre = self.mappings;
                        self.last_chance_match_zs(a, best);
                        proof {
                            lemma_extends_trans(&self.mappings, &m_pre, &m0);
                            assert(!self.mappings.spec_is_src(src_root as int));
                            assert(!self.mappings.spec_is_dst(dst_root as int));
                            assert forall|s: int|
                                #[trigger] self.mappings.spec_is_src(s) && !m0.spec_is_src(
                                s,
                            ) implies self.spec_kind_of_src(s) == self.spec_kind_of_dst(
                                self.mappings.spec_get_dst(s),
                            ) by {
                                if m_pre.spec_is_src(s) {
                                    assert(self.mappings.spec_get_dst(s) == m_pre.spec_get_dst(s));
                                }
                            }
                        }
                        if !self.mappings.is_src(a) && !self.mappings.is_dst(best) {
                            let ghost m_pre2 = self.mappings;
                            self.mappings.link(a, best);
                            proof {
                                lemma_extends_trans(&self.mappings, &m_pre2, &m0);
                                assert forall|s: int|
                                    #[trigger] self.mappings.spec_is_src(s) && !m0.spec_is_src(
                                    s,
                                ) implies self.spec_kind_of_src(s) == self.spec_kind_of_dst(
                                    self.mappings.spec_get_dst(s),
                                ) by {
                                    if s != a {
                                        assert(m_pre2.spec_is_src(s) == self.mappings.spec_is_src(
                                            s,
                                        ));
                                        if m_pre2.spec_is_src(s) {
                                            assert(self.mappings.spec_get_dst(s)
                                                == m_pre2.spec_get_dst(s));
                                        }
                                    }
                                }
                            }
                        }
                    },
                    None => {},
                }
            }
            a = a + 1;
        }
        // force-link the absolute roots, then refine them the same way
        let ghost m_pre3 = self.mappings;
        self.mappings.link(src_root, dst_root);
        proof {
            lemma_extends_trans(&self.mappings, &m_pre3, &m0);
        }
        let ghost m_pre4 = self.mappings;
        self.last_chance_match_zs(src_root, dst_root);
        proof {
            lemma_extends_trans(&self.mappings, &m_pre4, &m_pre3);
            lemma_extends_trans(&self.mappings, &m_pre3, &m0);
            assert(m_pre4.spec_is_src(src_root as int));
            assert(m_pre4.spec_get_dst(src_root as int) == dst_root as int);
            assert(self.mappings.spec_is_src(src_root as int));
            assert(self.mappings.spec_get_dst(src_root as int) == dst_root as int);
            assert forall|s: int|
                #[trigger] self.mappings.spec_is_src(s) && !m0.spec_is_src(s) implies (s == n - 1
                && self.mappings.spec_get_dst(s) == dst_root) || self.spec_kind_of_src(s)
                == self.spec_kind_of_dst(self.mappings.spec_get_dst(s)) by {
                if m_pre4.spec_is_src(s) {
                    assert(self.mappings.spec_get_dst(s) == m_pre4.spec_get_dst(s));
                    if s != src_root && m_pre3.spec_is_src(s) {
                        assert(m_pre4.spec_get_dst(s) == m_pre3.spec_get_dst(s));
                    }
                }
            }
        }
    }
}

/// No score strictly exceeds itself.
proof fn lemma_not_better_self(m: &GreedyBottomUpMatcher, a: int, c: int)
    ensures
        !m.spec_better(a, c, c),
{
}

/// Dice comparisons chain: with positive denominators, a score at most the
/// previous best stays at most a strictly improved best.
proof fn lemma_dice_chain(pq: int, dq: int, pb: int, db: int, pc: int, dc: int)
    requires
        dq > 0,
        db > 0,
        dc > 0,
        pq * db <= pb * dq,
        pc * db > pb * dc,
    ensures
        pq * dc <= pc * dq,
{
    assert(pq * dc <= pc * dq) by (nonlinear_arith)
        requires
            dq > 0,
            db > 0,
            dc > 0,
            pq * db <= pb * dq,
            pc * db > pb * dc,
    ;
}

} // verus!
