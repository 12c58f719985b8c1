//! The diff entry point: from two stored roots to a mapping and counts.
//!
//! Each diff decompresses the two chosen roots into fresh post-order arenas,
//! runs the greedy bottom-up matcher refined by the bounded optimal matcher,
//! and returns the resulting partial bijection with summary counts. Diffing
//! never mutates the store, is fully deterministic in its inputs, and always
//! ends with the two absolute roots mapped to one another.

use crate::greedy_bottom_up_matcher::GreedyBottomUpMatcher;
use crate::label_store::LabelStore;
use crate::mapping_store::MappingStore;
use crate::node_store::{NodeIdentifier, NodeStore};
use vstd::prelude::*;

verus! {

/// Counts of one diff run: linked pairs and both arena sizes.
pub struct DiffStats {
    pub mappings: usize,
    pub src_size: usize,
    pub dst_size: usize,
}

/// Diff two stored roots: decompress both, match greedily bottom-up with
/// exact refinement, and return the mappings with their counts. The returned
/// relation is a partial bijection whose sides are sized to the two arenas,
/// and the two roots are mapped to one another.
pub fn diff(
    node_store: &NodeStore,
    label_store: &LabelStore,
    src: NodeIdentifier,
    dst: NodeIdentifier,
) -> (r: (MappingStore, DiffStats))
    requires
        node_store.wf(),
        src < node_store.spec_len(),
        dst < node_store.spec_len(),
    ensures
        r.0.wf(),
        r.0.spec_src_size() >= 1,
        r.0.spec_dst_size() >= 1,
        r.0.spec_is_src(r.0.spec_src_size() - 1),
        r.0.spec_get_dst(r.0.spec_src_size() - 1) == r.0.spec_dst_size() - 1,
        r.1.src_size == r.0.spec_src_size(),
        r.1.dst_size == r.0.spec_dst_size(),
        r.1.mappings as int == MappingStore::count_mapped(
            r.0.src_view(),
            r.0.src_view().len() as int,
        ),
{
    let matcher = GreedyBottomUpMatcher::matchh(
        node_store,
        label_store,
        src,
        dst,
        MappingStore::new(),
    );
    let mappings = matcher.mappings;
    let n = mappings.len();
    let src_size = mappings.src_size();
    let dst_size = mappings.dst_size();
    (mappings, DiffStats { mappings: n, src_size, dst_size })
}

} // verus!
