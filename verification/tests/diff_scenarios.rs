//! End-to-end diff scenarios over small stored trees.

use astdiff::complete_post_order::CompletePostOrder;
use astdiff::diff::diff;
use astdiff::greedy_bottom_up_matcher::GreedyBottomUpMatcher;
use astdiff::mapping_store::MappingStore;
use astdiff::tree_builder::{check_tnode, SimpleStores, TsTreeGen};
use astdiff::types::TNode;
use std::collections::HashMap;

const PROGRAM: u16 = 156;
const IDENTIFIER: u16 = 1;
const NUMBER: u16 = 108;
const STATEMENT_BLOCK: u16 = 171;

fn leaf(kind_id: u16, lo: usize, hi: usize) -> TNode {
    TNode { kind_id, start_byte: lo, end_byte: hi, labeled: true, children: Vec::new() }
}

fn inner(kind_id: u16, lo: usize, hi: usize, children: Vec<TNode>) -> TNode {
    TNode { kind_id, start_byte: lo, end_byte: hi, labeled: false, children }
}

fn fresh_gen() -> TsTreeGen {
    TsTreeGen::new(SimpleStores::new(), HashMap::new())
}

/// "a b c": one program with three labeled identifier leaves.
fn three_ids_tree() -> (Vec<u8>, TNode) {
    let text = b"a b c".to_vec();
    let root = inner(
        PROGRAM,
        0,
        5,
        vec![leaf(IDENTIFIER, 0, 1), leaf(IDENTIFIER, 2, 3), leaf(IDENTIFIER, 4, 5)],
    );
    (text, root)
}

fn build(gen: &mut TsTreeGen, name: &[u8], text: &[u8], root: &TNode) -> usize {
    assert!(check_tnode(root, 0, text.len()));
    gen.generate_file(name, text, root).local.compressed_node
}

fn assert_bijection(m: &MappingStore) {
    for s in 0..m.src_size() {
        if m.is_src(s) {
            let d = m.get_dst(s);
            assert!(m.is_dst(d));
            assert_eq!(m.get_src(d), s);
        }
    }
    for d in 0..m.dst_size() {
        if m.is_dst(d) {
            let s = m.get_src(d);
            assert!(m.is_src(s));
            assert_eq!(m.get_dst(s), d);
        }
    }
}

#[test]
fn identical_asts_map_fully() {
    let mut gen = fresh_gen();
    let (text, root) = three_ids_tree();
    let r1 = build(&mut gen, b"f.ts", &text, &root);
    let r2 = build(&mut gen, b"f.ts", &text, &root);
    // the corpus-wide store already deduplicates the whole file
    assert_eq!(r1, r2);
    let (m, stats) = diff(&gen.stores.node_store, &gen.stores.label_store, r1, r2);
    assert_eq!(stats.src_size, 4);
    assert_eq!(stats.dst_size, 4);
    // every src index maps to its dst counterpart
    assert_eq!(stats.mappings, 4);
    for s in 0..4 {
        assert!(m.is_src(s));
        assert_eq!(m.get_dst(s), s);
    }
    assert_bijection(&m);
}

#[test]
fn renamed_leaf_still_maps_by_position() {
    let mut gen = fresh_gen();
    let (text1, root1) = three_ids_tree();
    let text2 = b"a b d".to_vec();
    let r1 = build(&mut gen, b"f.ts", &text1, &root1);
    let r2 = build(&mut gen, b"f.ts", &text2, &root1);
    assert_ne!(r1, r2);
    let (m, stats) = diff(&gen.stores.node_store, &gen.stores.label_store, r1, r2);
    // full structural mapping; the renamed leaf still pairs one to one
    assert_eq!(stats.mappings, 4);
    for s in 0..4 {
        assert!(m.is_src(s));
        assert_eq!(m.get_dst(s), s);
    }
    assert_bijection(&m);
}

#[test]
fn moved_statement_reuses_identifier() {
    let mut gen = fresh_gen();
    let text1 = b"a b c d e".to_vec();
    let root1 = inner(
        PROGRAM,
        0,
        9,
        vec![
            leaf(IDENTIFIER, 0, 1),
            leaf(IDENTIFIER, 2, 3),
            leaf(IDENTIFIER, 4, 5),
            leaf(IDENTIFIER, 6, 7),
            leaf(IDENTIFIER, 8, 9),
        ],
    );
    let text2 = b"e a b c d".to_vec();
    let r1 = build(&mut gen, b"f.ts", &text1, &root1);
    let r2 = build(&mut gen, b"f.ts", &text2, &root1);
    let src_arena = CompletePostOrder::new(&gen.stores.node_store, r1);
    let dst_arena = CompletePostOrder::new(&gen.stores.node_store, r2);
    // the moved leaf "e" is the same stored node in both trees: the store
    // deduplicated it, only its position differs
    assert_eq!(src_arena.original(4), dst_arena.original(0));
    let (m, _stats) = diff(&gen.stores.node_store, &gen.stores.label_store, r1, r2);
    // roots anchored; the stationary run "a b c d" aligns shifted by one
    assert!(m.is_src(5));
    assert_eq!(m.get_dst(5), 5);
    for s in 0..4 {
        assert!(m.is_src(s));
        assert_eq!(m.get_dst(s), s + 1);
    }
    assert_bijection(&m);
}

#[test]
fn unrelated_files_map_only_roots() {
    let mut gen = fresh_gen();
    let (text1, root1) = three_ids_tree();
    let text2 = b"1 2".to_vec();
    let root2 = inner(PROGRAM, 0, 3, vec![leaf(NUMBER, 0, 1), leaf(NUMBER, 2, 3)]);
    let r1 = build(&mut gen, b"f.ts", &text1, &root1);
    let r2 = build(&mut gen, b"g.ts", &text2, &root2);
    let (m, stats) = diff(&gen.stores.node_store, &gen.stores.label_store, r1, r2);
    // forced anchoring maps the two file roots; nothing inside reaches the
    // threshold or shares a kind
    assert_eq!(stats.mappings, 1);
    assert!(m.is_src(stats.src_size - 1));
    assert_eq!(m.get_dst(stats.src_size - 1), stats.dst_size - 1);
    for s in 0..stats.src_size - 1 {
        assert!(!m.is_src(s));
    }
    assert_bijection(&m);
}

#[test]
fn below_threshold_candidate_stays_unmapped() {
    let mut gen = fresh_gen();
    // one block of three identifiers against one block of four; a single
    // seeded pair scores 2/7, below the 1/2 threshold
    let text1 = b"a b c".to_vec();
    let root1 = inner(
        PROGRAM,
        0,
        5,
        vec![inner(
            STATEMENT_BLOCK,
            0,
            5,
            vec![leaf(IDENTIFIER, 0, 1), leaf(IDENTIFIER, 2, 3), leaf(IDENTIFIER, 4, 5)],
        )],
    );
    let text2 = b"a x y z".to_vec();
    let root2 = inner(
        PROGRAM,
        0,
        7,
        vec![inner(
            STATEMENT_BLOCK,
            0,
            7,
            vec![
                leaf(IDENTIFIER, 0, 1),
                leaf(IDENTIFIER, 2, 3),
                leaf(IDENTIFIER, 4, 5),
                leaf(IDENTIFIER, 6, 7),
            ],
        )],
    );
    let r1 = build(&mut gen, b"f.ts", &text1, &root1);
    let r2 = build(&mut gen, b"g.ts", &text2, &root2);
    let src_arena = CompletePostOrder::new(&gen.stores.node_store, r1);
    let dst_arena = CompletePostOrder::new(&gen.stores.node_store, r2);
    // src arena: leaves 0..3, block 3, program 4; dst: leaves 0..4, block 4
    let mut seed = MappingStore::new();
    seed.topit(src_arena.len(), dst_arena.len());
    seed.link(0, 0);
    let mut matcher = GreedyBottomUpMatcher::new(
        &gen.stores.node_store,
        &gen.stores.label_store,
        src_arena,
        dst_arena,
        seed,
    );
    // no exact refinement: this isolates the greedy threshold decision
    matcher.size_threshold = 0;
    matcher.execute();
    // the block's only candidate scored below the threshold: it stays unmapped
    assert!(!matcher.mappings.is_src(3));
    assert!(!matcher.mappings.is_dst(4));
    // the seed and the forced root link are all there is
    assert!(matcher.mappings.is_src(0));
    assert_eq!(matcher.mappings.get_dst(0), 0);
    assert!(matcher.mappings.is_src(4));
    assert_eq!(matcher.mappings.get_dst(4), 5);
    assert_eq!(matcher.mappings.len(), 2);
    assert_bijection(&matcher.mappings);
}

#[test]
fn refinement_never_overwrites_seeds() {
    let mut gen = fresh_gen();
    // candidate subtrees of 3 and 4 descendants, partially overlapping
    let text1 = b"a b c".to_vec();
    let root1 = inner(
        PROGRAM,
        0,
        5,
        vec![inner(
            STATEMENT_BLOCK,
            0,
            5,
            vec![leaf(IDENTIFIER, 0, 1), leaf(IDENTIFIER, 2, 3), leaf(IDENTIFIER, 4, 5)],
        )],
    );
    let text2 = b"a b y z".to_vec();
    let root2 = inner(
        PROGRAM,
        0,
        7,
        vec![inner(
            STATEMENT_BLOCK,
            0,
            7,
            vec![
                leaf(IDENTIFIER, 0, 1),
                leaf(IDENTIFIER, 2, 3),
                leaf(IDENTIFIER, 4, 5),
                leaf(IDENTIFIER, 6, 7),
            ],
        )],
    );
    let r1 = build(&mut gen, b"f.ts", &text1, &root1);
    let r2 = build(&mut gen, b"g.ts", &text2, &root2);
    let src_arena = CompletePostOrder::new(&gen.stores.node_store, r1);
    let dst_arena = CompletePostOrder::new(&gen.stores.node_store, r2);
    let mut seed = MappingStore::new();
    seed.topit(src_arena.len(), dst_arena.len());
    // an unusual seed the heuristics would not pick: it must survive anyway
    seed.link(0, 1);
    seed.link(1, 0);
    let mut matcher = GreedyBottomUpMatcher::new(
        &gen.stores.node_store,
        &gen.stores.label_store,
        src_arena,
        dst_arena,
        seed,
    );
    matcher.execute();
    // the exact refinement merged pairs only where both sides were free
    assert!(matcher.mappings.is_src(0));
    assert_eq!(matcher.mappings.get_dst(0), 1);
    assert!(matcher.mappings.is_src(1));
    assert_eq!(matcher.mappings.get_dst(1), 0);
    // both blocks and both roots are linked: the 2/7ths seed overlap grew
    assert!(matcher.mappings.is_src(3));
    assert_eq!(matcher.mappings.get_dst(3), 4);
    assert!(matcher.mappings.is_src(4));
    assert_eq!(matcher.mappings.get_dst(4), 5);
    assert_bijection(&matcher.mappings);
}

#[test]
fn identical_inputs_give_identical_mappings() {
    let mut gen = fresh_gen();
    let (text1, root1) = three_ids_tree();
    let text2 = b"a c b".to_vec();
    let r1 = build(&mut gen, b"f.ts", &text1, &root1);
    let r2 = build(&mut gen, b"g.ts", &text2, &root1);
    let (m1, s1) = diff(&gen.stores.node_store, &gen.stores.label_store, r1, r2);
    let (m2, s2) = diff(&gen.stores.node_store, &gen.stores.label_store, r1, r2);
    assert_eq!(s1.mappings, s2.mappings);
    assert_eq!(s1.src_size, s2.src_size);
    assert_eq!(s1.dst_size, s2.dst_size);
    for s in 0..s1.src_size {
        assert_eq!(m1.is_src(s), m2.is_src(s));
        if m1.is_src(s) {
            assert_eq!(m1.get_dst(s), m2.get_dst(s));
        }
    }
    for d in 0..s1.dst_size {
        assert_eq!(m1.is_dst(d), m2.is_dst(d));
    }
}

#[test]
fn single_node_trees_anchor() {
    let mut gen = fresh_gen();
    let t1 = b"a".to_vec();
    let r1 = build(&mut gen, b"f.ts", &t1, &leaf(IDENTIFIER, 0, 1));
    let t2 = b"1".to_vec();
    let r2 = build(&mut gen, b"g.ts", &t2, &leaf(NUMBER, 0, 1));
    let (m, stats) = diff(&gen.stores.node_store, &gen.stores.label_store, r1, r2);
    assert_eq!(stats.src_size, 1);
    assert_eq!(stats.dst_size, 1);
    assert_eq!(stats.mappings, 1);
    assert!(m.is_src(0));
    assert_eq!(m.get_dst(0), 0);
}

#[test]
fn matchh_anchors_roots() {
    let mut gen = fresh_gen();
    let (text1, root1) = three_ids_tree();
    let text2 = b"1 2".to_vec();
    let root2 = inner(PROGRAM, 0, 3, vec![leaf(NUMBER, 0, 1), leaf(NUMBER, 2, 3)]);
    let r1 = build(&mut gen, b"f.ts", &text1, &root1);
    let r2 = build(&mut gen, b"g.ts", &text2, &root2);
    let matcher = GreedyBottomUpMatcher::matchh(
        &gen.stores.node_store,
        &gen.stores.label_store,
        r1,
        r2,
        MappingStore::new(),
    );
    let sroot = matcher.mappings.src_size() - 1;
    assert!(matcher.mappings.is_src(sroot));
    assert_eq!(matcher.mappings.get_dst(sroot), matcher.mappings.dst_size() - 1);
}
