//! The store, the kind table, the builder and the position processors.

use astdiff::complete_post_order::CompletePostOrder;
use astdiff::hashing::SyntaxNodeHashs;
use astdiff::label_store::LabelStore;
use astdiff::mapping_store::MappingStore;
use astdiff::node_store::{eq_node, NodeRecord, NodeStore};
use astdiff::position::{RecCachedPositionProcessor, RecCachedProcessor, SiblingCounter};
use astdiff::similarity_metrics::SimilarityMeasure;
use astdiff::tree_builder::{
    check_tnode, count_nodes, PartialAnalysis, SimpleStores, TsTreeGen,
};
use astdiff::type_table::Type;
use astdiff::types::{Shared, TIdN, TNode, TStore, Ts, Types, T};
use std::collections::HashMap;
use std::mem::size_of;

const PROGRAM: u16 = 156;
const IDENTIFIER: u16 = 1;

fn leaf(kind_id: u16, lo: usize, hi: usize) -> TNode {
    TNode { kind_id, start_byte: lo, end_byte: hi, labeled: true, children: Vec::new() }
}

fn inner(kind_id: u16, lo: usize, hi: usize, children: Vec<TNode>) -> TNode {
    TNode { kind_id, start_byte: lo, end_byte: hi, labeled: false, children }
}

fn build_three(gen: &mut TsTreeGen, name: &[u8]) -> usize {
    let text = b"a b c";
    let root = inner(
        PROGRAM,
        0,
        5,
        vec![leaf(IDENTIFIER, 0, 1), leaf(IDENTIFIER, 2, 3), leaf(IDENTIFIER, 4, 5)],
    );
    assert!(check_tnode(&root, 0, text.len()));
    assert_eq!(count_nodes(&root), 4);
    gen.generate_file(name, text, &root).local.compressed_node
}

#[test]
fn f() {
    println!("{}", size_of::<T>());
    println!("{}", size_of::<u16>());
}

#[test]
fn label_store_interns_once() {
    let mut ls = LabelStore::new();
    let a = ls.get_or_insert(b"alpha");
    let b = ls.get_or_insert(b"beta");
    let a2 = ls.get_or_insert(b"alpha");
    assert_eq!(a, a2);
    assert_ne!(a, b);
    assert_eq!(ls.resolve(a).as_slice(), b"alpha");
    assert_eq!(ls.resolve(b).as_slice(), b"beta");
    assert_eq!(ls.len(), 2);
}

fn plain_record(kind: Type, label: Option<usize>, children: Vec<usize>) -> NodeRecord {
    NodeRecord {
        kind,
        label,
        children,
        no_space: None,
        bytes_len: 0,
        size: 1,
        height: 1,
        size_no_spaces: 1,
        hashs: SyntaxNodeHashs { structt: 0, label: 0, syntax: 0 },
    }
}

#[test]
fn node_store_dedups_content() {
    let mut store = NodeStore::new();
    // a leaf, twice: prepare finds the first insertion
    let r = plain_record(Type::Identifier, Some(0), Vec::new());
    assert!(store.prepare_insertion(&Type::Identifier, Some(&0), &Vec::new()).is_none());
    let id = store.insert_after_prepare(r);
    assert_eq!(
        store.prepare_insertion(&Type::Identifier, Some(&0), &Vec::new()),
        Some(id)
    );
    // one differing label yields a different identifier
    assert!(store.prepare_insertion(&Type::Identifier, Some(&1), &Vec::new()).is_none());
    let id2 = store.insert_after_prepare(plain_record(Type::Identifier, Some(1), Vec::new()));
    assert_ne!(id, id2);
    // same kind and label but different children differ too
    assert!(store
        .prepare_insertion(&Type::Identifier, Some(&0), &vec![id, id2])
        .is_none());
    let rec = store.resolve(id);
    assert!(eq_node(&Type::Identifier, Some(&0), &Vec::new(), rec));
    assert!(!eq_node(&Type::Identifier, Some(&1), &Vec::new(), rec));
    assert_eq!(store.len(), 2);
}

#[test]
fn whole_files_share_all_records() {
    let mut gen = TsTreeGen::new(SimpleStores::new(), HashMap::new());
    let r1 = build_three(&mut gen, b"f.ts");
    let before = gen.stores.node_store.len();
    let r2 = build_three(&mut gen, b"f.ts");
    // an unchanged file between commits shares every node
    assert_eq!(r1, r2);
    assert_eq!(gen.stores.node_store.len(), before);
}

#[test]
fn builder_materialises_spacing() {
    let mut gen = TsTreeGen::new(SimpleStores::new(), HashMap::new());
    let rid = build_three(&mut gen, b"f.ts");
    let rec = gen.stores.node_store.resolve(rid);
    // verbatim view: three identifiers with two whitespace runs in between
    assert_eq!(rec.children.len(), 5);
    // semantic view: the identifiers only
    assert_eq!(rec.children_ns().len(), 3);
    assert_eq!(rec.kind, Type::Program);
    assert_eq!(rec.size, 6);
    assert_eq!(rec.size_no_spaces, 4);
    assert_eq!(rec.height, 2);
    // the top-level node carries the file name as its label
    let l = rec.label.unwrap();
    assert_eq!(gen.stores.label_store.resolve(l).as_slice(), b"f.ts");
    // the whitespace node is zero-semantic and labeled with the run itself
    let space_id = rec.children[1];
    let space = gen.stores.node_store.resolve(space_id);
    assert_eq!(space.kind, Type::Spaces);
    assert_eq!(space.size_no_spaces, 0);
    assert_eq!(space.size, 1);
    assert_eq!(space.height, 1);
    assert_eq!(
        gen.stores.label_store.resolve(space.label.unwrap()).as_slice(),
        b" "
    );
    // both runs are one blank: deduplicated into one node
    assert_eq!(rec.children[1], rec.children[3]);
    // a childless node still occupies a record of size and height one
    let leaf_rec = gen.stores.node_store.resolve(rec.children[0]);
    assert_eq!(leaf_rec.size, 1);
    assert_eq!(leaf_rec.height, 1);
    assert_eq!(
        gen.stores.label_store.resolve(leaf_rec.label.unwrap()).as_slice(),
        b"a"
    );
}

#[test]
fn arena_is_post_order() {
    let mut gen = TsTreeGen::new(SimpleStores::new(), HashMap::new());
    let rid = build_three(&mut gen, b"f.ts");
    let a = CompletePostOrder::new(&gen.stores.node_store, rid);
    assert_eq!(a.len(), 4);
    // root index = length - 1, and every child index is below its parent's
    assert_eq!(a.root(), 3);
    for c in 0..3 {
        assert_eq!(a.parent(c), Some(3));
        assert!(c < a.parent(c).unwrap());
    }
    assert_eq!(a.parent(3), None);
    assert!(!a.has_parent(3));
    assert!(a.has_parent(0));
    assert_eq!(a.original(3), rid);
}

#[test]
fn descendants_form_one_interval() {
    let mut gen = TsTreeGen::new(SimpleStores::new(), HashMap::new());
    let rid = build_three(&mut gen, b"f.ts");
    let a = CompletePostOrder::new(&gen.stores.node_store, rid);
    assert_eq!(a.first_descendant(3), 0);
    assert_eq!(a.descendants_count(3), 3);
    assert_eq!(a.descendants_range(3), (0, 3));
    assert_eq!(a.descendants(3), vec![0, 1, 2]);
    // a leaf is its own leftmost leaf and has no descendants
    assert_eq!(a.lld(1), 1);
    assert_eq!(a.descendants_range(1), (1, 1));
    assert_eq!(a.children(3), vec![0, 1, 2]);
    // key roots: the last index per leftmost leaf
    assert_eq!(a.leaf_count(), 3);
    assert_eq!(a.kr(0), 1);
    assert_eq!(a.kr(1), 2);
    assert_eq!(a.kr(2), 3);
    // siblings and ranks
    assert_eq!(a.lsib(1, 0), Some(0));
    assert_eq!(a.lsib(0, 0), None);
    assert_eq!(a.position_in_parent(0), Some(0));
    assert_eq!(a.position_in_parent(2), Some(2));
    assert_eq!(a.position_in_parent(3), None);
    let mut parents = a.parents(0);
    assert_eq!(parents.next(), Some(3));
    assert_eq!(parents.next(), None);
}

#[test]
fn positions_follow_siblings() {
    let mut gen = TsTreeGen::new(SimpleStores::new(), HashMap::new());
    let rid = build_three(&mut gen, b"f.ts");
    // positions run over the verbatim spaced view
    let a = CompletePostOrder::new_spaced(&gen.stores.node_store, rid);
    assert_eq!(a.len(), 6);
    let mut proc = RecCachedPositionProcessor::from(&a, rid);
    let store = &gen.stores.node_store;
    let lstore = &gen.stores.label_store;
    // the file root is path-anchored at offset zero over its whole span
    let rp = proc.position(store, lstore, 5);
    assert_eq!(rp.file.as_slice(), b"f.ts");
    assert_eq!(rp.offset, 0);
    assert_eq!(rp.len, 5);
    // each sibling starts where the previous one ended
    for (idx, want) in [(0usize, 0usize), (1, 1), (2, 2), (3, 3), (4, 4)] {
        let p = proc.position(store, lstore, idx);
        assert_eq!(p.offset, want);
        assert_eq!(p.len, 1);
    }
    // memoized: asking again gives the same position
    let again = proc.position(store, lstore, 2);
    assert_eq!(again.offset, 2);
}

#[test]
fn generic_fold_counts_sibling_steps() {
    let mut gen = TsTreeGen::new(SimpleStores::new(), HashMap::new());
    let rid = build_three(&mut gen, b"f.ts");
    let a = CompletePostOrder::new(&gen.stores.node_store, rid);
    let mut proc = RecCachedProcessor::from(&a, rid, SiblingCounter);
    // the root and the first child cross no sibling; later children cross one
    // per earlier sibling
    assert_eq!(proc.position2(3), 0);
    assert_eq!(proc.position2(0), 0);
    assert_eq!(proc.position2(1), 1);
    assert_eq!(proc.position2(2), 2);
    // memoized: same value again
    assert_eq!(proc.position2(2), 2);
    // without directories the store-aware fold agrees
    assert_eq!(proc.position(&gen.stores.node_store, 2), 2);
    assert_eq!(proc.position(&gen.stores.node_store, 3), 0);
}

#[test]
fn similarity_counts_mapped_pairs() {
    let mut m = MappingStore::new();
    m.topit(6, 6);
    m.link(0, 1);
    m.link(1, 5);
    let sim = SimilarityMeasure::range(0, 3, 0, 4, &m);
    // of the sources 0,1,2 only 0 maps into [0,4)
    assert_eq!(sim.mapped, 1);
    assert_eq!(sim.src_count, 3);
    assert_eq!(sim.dst_count, 4);
    assert!(!sim.dice_at_least(1, 2));
    assert!(sim.dice_at_least(2, 7));
    let better = SimilarityMeasure { mapped: 2, src_count: 3, dst_count: 4 };
    assert!(better.dice_gt(&sim));
    assert!(!sim.dice_gt(&better));
    assert_eq!(m.len(), 2);
}

#[test]
fn kind_table_round_trips() {
    assert_eq!(Type::from_u16(PROGRAM), Type::Program);
    assert_eq!(Type::from_u16(IDENTIFIER), Type::Identifier);
    assert_eq!(Type::from_u16(0), Type::End);
    assert_eq!(Type::Program.to_str(), "program");
    assert_eq!(Type::Identifier.to_str(), "identifier");
    assert_eq!(Type::ERROR.to_str(), "ERROR");
    assert_eq!(Type::Program.from_str(), None);
    let ts = Ts;
    let n = ts.to_u16(Type::Program);
    assert_eq!(ts.make(n), Type::Program);
    assert_eq!(ts.name(), "Ts");
    assert!(Type::Directory.is_directory());
    assert!(!Type::Program.is_directory());
    assert!(Type::Program.is_file());
    assert!(Type::Spaces.is_spaces());
    assert_eq!(Type::Identifier.as_shared(), Shared::Identifier);
    assert_eq!(Type::Comment.as_shared(), Shared::Comment);
    assert_eq!(Type::ClassDeclaration.as_shared(), Shared::TypeDeclaration);
    assert_eq!(Type::Plus.as_shared(), Shared::Other);
}

#[test]
fn interned_kinds_resolve() {
    let store = TStore::Ts;
    let node = leaf(IDENTIFIER, 0, 1);
    let t = store.intern_ts(&node);
    // tag in the top two bits, canonical number below
    assert_eq!(t.0 >> 14, 3);
    match store.resolve(t) {
        Types::Ts(ty) => assert_eq!(ty, Type::Identifier),
        _ => panic!("interned for Ts"),
    }
    let c = store.intern_cpp(&node);
    assert_eq!(c.0 >> 14, 0);
    assert_eq!(c.0 & 0x3fff, IDENTIFIER);
    let t2 = TStore::_intern(TStore::Ts, 7);
    assert_eq!(t2.0, (3 << 14) | 7);
    assert_eq!(store.resolve_ts_unchecked(t2), Type::Eq);
    assert_eq!(TStore::default(), TStore::Ts);
}

#[test]
fn placeholder_analysis_is_empty() {
    let ana = PartialAnalysis {};
    assert_eq!(ana.refs_count(), 0);
    assert_eq!(ana.refs(), vec![vec![0u8]]);
    let tid: TIdN<usize> = TIdN::from_id(7);
    assert_eq!(*tid.as_id(), 7);
}
