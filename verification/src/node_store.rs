//! The content-addressed, hash-consed store of syntax-tree nodes.
//!
//! A node is identified by its content: kind, optional label and ordered
//! child-identifier sequence. The store never holds two records of the same
//! content, so structurally identical subtrees anywhere in the corpus carry
//! the same identifier. Identifiers accumulate monotonically; nothing is ever
//! reclaimed individually.
//!
//! Insertion is content-addressed: a 64-bit fingerprint computed from the
//! kind, the label and the already-canonicalised child identifiers selects a
//! bucket, and an exact equality predicate resolves fingerprint collisions
//! within the bucket, so a collision merely lands two records in one bucket
//! and is never an error.

use crate::hashing::SyntaxNodeHashs;
use crate::label_store::LabelIdentifier;
use crate::type_table::{u16_of_type, Type};
use std::collections::HashMap;
use vstd::prelude::*;

verus! {

/// Opaque handle of a stored node. Identity-comparable: equal handles mean
/// identical subtree content.
pub type NodeIdentifier = usize;

/// One stored node: its kind tag, optional label, ordered child identifiers
/// in the verbatim "spaced" view, the parallel semantic-only view when it
/// differs, the byte length of its span, and its subtree metrics.
pub struct NodeRecord {
    pub kind: Type,
    pub label: Option<LabelIdentifier>,
    pub children: Vec<NodeIdentifier>,
    pub no_space: Option<Vec<NodeIdentifier>>,
    pub bytes_len: u32,
    pub size: u32,
    pub height: u32,
    pub size_no_spaces: u32,
    pub hashs: SyntaxNodeHashs,
}

impl NodeRecord {
    /// The semantic-only child sequence: the dedicated no-space list when the
    /// spaced one holds whitespace nodes, otherwise the spaced list itself.
    pub open spec fn spec_children_ns(&self) -> Seq<NodeIdentifier> {
        match self.no_space {
            Some(ns) => ns@,
            None => self.children@,
        }
    }

    /// The semantic-only child sequence.
    pub fn children_ns(&self) -> (r: &Vec<NodeIdentifier>)
        ensures
            r@ == self.spec_children_ns(),
    {
        match &self.no_space {
            Some(ns) => ns,
            None => &self.children,
        }
    }

    /// Whether the node has children in the semantic-only view.
    pub fn has_children(&self) -> (r: bool)
        ensures
            r == (self.spec_children_ns().len() > 0),
    {
        self.children_ns().len() > 0
    }
}

/// Two node contents are the same: same kind, same label, same ordered
/// children. This is the identity the store deduplicates on.
pub open spec fn content_eq(
    a: &NodeRecord,
    kind: Type,
    label: Option<LabelIdentifier>,
    children: Seq<NodeIdentifier>,
) -> bool {
    a.kind == kind && a.label == label && a.children@ == children
}

/// The equality predicate used to resolve fingerprint collisions: it checks
/// kind, label identifier, and the exact child sequence.
pub fn eq_node(
    kind: &Type,
    label_id: Option<&LabelIdentifier>,
    children: &Vec<NodeIdentifier>,
    x: &NodeRecord,
) -> (r: bool)
    ensures
        r == content_eq(
            x,
            *kind,
            match label_id {
                Some(l) => Some(*l),
                None => None,
            },
            children@,
        ),
{
    if x.kind != *kind {
        return false;
    }
    let label_same = match (&x.label, label_id) {
        (Some(a), Some(b)) => *a == *b,
        (None, None) => true,
        _ => false,
    };
    if !label_same {
        return false;
    }
    ids_eq(&x.children, children)
}

/// Element-wise equality of two identifier sequences.
fn ids_eq(a: &Vec<NodeIdentifier>, b: &Vec<NodeIdentifier>) -> (r: bool)
    ensures
        r == (a@ == b@),
{
    if a.len() != b.len() {
        proof {
            assert(a@.len() != b@.len());
        }
        return false;
    }
    let mut i: usize = 0;
    while i < a.len()
        invariant
            i <= a@.len(),
            a@.len() == b@.len(),
            forall|k: int| 0 <= k < i ==> a@[k] == b@[k],
        decreases a@.len() - i,
    {
        if a[i] != b[i] {
            return false;
        }
        i = i + 1;
    }
    proof {
        assert(a@ =~= b@);
    }
    true
}

/// One step of the 64-bit fingerprint mix.
pub open spec fn spec_mix64(h: u64, v: u64) -> u64 {
    (((h * 1099511628211 + v + 1) as int) % 0x1_0000_0000_0000_0000) as u64
}

fn mix64(h: u64, v: u64) -> (r: u64)
    ensures
        r == spec_mix64(h, v),
{
    (((h as u128) * 1099511628211 + (v as u128) + 1) % 0x1_0000_0000_0000_0000u128) as u64
}

/// The fingerprint of the first `n` children folded onto `h`.
pub open spec fn spec_fp_children(h: u64, s: Seq<NodeIdentifier>, n: int) -> u64
    decreases n,
{
    if n <= 0 {
        h
    } else {
        spec_mix64(spec_fp_children(h, s, n - 1), s[n - 1] as u64)
    }
}

/// The structural fingerprint of a node content. It is a pure function of
/// kind, label and child identifiers, so identical content always lands in
/// the same bucket.
#[verifier::opaque]
pub open spec fn spec_fingerprint(
    kind: Type,
    label: Option<LabelIdentifier>,
    children: Seq<NodeIdentifier>,
) -> u64 {
    let h0 = spec_mix64(14695981039346656037u64, u16_of_type(kind) as u64);
    let h1 = spec_mix64(
        h0,
        match label {
            Some(l) => (((l + 1) as int) % 0x1_0000_0000_0000_0000) as u64,
            None => 0,
        },
    );
    spec_fp_children(h1, children, children.len() as int)
}

#[verifier::loop_isolation(false)]
fn fingerprint(kind: &Type, label: Option<&LabelIdentifier>, children: &Vec<NodeIdentifier>) -> (r:
    u64)
    ensures
        r == spec_fingerprint(
            *kind,
            match label {
                Some(l) => Some(*l),
                None => None,
            },
            children@,
        ),
{
    proof {
        reveal(spec_fingerprint);
    }
    let h0 = mix64(14695981039346656037u64, kind.canonical_u16() as u64);
    let h1 = match label {
        Some(l) => mix64(h0, (((*l as u128) + 1) % 0x1_0000_0000_0000_0000u128) as u64),
        None => mix64(h0, 0),
    };
    let mut h = h1;
    let mut i: usize = 0;
    while i < children.len()
        invariant
            i <= children@.len(),
            h == spec_fp_children(h1, children@, i as int),
        decreases children@.len() - i,
    {
        h = mix64(h, children[i] as u64);
        i = i + 1;
    }
    h
}

/// The hash-consed node store: the records in creation order, and the
/// content-addressed index from fingerprint to the records in its bucket.
pub struct NodeStore {
    records: Vec<NodeRecord>,
    index: HashMap<u64, Vec<usize>>,
}

impl NodeStore {
    /// All records, in creation order; an identifier is a position here.
    pub closed spec fn records_view(&self) -> Seq<NodeRecord> {
        self.records@
    }

    pub closed spec fn index_view(&self) -> Map<u64, Vec<usize>> {
        self.index@
    }

    /// The fingerprint of a stored record's content.
    #[verifier::opaque]
    pub open spec fn fp_of(&self, i: int) -> u64 {
        spec_fingerprint(
            self.records_view()[i].kind,
            self.records_view()[i].label,
            self.records_view()[i].children@,
        )
    }

    pub open spec fn spec_len(&self) -> nat {
        self.records_view().len()
    }

    /// Well-formedness of the store.
    pub open spec fn wf(&self) -> bool {
        // every record is indexed under its fingerprint
        &&& forall|i: int|
            0 <= i < self.spec_len() ==> self.index_view().contains_key(#[trigger] self.fp_of(i))
                && self.index_view()[self.fp_of(i)]@.contains(i as usize)
        // buckets hold only records of their fingerprint
        &&& forall|h: u64, j: int|
            self.index_view().contains_key(h) && 0 <= j < self.index_view()[h]@.len() ==> {
                &&& (#[trigger] self.index_view()[h]@[j]) < self.spec_len()
                &&& self.fp_of(self.index_view()[h]@[j] as int) == h
            }
        // no two records share content: the store is deduplicated
        &&& forall|i: int, j: int|
            #![trigger self.records_view()[i], self.records_view()[j]]
            0 <= i < self.spec_len() && 0 <= j < self.spec_len() && i != j ==> !content_eq(
                &self.records_view()[i],
                self.records_view()[j].kind,
                self.records_view()[j].label,
                self.records_view()[j].children@,
            )
        // children always pre-exist their parent: identifiers strictly decrease
        &&& forall|i: int, k: int|
            0 <= i < self.spec_len() && 0 <= k < self.records_view()[i].children@.len()
                ==> (#[trigger] self.records_view()[i].children@[k]) < i
        &&& forall|i: int, k: int|
            0 <= i < self.spec_len() && 0 <= k < self.records_view()[i].spec_children_ns().len()
                ==> (#[trigger] self.records_view()[i].spec_children_ns()[k]) < i
    }

    pub fn new() -> (r: NodeStore)
        ensures
            r.wf(),
            r.spec_len() == 0,
    {
        NodeStore { records: Vec::new(), index: HashMap::new() }
    }

    pub fn len(&self) -> (r: usize)
        ensures
            r == self.spec_len(),
    {
        self.records.len()
    }

    /// The record behind an identifier.
    pub fn resolve(&self, id: NodeIdentifier) -> (r: &NodeRecord)
        requires
            id < self.spec_len(),
        ensures
            *r == self.records_view()[id as int],
    {
        &self.records[id]
    }

    /// Content-addressed lookup: the identifier of the record with exactly
    /// this content, if the content is already stored. `None` guarantees that
    /// no record matches, so exactly one insertion must follow to store it.
    #[verifier::loop_isolation(false)]
    pub fn prepare_insertion(
        &self,
        kind: &Type,
        label: Option<&LabelIdentifier>,
        children: &Vec<NodeIdentifier>,
    ) -> (r: Option<NodeIdentifier>)
        requires
            self.wf(),
        ensures
            match r {
                Some(id) => id < self.spec_len() && content_eq(
                    &self.records_view()[id as int],
                    *kind,
                    match label {
                        Some(l) => Some(*l),
                        None => None,
                    },
                    children@,
                ),
                None => forall|j: int|
                    0 <= j < self.spec_len() ==> !content_eq(
                        &(#[trigger] self.records_view()[j]),
                        *kind,
                        match label {
                            Some(l) => Some(*l),
                            None => None,
                        },
                        children@,
                    ),
            },
    {
        let ghost glabel: Option<LabelIdentifier> = match label {
            Some(l) => Some(*l),
            None => None,
        };
        let fp = fingerprint(kind, label, children);
        let bucket = self.index.get(&fp);
        match bucket {
            None => {
                proof {
                    assert forall|j: int| 0 <= j < self.spec_len() implies !content_eq(
                        &(#[trigger] self.records_view()[j]),
                        *kind,
                        glabel,
                        children@,
                    ) by {
                        if content_eq(&self.records_view()[j], *kind, glabel, children@) {
                            reveal(NodeStore::fp_of);
                            assert(self.records.len() == self.spec_len());
                            assert(self.fp_of(j) == fp);
                            assert(self.index_view().contains_key(fp));
                        }
                    }
                }
                None
            },
            Some(b) => {
                let mut i: usize = 0;
                while i < b.len()
                    invariant
                        i <= b@.len(),
                        self.index_view().contains_key(fp),
                        self.index_view()[fp] == *b,
                        forall|k: int|
                            0 <= k < i ==> !content_eq(
                                &self.records_view()[#[trigger] b@[k] as int],
                                *kind,
                                glabel,
                                children@,
                            ),
                    decreases b@.len() - i,
                {
                    let id = b[i];
                    if eq_node(kind, label, children, &self.records[id]) {
                        return Some(id);
                    }
                    i = i + 1;
                }
                proof {
                    assert forall|j: int| 0 <= j < self.spec_len() implies !content_eq(
                        &(#[trigger] self.records_view()[j]),
                        *kind,
                        glabel,
                        children@,
                    ) by {
                        if content_eq(&self.records_view()[j], *kind, glabel, children@) {
                            reveal(NodeStore::fp_of);
                            assert(self.records.len() == self.spec_len());
                            assert(self.fp_of(j) == fp);
                            assert(self.index_view()[fp]@.contains(j as usize));
                            let k = choose|k: int|
                                0 <= k < self.index_view()[fp]@.len() && self.index_view()[fp]@[k]
                                    == j as usize;
                            assert(!content_eq(
                                &self.records_view()[b@[k] as int],
                                *kind,
                                glabel,
                                children@,
                            ));
                        }
                    }
                }
                None
            },
        }
    }

    /// Store a record whose content is known to be absent. The new identifier
    /// is the next position; everything already stored keeps its identifier.
    pub fn insert_after_prepare(&mut self, rec: NodeRecord) -> (id: NodeIdentifier)
        requires
            old(self).wf(),
            forall|j: int|
                0 <= j < old(self).spec_len() ==> !content_eq(
                    &(#[trigger] old(self).records_view()[j]),
                    rec.kind,
                    rec.label,
                    rec.children@,
                ),
            forall|k: int| 0 <= k < rec.children@.len() ==> (#[trigger] rec.children@[k])
                < old(self).spec_len(),
            forall|k: int|
                0 <= k < rec.spec_children_ns().len() ==> (#[trigger] rec.spec_children_ns()[k])
                    < old(self).spec_len(),
        ensures
            final(self).wf(),
            id == old(self).spec_len(),
            final(self).records_view() == old(self).records_view().push(rec),
    {
        let ghost pre = *old(self);
        let id = self.records.len();
        let fp = fingerprint(&rec.kind, rec.label.as_ref(), &rec.children);
        let mut bucket: Vec<usize> = match self.index.remove(&fp) {
            Some(b) => b,
            None => Vec::new(),
        };
        proof {
            if pre.index_view().contains_key(fp) {
                assert(bucket@ == pre.index_view()[fp]@);
            } else {
                assert(bucket@ =~= Seq::<usize>::empty());
            }
        }
        let ghost b0: Seq<usize> = bucket@;
        bucket.push(id);
        self.index.insert(fp, bucket);
        self.records.push(rec);
        proof {
            reveal(NodeStore::fp_of);
            assert(pre.records.len() == pre.spec_len());
            let post = *self;
            assert(post.records_view() == pre.records_view().push(rec));
            assert(post.index_view()[fp]@ =~= b0.push(id));
            assert forall|h: u64|
                h != fp && pre.index_view().contains_key(h) implies post.index_view().contains_key(
                h,
            ) && post.index_view()[h] == pre.index_view()[h] by {}
            assert(pre.records.len() == pre.spec_len());
            // every record is indexed under its fingerprint
            assert forall|i: int| 0 <= i < post.spec_len() implies post.index_view().contains_key(
                #[trigger] post.fp_of(i),
            ) && post.index_view()[post.fp_of(i)]@.contains(i as usize) by {
                if i < id {
                    assert(post.records_view()[i] == pre.records_view()[i]);
                    assert(post.fp_of(i) == pre.fp_of(i));
                    assert(pre.index_view().contains_key(pre.fp_of(i)));
                    assert(pre.index_view()[pre.fp_of(i)]@.contains(i as usize));
                    if pre.fp_of(i) == fp {
                        let k = choose|k: int| 0 <= k < b0.len() && b0[k] == i as usize;
                        assert(post.index_view()[fp]@[k] == i as usize);
                        assert(post.index_view()[fp]@.contains(i as usize));
                    } else {
                        assert(post.index_view()[post.fp_of(i)]
                            == pre.index_view()[pre.fp_of(i)]);
                    }
                } else {
                    assert(post.records_view()[i] == rec);
                    assert(post.fp_of(i) == fp);
                    assert(post.index_view()[fp]@[b0.len() as int] == id);
                    assert(post.index_view()[fp]@.contains(i as usize));
                }
            }
            // buckets hold only records of their fingerprint
            assert forall|h: u64, j: int|
                post.index_view().contains_key(h) && 0 <= j
                    < post.index_view()[h]@.len() implies {
                &&& (#[trigger] post.index_view()[h]@[j]) < post.spec_len()
                &&& post.fp_of(post.index_view()[h]@[j] as int) == h
            } by {
                if h == fp {
                    if j < b0.len() {
                        assert(post.index_view()[fp]@[j] == b0[j]);
                        assert(pre.index_view().contains_key(fp));
                        assert(pre.index_view()[fp]@[j] == b0[j]);
                        assert(pre.fp_of(b0[j] as int) == fp);
                        assert(post.fp_of(b0[j] as int) == pre.fp_of(b0[j] as int));
                    } else {
                        assert(post.index_view()[fp]@[j] == id);
                        assert(post.fp_of(id as int) == fp);
                    }
                } else {
                    assert(pre.index_view().contains_key(h));
                    assert(post.index_view()[h] == pre.index_view()[h]);
                    let e = pre.index_view()[h]@[j];
                    assert(pre.fp_of(e as int) == h);
                    assert(e < pre.spec_len());
                    assert(post.fp_of(e as int) == pre.fp_of(e as int));
                }
            }
            // the store stays deduplicated
            assert forall|i: int, j: int|
                #![trigger post.records_view()[i], post.records_view()[j]]
                0 <= i < post.spec_len() && 0 <= j < post.spec_len() && i != j implies !content_eq(
                &post.records_view()[i],
                post.records_view()[j].kind,
                post.records_view()[j].label,
                post.records_view()[j].children@,
            ) by {
                if i < id && j < id {
                    assert(post.records_view()[i] == pre.records_view()[i]);
                    assert(post.records_view()[j] == pre.records_view()[j]);
                } else if i < id && j == id {
                    assert(post.records_view()[i] == pre.records_view()[i]);
                    assert(!content_eq(&pre.records_view()[i], rec.kind, rec.label, rec.children@));
                } else if i == id && j < id {
                    assert(post.records_view()[j] == pre.records_view()[j]);
                    assert(!content_eq(&pre.records_view()[j], rec.kind, rec.label, rec.children@));
                }
            }
            // children keep pre-existing their parent
            assert forall|i: int, k: int|
                0 <= i < post.spec_len() && 0 <= k
                    < post.records_view()[i].children@.len() implies (
            #[trigger] post.records_view()[i].children@[k]) < i by {
                if i < id {
                    assert(post.records_view()[i] == pre.records_view()[i]);
                    assert(pre.records_view()[i].children@[k] < i);
                }
            }
            assert forall|i: int, k: int|
                0 <= i < post.spec_len() && 0 <= k
                    < post.records_view()[i].spec_children_ns().len() implies (
            #[trigger] post.records_view()[i].spec_children_ns()[k]) < i by {
                if i < id {
                    assert(post.records_view()[i] == pre.records_view()[i]);
                    assert(pre.records_view()[i].spec_children_ns()[k] < i);
                }
            }
        }
        id
    }
}

/// No subtree is ever stored twice: in a well-formed store, two identifiers
/// with the same content are the same identifier. Together with the insertion
/// contracts this says that identical (kind, label, child sequence) content
/// anywhere in the corpus yields the same identifier, and content differing
/// anywhere — a single differing label included — yields different ones.
pub proof fn lemma_store_dedup(s: &NodeStore, i: int, j: int)
    requires
        s.wf(),
        0 <= i < s.spec_len(),
        0 <= j < s.spec_len(),
        content_eq(
            &s.records_view()[i],
            s.records_view()[j].kind,
            s.records_view()[j].label,
            s.records_view()[j].children@,
        ),
    ensures
        i == j,
{
}

} // verus!
