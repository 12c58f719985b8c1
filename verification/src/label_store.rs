//! The interned-string store for node labels.
//!
//! Labels are byte strings. Interning the same bytes twice yields the same
//! identifier, and distinct identifiers always denote distinct bytes.

use vstd::prelude::*;

verus! {

/// Identifier of an interned label.
pub type LabelIdentifier = usize;

pub struct LabelStore {
    labels: Vec<Vec<u8>>,
}

impl LabelStore {
    /// The interned labels, in insertion order; the identifier of a label is
    /// its position here.
    pub closed spec fn labels_view(&self) -> Seq<Seq<u8>> {
        Seq::new(self.labels@.len(), |i: int| self.labels@[i]@)
    }

    /// No byte string is interned twice.
    pub open spec fn wf(&self) -> bool {
        forall|i: int, j: int|
            0 <= i < self.labels_view().len() && 0 <= j < self.labels_view().len() && i != j
                ==> #[trigger] self.labels_view()[i] !== #[trigger] self.labels_view()[j]
    }

    pub fn new() -> (r: LabelStore)
        ensures
            r.wf(),
            r.labels_view().len() == 0,
    {
        LabelStore { labels: Vec::new() }
    }

    pub fn len(&self) -> (r: usize)
        ensures
            r == self.labels_view().len(),
    {
        self.labels.len()
    }

    /// Intern `l`: the identifier of the store's entry holding exactly these
    /// bytes, added now if the bytes are new.
    #[verifier::loop_isolation(false)]
    pub fn get_or_insert(&mut self, l: &[u8]) -> (r: LabelIdentifier)
        requires
            old(self).wf(),
        ensures
            final(self).wf(),
            r < final(self).labels_view().len(),
            final(self).labels_view()[r as int] == l@,
            // existing entries are untouched; at most one entry is appended
            final(self).labels_view().len() >= old(self).labels_view().len(),
            forall|i: int|
                0 <= i < old(self).labels_view().len() ==> #[trigger] final(self).labels_view()[i]
                    == old(self).labels_view()[i],
            final(self).labels_view().len() <= old(self).labels_view().len() + 1,
    {
        let n = self.labels.len();
        let mut i: usize = 0;
        while i < n
            invariant
                n == self.labels@.len(),
                i <= n,
                forall|k: int| 0 <= k < i ==> self.labels_view()[k] !== l@,
            decreases n - i,
        {
            if bytes_eq(&self.labels[i], l) {
                proof {
                    assert(self.labels_view()[i as int] == l@);
                }
                return i;
            }
            i = i + 1;
        }
        let mut owned: Vec<u8> = Vec::new();
        let mut k: usize = 0;
        while k < l.len()
            invariant
                k <= l@.len(),
                owned@ == l@.take(k as int),
            decreases l@.len() - k,
        {
            owned.push(l[k]);
            k = k + 1;
            proof {
                assert(l@.take(k as int) =~= l@.take(k - 1).push(l@[k - 1]));
            }
        }
        proof {
            assert(owned@ =~= l@);
        }
        self.labels.push(owned);
        proof {
            assert(self.labels_view()[n as int] == l@);
            assert(forall|i: int|
                0 <= i < n ==> #[trigger] self.labels_view()[i] == old(self).labels_view()[i]);
        }
        n
    }

    /// The bytes behind an identifier.
    pub fn resolve(&self, id: LabelIdentifier) -> (r: &Vec<u8>)
        requires
            (id as int) < self.labels_view().len(),
        ensures
            r@ == self.labels_view()[id as int],
    {
        &self.labels[id]
    }
}

/// Byte-wise equality of two byte strings.
pub fn bytes_eq(a: &Vec<u8>, b: &[u8]) -> (r: bool)
    ensures
        r == (a@ == b@),
{
    if a.len() != b.len() {
        proof {
            assert(a@.len() != b@.len());
        }
        return false;
    }
    let mut i: usize = 0;
    while i < a.len()
        invariant
            i <= a@.len(),
            a@.len() == b@.len(),
            forall|k: int| 0 <= k < i ==> a@[k] == b@[k],
        decreases a@.len() - i,
    {
        if a[i] != b[i] {
            return false;
        }
        i = i + 1;
    }
    proof {
        assert(a@ =~= b@);
    }
    true
}

} // verus!
