//! The 3-part node hash carried as subtree metadata.
//!
//! Every stored node carries a structure-only hash, a label-aware hash and a
//! combined syntax hash. Each part is built bottom-up from the corresponding
//! parts of the already-finished children, so one child costs one accumulation
//! step. All arithmetic is modular in 32 bits.

use vstd::prelude::*;

verus! {

/// One step of the 32-bit polynomial mix.
pub open spec fn spec_mix32(a: u32, b: u32) -> u32 {
    (((a * 31 + b) as int) % 0x1_0000_0000) as u32
}

/// The 32-bit polynomial hash of a byte string.
pub open spec fn spec_hash_bytes(s: Seq<u8>) -> u32
    decreases s.len(),
{
    if s.len() == 0 {
        17
    } else {
        spec_mix32(spec_hash_bytes(s.drop_last()), s.last() as u32)
    }
}

/// Mixing of one hash part for a node from its kind, its label part, the
/// accumulated child part and its content-bearing size.
pub open spec fn spec_node_hash(kind: u16, lab: u32, middle: u32, size: u32) -> u32 {
    spec_mix32(spec_mix32(spec_mix32(kind as u32, lab), middle), size)
}

/// One step of the 32-bit polynomial mix.
pub fn mix32(a: u32, b: u32) -> (r: u32)
    ensures
        r == spec_mix32(a, b),
{
    (((a as u64) * 31 + (b as u64)) % 0x1_0000_0000u64) as u32
}

/// The 32-bit polynomial hash of a byte string.
pub fn hash_bytes(s: &[u8]) -> (r: u32)
    ensures
        r == spec_hash_bytes(s@),
{
    let mut h: u32 = 17;
    let mut i: usize = 0;
    while i < s.len()
        invariant
            i <= s@.len(),
            h == spec_hash_bytes(s@.take(i as int)),
        decreases s@.len() - i,
    {
        proof {
            assert(s@.take(i + 1).drop_last() =~= s@.take(i as int));
            assert(s@.take(i + 1).last() == s@[i as int]);
        }
        h = mix32(h, s[i] as u32);
        i = i + 1;
    }
    proof {
        assert(s@.take(s@.len() as int) =~= s@);
    }
    h
}

/// The three hash parts of a stored node: structure only, label aware, and
/// the combined syntax hash, the most discriminating of the three.
#[derive(Clone, Copy, PartialEq, Eq, Debug, Structural)]
pub struct SyntaxNodeHashs {
    pub structt: u32,
    pub label: u32,
    pub syntax: u32,
}

impl SyntaxNodeHashs {
    pub fn zero() -> (r: SyntaxNodeHashs)
        ensures
            r == (SyntaxNodeHashs { structt: 0u32, label: 0u32, syntax: 0u32 }),
    {
        SyntaxNodeHashs { structt: 0, label: 0, syntax: 0 }
    }

    /// Fold one finished child's hashes into the accumulated parts, part by
    /// part, with 32-bit modular addition.
    pub fn acc(&mut self, o: &SyntaxNodeHashs)
        ensures
            *final(self) == old(self).spec_acc(*o),
    {
        self.structt = ((self.structt as u64 + o.structt as u64) % 0x1_0000_0000u64) as u32;
        self.label = ((self.label as u64 + o.label as u64) % 0x1_0000_0000u64) as u32;
        self.syntax = ((self.syntax as u64 + o.syntax as u64) % 0x1_0000_0000u64) as u32;
    }

    pub open spec fn spec_acc(self, o: SyntaxNodeHashs) -> SyntaxNodeHashs {
        SyntaxNodeHashs {
            structt: (((self.structt + o.structt) as int) % 0x1_0000_0000) as u32,
            label: (((self.label + o.label) as int) % 0x1_0000_0000) as u32,
            syntax: (((self.syntax + o.syntax) as int) % 0x1_0000_0000) as u32,
        }
    }
}

/// The hash parts of a node whose children contributed the accumulated parts
/// `acc`: the structure part ignores the label, the other two include it.
pub open spec fn spec_build_hashs(
    kind: u16,
    label_hash: u32,
    size_no_spaces: u32,
    acc: SyntaxNodeHashs,
) -> SyntaxNodeHashs {
    SyntaxNodeHashs {
        structt: spec_node_hash(kind, 0, acc.structt, size_no_spaces),
        label: spec_node_hash(kind, label_hash, acc.label, size_no_spaces),
        syntax: spec_node_hash(kind, label_hash, acc.syntax, size_no_spaces),
    }
}

/// Build a node's hash parts from its kind, the hash of its label (0 when it
/// has none), its content-bearing size and its children's accumulated parts.
pub fn build_hashs(kind: u16, label_hash: u32, size_no_spaces: u32, acc: &SyntaxNodeHashs) -> (r:
    SyntaxNodeHashs)
    ensures
        r == spec_build_hashs(kind, label_hash, size_no_spaces, *acc),
{
    let k32 = kind as u32;
    SyntaxNodeHashs {
        structt: mix32(mix32(mix32(k32, 0), acc.structt), size_no_spaces),
        label: mix32(mix32(mix32(k32, label_hash), acc.label), size_no_spaces),
        syntax: mix32(mix32(mix32(k32, label_hash), acc.syntax), size_no_spaces),
    }
}

} // verus!
