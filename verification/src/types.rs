//! Kind classification and per-language interning of node kinds.
//!
//! An interned kind (`T`) packs a language tag into the two high bits of a
//! `u16` and the canonical kind number into the remaining fourteen, so kinds
//! of several languages can share one store without colliding.

use crate::type_table::{type_of_u16, u16_of_type, Type, COUNT, KIND_MASK};
use vstd::prelude::*;

verus! {

/// A kind as interned for one language: a language tag in the two high bits,
/// the canonical kind number below.
#[derive(Clone, Copy, PartialEq, Eq, Hash, Debug, Structural)]
pub struct T(pub u16);

/// The languages a kind may be interned for. Only the `Ts` table is carried
/// by this library; kinds interned for the other languages keep their raw
/// grammar numbering and cannot be resolved back to a [`Type`].
#[derive(Clone, Copy, PartialEq, Eq, Debug, Structural)]
pub enum TStore {
    Cpp,
    Java,
    Xml,
    Ts,
}

/// The language tag packed into interned kinds.
pub open spec fn lang_of(l: TStore) -> u16 {
    match l {
        TStore::Cpp => 0,
        TStore::Java => 1,
        TStore::Xml => 2,
        TStore::Ts => 3,
    }
}

/// An interned kind tagged with the language it belongs to.
#[derive(Clone, Copy, PartialEq, Eq, Debug, Structural)]
pub enum Types {
    Cpp(Type),
    Java(Type),
    Xml(Type),
    Ts(Type),
}

impl Default for TStore {
    fn default() -> (r: TStore)
        ensures
            r == TStore::Ts,
    {
        TStore::Ts
    }
}

/// A store of kinds with the `Ts` language table enabled: it can intern a
/// [`Type`] into its compact form and resolve the compact form back.
pub trait TsEnabledTypeStore {
    type Ty;

    fn intern(&self, t: Type) -> Self::Ty;

    fn resolve(&self, t: Self::Ty) -> Type;
}

impl TsEnabledTypeStore for TStore {
    type Ty = Type;

    fn intern(&self, t: Type) -> Self::Ty {
        t
    }

    fn resolve(&self, t: Self::Ty) -> Type {
        t
    }
}

impl TStore {
    /// Pack a raw kind number under a language tag.
    pub fn _intern(l: TStore, t: u16) -> (r: T)
        requires
            t <= KIND_MASK,
        ensures
            r.0 == (lang_of(l) << 14) | t,
    {
        let lt: u16 = match l {
            TStore::Cpp => 0,
            TStore::Java => 1,
            TStore::Xml => 2,
            TStore::Ts => 3,
        };
        T((lt << 14) | t)
    }

    /// Intern a node's raw kind number for the `Cpp` language.
    pub fn intern_cpp(&self, n: &TNode) -> (r: T)
        requires
            n.kind_id <= KIND_MASK,
        ensures
            r.0 == (lang_of(TStore::Cpp) << 14) | n.kind_id,
    {
        Self::_intern(TStore::Cpp, n.kind_id)
    }

    /// Intern a node's raw kind number for the `Java` language.
    pub fn intern_java(&self, n: &TNode) -> (r: T)
        requires
            n.kind_id <= KIND_MASK,
        ensures
            r.0 == (lang_of(TStore::Java) << 14) | n.kind_id,
    {
        Self::_intern(TStore::Java, n.kind_id)
    }

    /// Intern a node's raw kind number for the `Xml` language.
    pub fn intern_xml(&self, n: &TNode) -> (r: T)
        requires
            n.kind_id <= KIND_MASK,
        ensures
            r.0 == (lang_of(TStore::Xml) << 14) | n.kind_id,
    {
        Self::_intern(TStore::Xml, n.kind_id)
    }

    /// Intern a node's kind for the `Ts` language: the raw grammar number is
    /// first normalised to the canonical kind, then packed under the tag.
    pub fn intern_ts(&self, n: &TNode) -> (r: T)
        requires
            n.kind_id < 357,
        ensures
            r.0 == (lang_of(TStore::Ts) << 14) | u16_of_type(type_of_u16(n.kind_id)),
    {
        let t = Type::from_u16(n.kind_id);
        let t = Ts.to_u16(t);
        Self::_intern(TStore::Ts, t)
    }

    /// Resolve a kind interned for the `Ts` language, ignoring the tag.
    pub fn resolve_ts_unchecked(&self, t: T) -> (r: Type)
        requires
            t.0 & KIND_MASK < COUNT,
        ensures
            u16_of_type(r) == t.0 & KIND_MASK,
    {
        let idx = t.0 & KIND_MASK;
        Type::resolve(idx)
    }

    /// Resolve an interned kind to its language-tagged form. Only kinds
    /// interned for the `Ts` language carry a resolvable table.
    pub fn resolve(&self, t: T) -> (r: Types)
        requires
            t.0 >> 14 == lang_of(TStore::Ts),
            t.0 & KIND_MASK < COUNT,
        ensures
            r matches Types::Ts(ty) && u16_of_type(ty) == t.0 & KIND_MASK,
    {
        Types::Ts(self.resolve_ts_unchecked(t))
    }
}

impl Type {
    /// Whether this kind marks a directory root.
    pub fn is_directory(&self) -> (r: bool)
        ensures
            r == (*self == Type::Directory),
    {
        *self == Type::Directory
    }

    /// Whether this kind marks a file root (the grammar's whole-program node).
    pub fn is_file(&self) -> (r: bool)
        ensures
            r == (*self == Type::Program),
    {
        *self == Type::Program
    }

    /// Whether this kind is the zero-semantic whitespace kind.
    pub fn is_spaces(&self) -> (r: bool)
        ensures
            r == (*self == Type::Spaces),
    {
        *self == Type::Spaces
    }

    /// The language-independent class this kind is shared under.
    pub fn as_shared(&self) -> (r: Shared)
        ensures
            r == spec_as_shared(*self),
    {
        match self {
            Type::ClassDeclaration => Shared::TypeDeclaration,
            Type::EnumDeclaration => Shared::TypeDeclaration,
            Type::TypeAliasDeclaration => Shared::TypeDeclaration,
            Type::InterfaceDeclaration => Shared::TypeDeclaration,
            Type::AbstractClassDeclaration => Shared::TypeDeclaration,
            Type::FunctionDeclaration => Shared::TypeDeclaration,
            Type::Comment => Shared::Comment,
            Type::Identifier => Shared::Identifier,
            _ => Shared::Other,
        }
    }
}

/// Language-independent classes of kinds.
#[derive(Clone, Copy, PartialEq, Eq, Debug, Structural)]
pub enum Shared {
    TypeDeclaration,
    Comment,
    Identifier,
    Other,
}

/// The language-independent class of each kind.
pub open spec fn spec_as_shared(t: Type) -> Shared {
    match t {
        Type::ClassDeclaration => Shared::TypeDeclaration,
        Type::EnumDeclaration => Shared::TypeDeclaration,
        Type::TypeAliasDeclaration => Shared::TypeDeclaration,
        Type::InterfaceDeclaration => Shared::TypeDeclaration,
        Type::AbstractClassDeclaration => Shared::TypeDeclaration,
        Type::FunctionDeclaration => Shared::TypeDeclaration,
        Type::Comment => Shared::Comment,
        Type::Identifier => Shared::Identifier,
        _ => Shared::Other,
    }
}

/// The `Ts` language itself: numbering of its kinds.
pub struct Ts;

impl Ts {
    /// The kind at a canonical number.
    pub fn make(&self, t: u16) -> (r: Type)
        requires
            t < COUNT,
        ensures
            u16_of_type(r) == t,
    {
        Type::resolve(t)
    }

    /// The canonical number of a kind.
    pub fn to_u16(&self, t: Type) -> (r: u16)
        ensures
            r == u16_of_type(t),
            r < COUNT,
    {
        t.canonical_u16()
    }

    /// This language's name.
    pub fn name(&self) -> (r: &'static str)
        ensures
            r@ == "Ts"@,
    {
        "Ts"
    }
}

/// A kind-number pair describing one language's slice of a combined table.
pub struct Single {
    pub mask: u16,
    pub lang: u16,
}

/// A node identifier known to carry a typed node.
#[derive(Clone, Copy, PartialEq, Eq, Debug)]
pub struct TIdN<IdN>(IdN);

impl<IdN> TIdN<IdN> {
    /// The identifier wrapped by this typed identifier.
    pub closed spec fn spec_id(self) -> IdN {
        self.0
    }

    pub fn as_id(&self) -> (r: &IdN)
        ensures
            *r == self.spec_id(),
    {
        &self.0
    }

    pub fn from_id(id: IdN) -> (r: Self)
        ensures
            r.spec_id() == id,
    {
        TIdN(id)
    }
}

/// A concrete parse-tree node as the external frontend hands it over: the raw
/// grammar kind number, the byte span in the source text, whether the node
/// carries its text as a label, and the concrete children in source order.
pub struct TNode {
    pub kind_id: u16,
    pub start_byte: usize,
    pub end_byte: usize,
    pub labeled: bool,
    pub children: Vec<TNode>,
}

impl TNode {
    /// The kind of this concrete node under the `Ts` table.
    pub fn obtain_type<TS: TsEnabledTypeStore>(&self, _ts: &mut TS) -> (r: Type)
        requires
            self.kind_id < 357,
        ensures
            *final(_ts) == *old(_ts),
            r == type_of_u16(self.kind_id),
    {
        Type::from_u16(self.kind_id)
    }
}

} // verus!
