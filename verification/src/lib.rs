//! A content-addressed, hash-consed store of syntax-tree nodes together with a
//! GumTree-style tree-diff engine that runs over it.
//!
//! The store deduplicates structurally identical subtrees across an entire
//! corpus: a node is identified by its kind, its optional label and its ordered
//! child identifiers, and identical content always yields the same identifier.
//! Because shared subtrees have no inherent positions, each diff first
//! materialises the two roots into per-diff post-order index arenas, then runs
//! a greedy bottom-up matcher refined by a bounded exact matcher, producing a
//! partial bijection between the two arenas' indices.

pub mod complete_post_order;
pub mod diff;
pub mod greedy_bottom_up_matcher;
pub mod hashing;
pub mod label_store;
pub mod mapping_store;
pub mod node_store;
pub mod position;
pub mod similarity_metrics;
pub mod tree_builder;
pub mod type_table;
pub mod types;
pub mod zs;

pub use complete_post_order::CompletePostOrder;
pub use complete_post_order::IterParents;
pub use diff::diff;
pub use diff::DiffStats;
pub use greedy_bottom_up_matcher::GreedyBottomUpMatcher;
pub use label_store::LabelStore;
pub use mapping_store::MappingStore;
pub use node_store::NodeIdentifier;
pub use node_store::NodeRecord;
pub use node_store::NodeStore;
pub use tree_builder::PartialAnalysis;
pub use tree_builder::SimpleStores;
pub use tree_builder::TreeCursorStep;
pub use tree_builder::TsTreeGen;
pub use type_table::Type;
pub use types::Single;
pub use types::TIdN;
pub use types::TNode;
pub use types::TStore;
pub use types::Ts;
pub use types::TsEnabledTypeStore;
pub use types::Types;
pub use types::T;
