//! Core engine for self referential collections such as linked lists and
//! trees: nodes live in one growth-stable arena, inter-node references are
//! arena addresses, and a compaction subsystem reclaims the slots of closed
//! nodes while keeping every reference and collection anchor consistent.

pub mod compaction;
pub mod core_col;
pub mod laws;
pub mod memory;
pub mod memory_state;
pub mod node;
pub mod node_data;
pub mod node_idx;
pub mod node_idx_error;
pub mod node_index_error;
pub mod node_ptr;
pub mod refs;
pub mod refs_array;
pub mod refs_array_left_most;
pub mod refs_none;
pub mod refs_single;
pub mod refs_vec;
pub mod selfref_col;
pub mod utilization;
pub mod variant;

pub use compaction::GenericReclaimer;
pub use core_col::CoreCol;
pub use memory::{MemoryPolicy, MemoryReclaimNever, MemoryReclaimOnThreshold, MemoryReclaimer};
pub use memory_state::MemoryState;
pub use node::Node;
pub use node_data::{NodeData, NodeDataEagerClose, NodeDataLazyClose};
pub use node_idx::NodeIdx;
pub use node_idx_error::NodeIdxError;
pub use node_index_error::NodeIndexError;
pub use node_ptr::NodePtr;
pub use refs::Refs;
pub use refs_array::RefsArray;
pub use refs_array_left_most::RefsArrayLeftMost;
pub use refs_none::RefsNone;
pub use refs_single::RefsSingle;
pub use refs_vec::RefsVec;
pub use selfref_col::SelfRefCol;
pub use utilization::Utilization;
pub use variant::Variant;
