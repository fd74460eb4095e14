//! A content-driven conversation engine: a stage controller that escalates
//! to fallback content after a dwell time, a loader that builds dialogue
//! trees from YAML assets, a traversal state machine over the owned tree,
//! and a two-phase presentation-sync protocol that keeps rendered choices
//! consistent with tree mutations across scheduling passes.

pub mod content;
pub mod interact;
pub mod math;
pub mod runtime;
pub mod session;
pub mod stages;
pub mod sync;
pub mod tree;
