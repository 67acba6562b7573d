//! An append-only builder for a labelled tree of branches and leaves, kept in a
//! directed graph, with a lookup table from a branch's own identifier to its node.
pub mod error;
pub mod graph;
pub mod laws;
pub mod node;
pub mod text;
pub mod tree;
