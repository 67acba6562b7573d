use vstd::prelude::*;

verus! {

/// The two kinds of node a tree holds.
#[derive(Clone, Copy, Debug, PartialEq, Eq, Structural)]
pub enum NodeKind {
    Branch,
    Leaf,
}

/// One vertex of the tree: the caller's identifier and the node's kind.
#[derive(Clone, Copy, Debug, PartialEq, Eq, Structural)]
pub struct Node {
    pub index: i32,
    pub kind: NodeKind,
}

} // verus!
