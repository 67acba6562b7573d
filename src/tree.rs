use crate::error::ReferenceError;
use crate::graph::{
    add_edge, add_node, dot_text, graph_edges, graph_nodes, new_graph, node_count, render_dot,
};
use crate::node::{Node, NodeKind};
use petgraph::Graph;
use std::collections::HashMap;
use vstd::prelude::*;

verus! {

broadcast use vstd::std_specs::hash::group_hash_axioms;

/// A tree under construction: a directed graph of branches and leaves, with a
/// table from each branch identifier to the node of the branch that last took it.
pub struct Tree {
    graph: Graph<Node, ()>,
    branch_index: HashMap<i32, usize>,
}

impl Tree {
    /// The nodes, in order of insertion; a node's position is its handle.
    pub closed spec fn nodes(&self) -> Seq<Node> {
        graph_nodes(self.graph)
    }

    /// The edges as (parent position, child position), in order of insertion.
    pub closed spec fn edges(&self) -> Seq<(usize, usize)> {
        graph_edges(self.graph)
    }

    /// The branch table: branch identifier to the position of its node.
    pub closed spec fn branches(&self) -> Map<i32, usize> {
        self.branch_index@
    }

    /// Every table entry names a branch node that carries that identifier, every
    /// edge joins two existing nodes, and no node has more than one parent edge.
    pub open spec fn wf(&self) -> bool {
        &&& forall|k: i32| #[trigger]
            self.branches().contains_key(k) ==> {
                &&& self.branches()[k] < self.nodes().len()
                &&& self.nodes()[self.branches()[k] as int] == Node {
                    index: k,
                    kind: NodeKind::Branch,
                }
            }
        &&& forall|e: int|
            0 <= e < self.edges().len() ==> {
                &&& #[trigger] self.edges()[e].0 < self.nodes().len()
                &&& self.edges()[e].1 < self.nodes().len()
            }
        &&& self.edges().len() <= self.nodes().len()
        &&& self.nodes().len() <= u32::MAX
    }

    /// What `add_branch(index, parent_branch)` does to `pre`, giving `post` and `r`.
    pub open spec fn add_branch_post(
        pre: Tree,
        post: Tree,
        index: i32,
        parent_branch: Option<i32>,
        r: Result<(), ReferenceError>,
    ) -> bool {
        let pos = pre.nodes().len() as usize;
        &&& post.nodes() == pre.nodes().push(Node { index, kind: NodeKind::Branch })
        &&& post.branches() == pre.branches().insert(index, pos)
        &&& match parent_branch {
            None => r == Ok::<(), ReferenceError>(()) && post.edges() == pre.edges(),
            Some(p) => if post.branches().contains_key(p) {
                &&& r == Ok::<(), ReferenceError>(())
                &&& post.edges() == pre.edges().push((post.branches()[p], pos))
            } else {
                &&& r == Err::<(), ReferenceError>(ReferenceError { branch: p })
                &&& post.edges() == pre.edges()
            },
        }
    }

    /// What `add_leaf(index, parent_branch)` does to `pre`, giving `post` and `r`.
    pub open spec fn add_leaf_post(
        pre: Tree,
        post: Tree,
        index: i32,
        parent_branch: i32,
        r: Result<(), ReferenceError>,
    ) -> bool {
        let pos = pre.nodes().len() as usize;
        &&& post.nodes() == pre.nodes().push(Node { index, kind: NodeKind::Leaf })
        &&& post.branches() == pre.branches()
        &&& if pre.branches().contains_key(parent_branch) {
            &&& r == Ok::<(), ReferenceError>(())
            &&& post.edges() == pre.edges().push((pre.branches()[parent_branch], pos))
        } else {
            &&& r == Err::<(), ReferenceError>(ReferenceError { branch: parent_branch })
            &&& post.edges() == pre.edges()
        }
    }

    /// An empty tree.
    pub fn new() -> (t: Tree)
        ensures
            t.wf(),
            t.nodes() == Seq::<Node>::empty(),
            t.edges() == Seq::<(usize, usize)>::empty(),
            t.branches() == Map::<i32, usize>::empty(),
    {
        Tree { graph: new_graph(), branch_index: HashMap::new() }
    }

    /// Adds a branch node carrying `index` and makes it the node of `index` in the
    /// branch table. With a parent, the parent is looked up after that, and an edge
    /// from its node to the new one is added; where no branch holds the parent's
    /// identifier, the new node stays in the tree unattached and the call fails.
    pub fn add_branch(
        &mut self,
        index: i32,
        parent_branch: Option<i32>,
    ) -> (r: Result<(), ReferenceError>)
        requires
            old(self).wf(),
            old(self).nodes().len() < u32::MAX,
        ensures
            final(self).wf(),
            Tree::add_branch_post(*old(self), *final(self), index, parent_branch, r),
    {
        let pos = add_node(&mut self.graph, Node { index, kind: NodeKind::Branch });
        self.branch_index.insert(index, pos);
        match parent_branch {
            None => Ok(()),
            Some(p) => match self.branch_index.get(&p) {
                Some(parent) => {
                    add_edge(&mut self.graph, *parent, pos);
                    Ok(())
                },
                None => Err(ReferenceError { branch: p }),
            },
        }
    }

    /// Adds a leaf node carrying `index` under the branch that holds
    /// `parent_branch`; where none does, the new node stays in the tree unattached
    /// and the call fails. Leaves never enter the branch table.
    pub fn add_leaf(&mut self, index: i32, parent_branch: i32) -> (r: Result<(), ReferenceError>)
        requires
            old(self).wf(),
            old(self).nodes().len() < u32::MAX,
        ensures
            final(self).wf(),
            Tree::add_leaf_post(*old(self), *final(self), index, parent_branch, r),
    {
        let pos = add_node(&mut self.graph, Node { index, kind: NodeKind::Leaf });
        match self.branch_index.get(&parent_branch) {
            Some(parent) => {
                add_edge(&mut self.graph, *parent, pos);
                Ok(())
            },
            None => Err(ReferenceError { branch: parent_branch }),
        }
    }

    /// The number of nodes ever added, branches and leaves.
    pub fn node_count(&self) -> (r: usize)
        requires
            self.wf(),
        ensures
            r == self.nodes().len(),
    {
        node_count(&self.graph)
    }

    /// The graph-description text of the tree: one entry per node, reading
    /// `(Branch_<index>)` or `(Leaf_<index>)`, and one per edge, labelled by its
    /// position among the edges.
    pub fn render(&self) -> (r: String)
        requires
            self.wf(),
        ensures
            r@ == dot_text(self.nodes(), self.edges()),
    {
        render_dot(&self.graph)
    }
}

} // verus!
