use crate::error::ReferenceError;
use crate::tree::Tree;
use vstd::prelude::*;

verus! {

/// `post` is `pre` after one call of `add_branch` or `add_leaf`, whatever its
/// result; `attached` says whether that call added an edge from a parent.
pub open spec fn one_insertion(pre: Tree, post: Tree, attached: bool) -> bool {
    ||| exists|index: i32, parent: Option<i32>, r: Result<(), ReferenceError>|
        #[trigger] Tree::add_branch_post(pre, post, index, parent, r) && attached == (r is Ok
            && parent is Some)
    ||| exists|index: i32, parent: i32, r: Result<(), ReferenceError>|
        #[trigger] Tree::add_leaf_post(pre, post, index, parent, r) && attached == r is Ok
}

/// `trees` is a run of insertions: each tree is the one before after one call,
/// and `attached[i]` says whether the call that made `trees[i + 1]` attached it.
pub open spec fn insertion_run(trees: Seq<Tree>, attached: Seq<bool>) -> bool {
    &&& trees.len() == attached.len() + 1
    &&& forall|i: int|
        0 <= i < attached.len() ==> one_insertion(trees[i], trees[i + 1], #[trigger] attached[i])
}

/// How many entries of `s` are true.
pub open spec fn count_true(s: Seq<bool>) -> nat
    decreases s.len(),
{
    if s.len() == 0 {
        0
    } else {
        count_true(s.drop_last()) + if s.last() {
            1nat
        } else {
            0nat
        }
    }
}

proof fn lemma_run_prefix(trees: Seq<Tree>, attached: Seq<bool>)
    requires
        insertion_run(trees, attached),
        attached.len() > 0,
    ensures
        insertion_run(trees.drop_last(), attached.drop_last()),
        one_insertion(trees[attached.len() - 1], trees.last(), attached.last()),
{
    let n = attached.len() - 1;
    assert(one_insertion(trees[n], trees[n + 1], attached[n]));
    assert forall|i: int| 0 <= i < attached.drop_last().len() implies one_insertion(
        trees.drop_last()[i],
        trees.drop_last()[i + 1],
        #[trigger] attached.drop_last()[i],
    ) by {
        assert(one_insertion(trees[i], trees[i + 1], attached[i]));
    }
}

/// Over any run of insertions, the node count grows by exactly the number of
/// calls, whether or not each call found its parent.
pub proof fn lemma_node_count_is_insertions(trees: Seq<Tree>, attached: Seq<bool>)
    requires
        insertion_run(trees, attached),
    ensures
        trees.last().nodes().len() == trees[0].nodes().len() + attached.len(),
    decreases attached.len(),
{
    if attached.len() > 0 {
        lemma_run_prefix(trees, attached);
        lemma_node_count_is_insertions(trees.drop_last(), attached.drop_last());
    }
}

/// Over any run of insertions, the edges grow by exactly one for each call that
/// attached its node to a parent, so a rendering, which shows every node and every
/// edge, shows one edge per successful attachment.
pub proof fn lemma_edges_are_attachments(trees: Seq<Tree>, attached: Seq<bool>)
    requires
        insertion_run(trees, attached),
    ensures
        trees.last().edges().len() == trees[0].edges().len() + count_true(attached),
    decreases attached.len(),
{
    if attached.len() > 0 {
        lemma_run_prefix(trees, attached);
        lemma_edges_are_attachments(trees.drop_last(), attached.drop_last());
    }
}

/// Once a branch is added again under an identifier that a branch already had, a
/// later node that names that identifier as parent is attached to the newer branch
/// and not to the earlier one.
pub proof fn lemma_readded_branch_takes_children(
    t0: Tree,
    t1: Tree,
    t2: Tree,
    index: i32,
    parent: Option<i32>,
    r1: Result<(), ReferenceError>,
    child: i32,
    child_is_branch: bool,
    r2: Result<(), ReferenceError>,
)
    requires
        t0.wf(),
        t0.branches().contains_key(index),
        Tree::add_branch_post(t0, t1, index, parent, r1),
        child_is_branch ==> Tree::add_branch_post(t1, t2, child, Some(index), r2) && child
            != index,
        !child_is_branch ==> Tree::add_leaf_post(t1, t2, child, index, r2),
    ensures
        r2 == Ok::<(), ReferenceError>(()),
        t2.edges().last() == (t0.nodes().len() as usize, t1.nodes().len() as usize),
        t2.edges().last().0 != t0.branches()[index],
{
}

/// A branch added without a parent always succeeds, and no edge leads to it.
pub proof fn lemma_root_branch_has_no_parent(
    t0: Tree,
    t1: Tree,
    index: i32,
    r: Result<(), ReferenceError>,
)
    requires
        t0.wf(),
        Tree::add_branch_post(t0, t1, index, None, r),
    ensures
        r == Ok::<(), ReferenceError>(()),
        forall|e: int| 0 <= e < t1.edges().len() ==> #[trigger] t1.edges()[e].1 != t0.nodes().len(),
{
    assert forall|e: int| 0 <= e < t1.edges().len() implies #[trigger] t1.edges()[e].1
        != t0.nodes().len() by {
        assert(t0.edges()[e].0 < t0.nodes().len());
    }
}

} // verus!
