use crate::node::Node;
use crate::text::{attributes_of, no_attributes};
use petgraph::dot::{Config, Dot};
use petgraph::graph::NodeIndex;
use petgraph::Graph;
use vstd::prelude::*;

verus! {

/// petgraph's adjacency-list graph, held opaque; what it holds is named below.
#[verifier::external_type_specification]
#[verifier::external_body]
#[verifier::reject_recursive_types(N)]
#[verifier::reject_recursive_types(E)]
#[verifier::reject_recursive_types(Ty)]
#[verifier::reject_recursive_types(Ix)]
pub struct ExGraph<N, E, Ty, Ix>(Graph<N, E, Ty, Ix>);

/// petgraph's marker for directed edges, the default edge type of `Graph`.
#[verifier::external_type_specification]
#[verifier::external_body]
pub struct ExDirected(petgraph::Directed);

/// The node weights of a graph, in the order of their node indices.
pub uninterp spec fn graph_nodes(g: Graph<Node, ()>) -> Seq<Node>;

/// The edges of a graph as (source, target) node indices, in the order of their
/// edge indices.
pub uninterp spec fn graph_edges(g: Graph<Node, ()>) -> Seq<(usize, usize)>;

/// Relies on petgraph's `Graph::new`: a directed graph with no nodes and no edges.
#[verifier::external_body]
pub(crate) fn new_graph() -> (g: Graph<Node, ()>)
    ensures
        graph_nodes(g) == Seq::<Node>::empty(),
        graph_edges(g) == Seq::<(usize, usize)>::empty(),
{
    Graph::new()
}

/// Relies on petgraph's `Graph::add_node`: the weight is pushed to the end of the
/// node list, its index is the former node count, and the edges are untouched.
/// It panics once the count reaches the `u32` index type's end, which the
/// requirement leaves out.
#[verifier::external_body]
pub(crate) fn add_node(g: &mut Graph<Node, ()>, n: Node) -> (r: usize)
    requires
        graph_nodes(*old(g)).len() < u32::MAX,
    ensures
        r == graph_nodes(*old(g)).len(),
        graph_nodes(*final(g)) == graph_nodes(*old(g)).push(n),
        graph_edges(*final(g)) == graph_edges(*old(g)),
{
    g.add_node(n).index()
}

/// Relies on petgraph's `Graph::add_edge`: the edge from `a` to `b` is pushed to
/// the end of the edge list and the nodes are untouched. It panics on an index
/// that names no node, or once the edge count reaches the `u32` index type's end.
#[verifier::external_body]
pub(crate) fn add_edge(g: &mut Graph<Node, ()>, a: usize, b: usize)
    requires
        a < graph_nodes(*old(g)).len(),
        b < graph_nodes(*old(g)).len(),
        graph_nodes(*old(g)).len() <= u32::MAX,
        graph_edges(*old(g)).len() < u32::MAX,
    ensures
        graph_nodes(*final(g)) == graph_nodes(*old(g)),
        graph_edges(*final(g)) == graph_edges(*old(g)).push((a, b)),
{
    g.add_edge(NodeIndex::new(a), NodeIndex::new(b), ());
}

/// Relies on petgraph's `Graph::node_count`: the length of the node list.
#[verifier::external_body]
pub(crate) fn node_count(g: &Graph<Node, ()>) -> (r: usize)
    ensures
        r == graph_nodes(*g).len(),
{
    g.node_count()
}

/// The graph-description text of a graph with these nodes and edges, as
/// petgraph's `Dot` writes it with each node's attributes from `attributes_of`
/// and each edge labelled by its index.
pub uninterp spec fn dot_text(nodes: Seq<Node>, edges: Seq<(usize, usize)>) -> Seq<char>;

/// Relies on petgraph's `Dot::with_attr_getters` and its `Debug` output: the text
/// is a function of the node weights and the edges alone (node labels are off,
/// so each node reads by its attributes; edges are labelled by index).
#[verifier::external_body]
pub(crate) fn render_dot(g: &Graph<Node, ()>) -> (r: String)
    ensures
        r@ == dot_text(graph_nodes(*g), graph_edges(*g)),
{
    let config = [Config::NodeNoLabel, Config::EdgeIndexLabel];
    format!("{:?}", Dot::with_attr_getters(g, &config, &|_, _| no_attributes(), &|_, n| attributes_of(n.1)))
}

} // verus!
