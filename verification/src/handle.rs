//! Handles on nodes: a node together with its output paths, through which
//! other nodes are wired to its output and its output is queried.
use crate::bindings::{
    derived_output_paths, is_output_path, output_paths, path_views, select_query,
    select_statement,
};
use crate::graph::{names_distinct, upserted, GraphBuilder};
use crate::node::{query_views, Node, NodeCoreView, NodeError, NodeView};
use crate::requests::QueryAtFrame;
use crate::value::Path;
use vstd::prelude::*;

verus! {

/// A declared node together with the output paths derived for it. Other
/// nodes are wired to the node through its handle, and its output is queried
/// through it.
#[derive(Debug, PartialEq, Eq)]
pub struct NodeHandle {
    node: Node,
    output_paths: Vec<Path>,
}

/// The node `node` with `query` added at the end of its queries.
pub open spec fn with_query(node: NodeView, query: Seq<char>) -> NodeView {
    NodeView {
        core: NodeCoreView { queries: node.core.queries.push(Some(query)), ..node.core },
        kind: node.kind,
    }
}

impl NodeHandle {
    /// The node.
    pub closed spec fn node_view(&self) -> NodeView {
        self.node@
    }

    /// The output paths, in the order in which they were derived.
    pub closed spec fn paths(&self) -> Seq<Seq<Seq<char>>> {
        path_views(self.output_paths@)
    }

    /// Whether the output paths of the handle are those derived for `node`.
    pub open spec fn derived_from(&self, node: NodeView) -> bool {
        &&& derived_output_paths(node.core.name, node.core.output, node.core.output_tables)
            == Some(self.paths().to_set())
        &&& self.paths().no_duplicates()
    }

    /// Whether every output path of the handle is a table and a field, the
    /// table being the name of the node or one of its output tables. It is so
    /// for every handle that was derived.
    pub open spec fn paths_are_table_and_field(&self) -> bool {
        forall|i: int|
            0 <= i < self.paths().len() ==> is_output_path(
                #[trigger] self.paths()[i],
                self.node_view().core.name,
                self.node_view().core.output_tables,
            )
    }

    /// The query that selects the output of the node.
    pub open spec fn output_query(&self) -> Seq<char> {
        select_statement(self.node_view().core.name, self.paths())
    }

    /// The handle on `node` with the output paths `output_paths`.
    pub fn new(node: Node, output_paths: Vec<Path>) -> (handle: NodeHandle)
        ensures
            handle.node_view() == node@,
            handle.paths() == path_views(output_paths@),
    {
        NodeHandle { node, output_paths }
    }

    /// Derives the output paths of `node` and pairs them with it. This fails
    /// exactly when none can be derived. The queries of the node have no part
    /// in it: they are not read.
    pub fn from(node: Node) -> (r: Result<NodeHandle, NodeError>)
        ensures
            r is Ok <==> derived_output_paths(
                node@.core.name,
                node@.core.output,
                node@.core.output_tables,
            ) is Some,
            r matches Ok(handle) ==> {
                &&& handle.node_view() == node@
                &&& handle.derived_from(node@)
                &&& handle.paths_are_table_and_field()
            },
            r matches Err(e) ==> e == NodeError::SchemaDerivation,
    {
        match output_paths(&node.core.name, &node.core.output, &node.core.output_tables) {
            Ok(paths) => Ok(NodeHandle::new(node, paths)),
            Err(_) => Err(NodeError::SchemaDerivation),
        }
    }

    /// The name of the node.
    pub fn get_name(&self) -> (name: String)
        ensures
            name@ == self.node_view().core.name,
    {
        self.node.core.name.clone()
    }

    /// The node.
    pub fn node(&self) -> (node: &Node)
        ensures
            node@ == self.node_view(),
    {
        &self.node
    }

    /// The output paths, in the order in which the handle lists them.
    pub fn output_paths(&self) -> (paths: &Vec<Path>)
        ensures
            path_views(paths@) == self.paths(),
    {
        &self.output_paths
    }

    /// Makes this node run when `other_node` has written its output: the
    /// query that selects the output of `other_node` is added at the end of
    /// the queries of this node, and the node is declared to `graph` as it
    /// then stands, so that the next commit of `graph` sends it with the
    /// query. Nothing is removed and nothing is merged, so a second call adds
    /// the query a second time. The result is always `Ok(true)`.
    pub fn run_when(&mut self, other_node: &NodeHandle, graph: &mut GraphBuilder) -> (r: Result<
        bool,
        NodeError,
    >)
        ensures
            r == Ok::<bool, NodeError>(true),
            final(self).node_view() == with_query(
                old(self).node_view(),
                other_node.output_query(),
            ),
            final(self).paths() == old(self).paths(),
            final(graph)@ == upserted(old(graph)@, final(self).node_view()),
            names_distinct(final(graph)@),
    {
        let name = other_node.get_name();
        let query = select_query(&name, &other_node.output_paths).unwrap();
        self.node.core.queries.push(Some(query));
        assert(query_views(self.node.core.queries@) =~= query_views(
            old(self).node.core.queries@,
        ).push(Some(other_node.output_query())));
        graph.declare(self.node.clone());
        Ok(true)
    }

    /// The request that reads the output of this node from the file
    /// `file_id`, as it was on `branch` after `frame` steps.
    pub fn query(&self, file_id: String, branch: u64, frame: u64) -> (request: QueryAtFrame)
        ensures
            request.id == file_id,
            request.query@ == self.output_query(),
            request.branch == branch,
            request.frame == frame,
    {
        let query = select_query(&self.node.core.name, &self.output_paths).unwrap();
        QueryAtFrame { id: file_id, query, frame, branch }
    }
}

/// Handles that were derived for one node hold the same output paths: the
/// same set of them, and as many. The order in which a handle lists them is
/// not fixed.
pub proof fn derivation_is_deterministic(first: NodeHandle, second: NodeHandle, node: NodeView)
    requires
        first.derived_from(node),
        second.derived_from(node),
    ensures
        first.paths().to_set() == second.paths().to_set(),
        first.paths().len() == second.paths().len(),
{
    first.paths().unique_seq_to_set();
    second.paths().unique_seq_to_set();
}

/// Handles that were derived for one node with at most one output path hold
/// the same paths: repeating the derivation changes nothing.
pub proof fn derivation_of_one_path_repeats(first: NodeHandle, second: NodeHandle, node: NodeView)
    requires
        first.derived_from(node),
        second.derived_from(node),
        first.paths().len() <= 1,
    ensures
        first.paths() == second.paths(),
{
    derivation_is_deterministic(first, second, node);
    if first.paths().len() == 1 {
        assert(first.paths().to_set().contains(first.paths()[0]));
        assert(second.paths().contains(first.paths()[0]));
    }
    assert(first.paths() =~= second.paths());
}

/// Wiring a node twice to the same output adds the query twice: nothing is
/// merged.
pub proof fn wiring_twice_adds_two_queries(node: NodeView, query: Seq<char>)
    ensures
        with_query(with_query(node, query), query).core.queries == node.core.queries.push(
            Some(query),
        ).push(Some(query)),
        with_query(with_query(node, query), query).core.queries.len() == node.core.queries.len()
            + 2,
{
}

} // verus!
