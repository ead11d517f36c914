//! Assembling a graph: the local collection of declared nodes, the
//! declaration of a node of each flavour, and the commit that sends them.
use crate::bindings::{
    code_core, core_of, custom_core, derived_output_paths, is_chat_model, is_embedding_model,
    is_vector_database, memory_core, prompt_core, prompt_output_schema,
};
use crate::handle::{with_query, NodeHandle};
use crate::node::{
    action_named, code_engine, default_chat_model, default_db_vendor, default_embedding_model,
    default_output, option_view, option_views, or_default, or_empty, remap_queries, remapped,
    string_or, strings_or_empty, CustomNodeCreateOpts, DenoCodeNodeCreateOpts, MemoryAction, Node,
    NodeCore, NodeError, NodeKind, NodeKindView, NodeView, PromptNodeCreateOpts,
    VectorMemoryNodeCreateOpts,
};
use crate::requests::{File, RequestFileMerge};
use vstd::prelude::*;

verus! {

/// The views of the nodes of `nodes`, in order.
pub open spec fn node_views(nodes: Seq<Node>) -> Seq<NodeView> {
    Seq::new(nodes.len(), |i: int| nodes[i]@)
}

/// Whether no two nodes of `nodes` have the same name.
pub open spec fn names_distinct(nodes: Seq<NodeView>) -> bool {
    forall|i: int, j: int|
        0 <= i < j < nodes.len() ==> (#[trigger] nodes[i]).core.name
            != (#[trigger] nodes[j]).core.name
}

/// Whether a node of `nodes` is named `name`.
pub open spec fn holds_name(nodes: Seq<NodeView>, name: Seq<char>) -> bool {
    exists|i: int| 0 <= i < nodes.len() && (#[trigger] nodes[i]).core.name == name
}

/// `nodes` after `node` was declared: where a node had its name, `node` has
/// taken its place; otherwise `node` was added at the end.
pub open spec fn upserted(nodes: Seq<NodeView>, node: NodeView) -> Seq<NodeView> {
    if holds_name(nodes, node.core.name) {
        Seq::new(
            nodes.len(),
            |i: int|
                if nodes[i].core.name == node.core.name {
                    node
                } else {
                    nodes[i]
                },
        )
    } else {
        nodes.push(node)
    }
}

/// Whether output paths can be derived for `node`.
pub open spec fn derivable(node: NodeView) -> bool {
    derived_output_paths(node.core.name, node.core.output, node.core.output_tables) is Some
}

/// The prompt node that `arg` declares.
pub open spec fn prompt_node_of(arg: PromptNodeCreateOpts) -> NodeView {
    NodeView {
        core: core_of(
            arg.name@,
            remapped(option_views(arg.queries)),
            prompt_output_schema(),
            or_empty(option_views(arg.output_tables)),
        ),
        kind: NodeKindView::Prompt {
            template: arg.template@,
            model: or_default(option_view(arg.model), default_chat_model()),
        },
    }
}

/// The custom node that `arg` declares.
pub open spec fn custom_node_of(arg: CustomNodeCreateOpts) -> NodeView {
    NodeView {
        core: core_of(
            arg.name@,
            remapped(option_views(arg.queries)),
            or_default(option_view(arg.output), default_output()),
            or_empty(option_views(arg.output_tables)),
        ),
        kind: NodeKindView::Custom { node_type_name: arg.node_type_name@ },
    }
}

/// The node of inline code that `arg` declares.
pub open spec fn code_node_of(arg: DenoCodeNodeCreateOpts) -> NodeView {
    NodeView {
        core: core_of(
            arg.name@,
            remapped(option_views(arg.queries)),
            or_default(option_view(arg.output), default_output()),
            or_empty(option_views(arg.output_tables)),
        ),
        kind: NodeKindView::Code {
            language: code_engine(),
            source_code: arg.code@,
            is_template: match arg.is_template {
                Some(flag) => flag,
                None => false,
            },
        },
    }
}

/// The vector-memory node that `arg` declares with the action `action`.
pub open spec fn memory_node_of(arg: VectorMemoryNodeCreateOpts, action: MemoryAction)
    -> NodeView {
    NodeView {
        core: core_of(
            arg.name@,
            remapped(option_views(arg.queries)),
            or_default(option_view(arg.output), default_output()),
            or_empty(option_views(arg.output_tables)),
        ),
        kind: NodeKindView::VectorMemory {
            action,
            embedding_model: or_default(
                option_view(arg.embedding_model),
                default_embedding_model(),
            ),
            template: or_default(option_view(arg.template), Seq::empty()),
            db_vendor: or_default(option_view(arg.db_vendor), default_db_vendor()),
            collection_name: arg.collection_name@,
        },
    }
}

/// The position in `nodes` of the node named `name`, if there is one.
fn position_of(nodes: &Vec<Node>, name: &String) -> (found: Option<usize>)
    ensures
        match found {
            Some(i) => i < nodes@.len() && node_views(nodes@)[i as int].core.name == name@,
            None => !holds_name(node_views(nodes@), name@),
        },
{
    let mut i: usize = 0;
    while i < nodes.len()
        invariant
            i <= nodes.len(),
            forall|k: int| 0 <= k < i ==> (#[trigger] node_views(nodes@)[k]).core.name != name@,
        decreases nodes.len() - i,
    {
        if nodes[i].core.name == *name {
            return Some(i);
        }
        i = i + 1;
    }
    None
}

/// The nodes that were declared locally and that a commit sends: at most one
/// under each name, in the order in which the names were first declared.
#[derive(Debug, PartialEq, Eq)]
pub struct GraphBuilder {
    nodes: Vec<Node>,
}

impl View for GraphBuilder {
    type V = Seq<NodeView>;

    closed spec fn view(&self) -> Seq<NodeView> {
        node_views(self.nodes@)
    }
}

impl GraphBuilder {
    /// No two nodes have the same name.
    #[verifier::type_invariant]
    spec fn names_are_distinct(&self) -> bool {
        names_distinct(node_views(self.nodes@))
    }

    /// A builder that holds no node.
    pub fn new() -> (builder: GraphBuilder)
        ensures
            builder@ == Seq::<NodeView>::empty(),
    {
        let builder = GraphBuilder { nodes: Vec::new() };
        assert(builder@ =~= Seq::<NodeView>::empty());
        builder
    }

    /// The number of nodes.
    pub fn len(&self) -> (n: usize)
        ensures
            n == self@.len(),
            names_distinct(self@),
    {
        proof {
            use_type_invariant(self);
        }
        self.nodes.len()
    }

    /// The node named `name`, if there is one. No other node has that name.
    pub fn get(&self, name: &str) -> (found: Option<&Node>)
        ensures
            match found {
                Some(node) => node@.core.name == name@ && self@.contains(node@),
                None => !holds_name(self@, name@),
            },
            names_distinct(self@),
    {
        proof {
            use_type_invariant(self);
        }
        match position_of(&self.nodes, &name.to_string()) {
            Some(i) => {
                assert(self@[i as int] == self.nodes@[i as int]@);
                Some(&self.nodes[i])
            },
            None => None,
        }
    }

    /// Declares `node`. A node that was declared under the same name before
    /// is overwritten, and the result is `true`; otherwise `node` is added
    /// after the others, and the result is `false`.
    pub fn declare(&mut self, node: Node) -> (overwrote: bool)
        ensures
            names_distinct(final(self)@),
            final(self)@ == upserted(old(self)@, node@),
            overwrote == holds_name(old(self)@, node@.core.name),
    {
        proof {
            use_type_invariant(&*self);
        }
        let ghost before = self@;
        let mut nodes: Vec<Node> = Vec::new();
        std::mem::swap(&mut nodes, &mut self.nodes);
        let found = position_of(&nodes, &node.core.name);
        let overwrote = match found {
            Some(i) => {
                nodes[i] = node;
                assert(node_views(nodes@) =~= upserted(before, node@)) by {
                    assert(before[i as int].core.name == node@.core.name);
                    assert forall|k: int| 0 <= k < before.len() implies node_views(nodes@)[k]
                        == upserted(before, node@)[k] by {
                        if k != i {
                            assert(before[k].core.name != before[i as int].core.name);
                        }
                    }
                }
                true
            },
            None => {
                nodes.push(node);
                assert(node_views(nodes@) =~= upserted(before, node@));
                false
            },
        };
        proof {
            upsert_keeps_names_distinct(before, node@);
        }
        self.nodes = nodes;
        overwrote
    }

    /// Declares a prompt node and returns a handle on it. The node fails to
    /// be declared, and the builder stays as it was, where the chat model is
    /// unknown or no output paths can be derived.
    pub fn prompt_node(&mut self, arg: PromptNodeCreateOpts) -> (r: Result<NodeHandle, NodeError>)
        ensures
            names_distinct(final(self)@),
            r is Ok <==> is_chat_model(prompt_node_of(arg).kind->Prompt_model) && derivable(
                prompt_node_of(arg),
            ),
            r matches Ok(handle) ==> {
                &&& handle.node_view() == prompt_node_of(arg)
                &&& handle.derived_from(prompt_node_of(arg))
                &&& handle.paths_are_table_and_field()
                &&& final(self)@ == upserted(old(self)@, prompt_node_of(arg))
            },
            r matches Err(e) ==> {
                &&& final(self)@ == old(self)@
                &&& e == if is_chat_model(prompt_node_of(arg).kind->Prompt_model) {
                    NodeError::SchemaDerivation
                } else {
                    NodeError::UnknownChatModel
                }
            },
    {
        proof {
            use_type_invariant(&*self);
        }
        let queries = remap_queries(arg.queries);
        let model = string_or(arg.model, "GPT_3_5_TURBO");
        let output_tables = strings_or_empty(arg.output_tables);
        let built = prompt_core(
            arg.name,
            queries,
            arg.template.clone(),
            model.clone(),
            output_tables,
        );
        let core = match built {
            Ok(core) => core,
            Err(_) => {
                return Err(NodeError::UnknownChatModel);
            },
        };
        let node = Node { core, kind: NodeKind::Prompt { template: arg.template, model } };
        self.declare_derived(node)
    }

    /// Declares a custom node and returns a handle on it. The node fails to
    /// be declared, and the builder stays as it was, where no output paths
    /// can be derived.
    pub fn custom_node(&mut self, arg: CustomNodeCreateOpts) -> (r: Result<NodeHandle, NodeError>)
        ensures
            names_distinct(final(self)@),
            r is Ok <==> derivable(custom_node_of(arg)),
            r matches Ok(handle) ==> {
                &&& handle.node_view() == custom_node_of(arg)
                &&& handle.derived_from(custom_node_of(arg))
                &&& handle.paths_are_table_and_field()
                &&& final(self)@ == upserted(old(self)@, custom_node_of(arg))
            },
            r matches Err(e) ==> final(self)@ == old(self)@ && e == NodeError::SchemaDerivation,
    {
        let queries = remap_queries(arg.queries);
        let output = string_or(arg.output, "{}");
        let output_tables = strings_or_empty(arg.output_tables);
        let core = custom_core(
            arg.name,
            queries,
            output,
            arg.node_type_name.clone(),
            output_tables,
        );
        let node = Node { core, kind: NodeKind::Custom { node_type_name: arg.node_type_name } };
        self.declare_derived(node)
    }

    /// Declares a node of inline code and returns a handle on it. The node
    /// fails to be declared, and the builder stays as it was, where no output
    /// paths can be derived.
    pub fn deno_code_node(&mut self, arg: DenoCodeNodeCreateOpts) -> (r: Result<
        NodeHandle,
        NodeError,
    >)
        ensures
            names_distinct(final(self)@),
            r is Ok <==> derivable(code_node_of(arg)),
            r matches Ok(handle) ==> {
                &&& handle.node_view() == code_node_of(arg)
                &&& handle.derived_from(code_node_of(arg))
                &&& handle.paths_are_table_and_field()
                &&& final(self)@ == upserted(old(self)@, code_node_of(arg))
            },
            r matches Err(e) ==> final(self)@ == old(self)@ && e == NodeError::SchemaDerivation,
    {
        let queries = remap_queries(arg.queries);
        let output = string_or(arg.output, "{}");
        let output_tables = strings_or_empty(arg.output_tables);
        let language = "DENO".to_string();
        let is_template = match arg.is_template {
            Some(flag) => flag,
            None => false,
        };
        let core = code_core(
            arg.name,
            queries,
            output,
            language.clone(),
            arg.code.clone(),
            is_template,
            output_tables,
        );
        let node = Node {
            core,
            kind: NodeKind::Code { language, source_code: arg.code, is_template },
        };
        self.declare_derived(node)
    }

    /// Declares a vector-memory node and returns a handle on it. The node
    /// fails to be declared, and the builder stays as it was, where the
    /// action is neither `READ` nor `WRITE`, the embedding model or the
    /// database vendor is unknown, or no output paths can be derived.
    pub fn vector_memory_node(&mut self, arg: VectorMemoryNodeCreateOpts) -> (r: Result<
        NodeHandle,
        NodeError,
    >)
        ensures
            names_distinct(final(self)@),
            r is Ok <==> {
                &&& action_named(option_view(arg.action)) matches Some(action)
                &&& is_embedding_model(memory_node_of(arg, action).kind->embedding_model)
                &&& is_vector_database(memory_node_of(arg, action).kind->db_vendor)
                &&& derivable(memory_node_of(arg, action))
            },
            r matches Ok(handle) ==> {
                &&& action_named(option_view(arg.action)) matches Some(action)
                &&& handle.node_view() == memory_node_of(arg, action)
                &&& handle.derived_from(memory_node_of(arg, action))
                &&& handle.paths_are_table_and_field()
                &&& final(self)@ == upserted(old(self)@, memory_node_of(arg, action))
            },
            r matches Err(e) ==> {
                &&& final(self)@ == old(self)@
                &&& e == match action_named(option_view(arg.action)) {
                    None => NodeError::UnknownMemoryAction,
                    Some(action) => if is_embedding_model(
                        memory_node_of(arg, action).kind->embedding_model,
                    ) && is_vector_database(memory_node_of(arg, action).kind->db_vendor) {
                        NodeError::SchemaDerivation
                    } else {
                        NodeError::UnknownMemoryBackend
                    },
                }
            },
    {
        proof {
            use_type_invariant(&*self);
        }
        let action = match MemoryAction::parse(&arg.action) {
            Some(action) => action,
            None => {
                return Err(NodeError::UnknownMemoryAction);
            },
        };
        let given = NodeCore {
            name: arg.name,
            queries: remap_queries(arg.queries),
            output: string_or(arg.output, "{}"),
            output_tables: strings_or_empty(arg.output_tables),
        };
        let embedding_model = string_or(arg.embedding_model, "TEXT_EMBEDDING_ADA_002");
        let template = string_or(arg.template, "");
        let db_vendor = string_or(arg.db_vendor, "QDRANT");
        proof {
            reveal_strlit("");
            assert(""@ =~= Seq::<char>::empty());
        }
        let built = memory_core(
            given,
            action.name(),
            embedding_model.clone(),
            template.clone(),
            db_vendor.clone(),
            arg.collection_name.clone(),
        );
        let core = match built {
            Ok(core) => core,
            Err(_) => {
                return Err(NodeError::UnknownMemoryBackend);
            },
        };
        let node = Node {
            core,
            kind: NodeKind::VectorMemory {
                action,
                embedding_model,
                template,
                db_vendor,
                collection_name: arg.collection_name,
            },
        };
        self.declare_derived(node)
    }

    /// Derives the output paths of `node` and, where that succeeds, declares
    /// it and returns the handle.
    fn declare_derived(&mut self, node: Node) -> (r: Result<NodeHandle, NodeError>)
        ensures
            names_distinct(final(self)@),
            r is Ok <==> derivable(node@),
            r matches Ok(handle) ==> {
                &&& handle.node_view() == node@
                &&& handle.derived_from(node@)
                &&& handle.paths_are_table_and_field()
                &&& final(self)@ == upserted(old(self)@, node@)
            },
            r matches Err(e) ==> final(self)@ == old(self)@ && e == NodeError::SchemaDerivation,
    {
        proof {
            use_type_invariant(&*self);
        }
        let handle = NodeHandle::from(node)?;
        self.declare(handle.node().clone());
        Ok(handle)
    }

    /// Wires `dependent` to the output of `dependency`, as
    /// `dependent.run_when(dependency, self)` does: the query is added to the
    /// handle and to the node that the builder holds.
    pub fn wire(&mut self, dependent: &mut NodeHandle, dependency: &NodeHandle)
        ensures
            names_distinct(final(self)@),
            final(dependent).node_view() == with_query(
                old(dependent).node_view(),
                dependency.output_query(),
            ),
            final(dependent).paths() == old(dependent).paths(),
            final(self)@ == upserted(old(self)@, final(dependent).node_view()),
    {
        let _ = dependent.run_when(dependency, self);
    }

    /// The request that merges every node of the builder into the file
    /// `file_id` on `branch`: each node as the builder holds it, no name
    /// twice. The builder keeps its nodes: a second commit sends them again.
    pub fn commit(&self, file_id: String, branch: u64) -> (request: RequestFileMerge)
        ensures
            request.id == file_id,
            request.branch == branch,
            request.file.id@ == Seq::<char>::empty(),
            node_views(request.file.nodes@) == self@,
            names_distinct(node_views(request.file.nodes@)),
            names_distinct(self@),
    {
        proof {
            use_type_invariant(self);
        }
        let mut nodes: Vec<Node> = Vec::new();
        let mut i: usize = 0;
        while i < self.nodes.len()
            invariant
                i <= self.nodes.len(),
                nodes@.len() == i,
                forall|k: int| 0 <= k < i ==> (#[trigger] nodes@[k])@ == self.nodes@[k]@,
            decreases self.nodes.len() - i,
        {
            nodes.push(self.nodes[i].clone());
            i = i + 1;
        }
        assert(node_views(nodes@) =~= self@);
        RequestFileMerge { id: file_id, file: File { id: String::new(), nodes }, branch }
    }
}

/// After a node was declared it is the one node of its name, and the nodes of
/// other names are where and what they were.
pub proof fn declared_node_is_held(nodes: Seq<NodeView>, node: NodeView)
    requires
        names_distinct(nodes),
    ensures
        holds_name(upserted(nodes, node), node.core.name),
        forall|i: int|
            0 <= i < upserted(nodes, node).len() && (#[trigger] upserted(nodes, node)[i]).core.name
                == node.core.name ==> upserted(nodes, node)[i] == node,
        forall|i: int|
            0 <= i < nodes.len() && (#[trigger] nodes[i]).core.name != node.core.name ==> upserted(
                nodes,
                node,
            )[i] == nodes[i],
        upserted(nodes, node).len() == if holds_name(nodes, node.core.name) {
            nodes.len()
        } else {
            nodes.len() + 1
        },
{
    let after = upserted(nodes, node);
    if holds_name(nodes, node.core.name) {
        let i = choose|i: int| 0 <= i < nodes.len() && (#[trigger] nodes[i]).core.name
            == node.core.name;
        assert(after[i].core.name == node.core.name);
    } else {
        assert(after[nodes.len() as int].core.name == node.core.name);
        assert forall|i: int| 0 <= i < after.len() && (#[trigger] after[i]).core.name
            == node.core.name implies after[i] == node by {
            if i < nodes.len() {
                assert(nodes[i].core.name != node.core.name);
            }
        }
    }
}

/// The last declaration under a name wins: declaring `first` and then
/// `second` under the same name leaves what declaring `second` alone leaves.
/// So declaring a node again changes nothing.
pub proof fn last_declaration_wins(nodes: Seq<NodeView>, first: NodeView, second: NodeView)
    requires
        first.core.name == second.core.name,
    ensures
        upserted(upserted(nodes, first), second) == upserted(nodes, second),
{
    let once = upserted(nodes, first);
    if holds_name(nodes, first.core.name) {
        let i = choose|i: int| 0 <= i < nodes.len() && (#[trigger] nodes[i]).core.name
            == first.core.name;
        assert(once[i].core.name == second.core.name);
        assert(upserted(once, second) =~= upserted(nodes, second));
    } else {
        assert(once[nodes.len() as int].core.name == second.core.name);
        assert forall|i: int| 0 <= i < nodes.len() implies (#[trigger] once[i]).core.name
            != second.core.name by {
            assert(nodes[i].core.name != first.core.name);
        }
        assert(upserted(once, second) =~= upserted(nodes, second));
    }
}

/// Declaring a node keeps the names of the nodes distinct.
pub proof fn upsert_keeps_names_distinct(nodes: Seq<NodeView>, node: NodeView)
    requires
        names_distinct(nodes),
    ensures
        names_distinct(upserted(nodes, node)),
{
    let after = upserted(nodes, node);
    if holds_name(nodes, node.core.name) {
        assert forall|i: int, j: int| 0 <= i < j < after.len() implies after[i].core.name
            != after[j].core.name by {
            assert(nodes[i].core.name != nodes[j].core.name);
        }
    } else {
        assert forall|i: int, j: int| 0 <= i < j < after.len() implies after[i].core.name
            != after[j].core.name by {
            if j < nodes.len() {
                assert(nodes[i].core.name != nodes[j].core.name);
            } else {
                assert(nodes[i].core.name != node.core.name);
            }
        }
    }
}

} // verus!
