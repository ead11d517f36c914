//! Nodes of the graph: the record of a node, its four flavours, the option
//! records from which nodes are declared, and the defaults they fall back on.
use crate::text::{copy_strings, views_of};
use vstd::prelude::*;

verus! {

/// What a vector-memory node does with its collection.
#[derive(Clone, Copy, Debug, PartialEq, Eq, Structural)]
pub enum MemoryAction {
    Read,
    Write,
}

/// The flavour of a node, with the fields that only that flavour has.
#[derive(Debug, PartialEq, Eq)]
pub enum NodeKind {
    /// Renders `template` and sends it to the chat model `model`.
    Prompt { template: String, model: String },
    /// Runs logic that is hosted outside the runtime, registered under
    /// `node_type_name`.
    Custom { node_type_name: String },
    /// Runs `source_code` on the engine `language`. With `is_template` the
    /// source is itself rendered as a template before it runs.
    Code { language: String, source_code: String, is_template: bool },
    /// Reads from or writes to the collection `collection_name` of a vector
    /// database.
    VectorMemory {
        action: MemoryAction,
        embedding_model: String,
        template: String,
        db_vendor: String,
        collection_name: String,
    },
}

/// What every flavour of node has.
#[derive(Debug, PartialEq, Eq)]
pub struct NodeCore {
    /// The name, by which the node is known in a file.
    pub name: String,
    /// The dependency queries, in order. `None` is the explicit absence of a
    /// query.
    pub queries: Vec<Option<String>>,
    /// The declared output schema.
    pub output: String,
    /// Further tables under which the output is filed.
    pub output_tables: Vec<String>,
}

/// A named unit of the graph.
#[derive(Debug, PartialEq, Eq)]
pub struct Node {
    pub core: NodeCore,
    pub kind: NodeKind,
}

/// Mathematical model of a [`NodeKind`].
pub enum NodeKindView {
    Prompt { template: Seq<char>, model: Seq<char> },
    Custom { node_type_name: Seq<char> },
    Code { language: Seq<char>, source_code: Seq<char>, is_template: bool },
    VectorMemory {
        action: MemoryAction,
        embedding_model: Seq<char>,
        template: Seq<char>,
        db_vendor: Seq<char>,
        collection_name: Seq<char>,
    },
}

/// Mathematical model of a [`NodeCore`].
pub struct NodeCoreView {
    pub name: Seq<char>,
    pub queries: Seq<Option<Seq<char>>>,
    pub output: Seq<char>,
    pub output_tables: Seq<Seq<char>>,
}

/// Mathematical model of a [`Node`].
pub struct NodeView {
    pub core: NodeCoreView,
    pub kind: NodeKindView,
}

/// The views of a list of queries, in order.
pub open spec fn query_views(queries: Seq<Option<String>>) -> Seq<Option<Seq<char>>> {
    Seq::new(
        queries.len(),
        |i: int|
            match queries[i] {
                Some(q) => Some(q@),
                None => None,
            },
    )
}

impl View for NodeKind {
    type V = NodeKindView;

    open spec fn view(&self) -> NodeKindView {
        match *self {
            NodeKind::Prompt { template, model } => NodeKindView::Prompt {
                template: template@,
                model: model@,
            },
            NodeKind::Custom { node_type_name } => NodeKindView::Custom {
                node_type_name: node_type_name@,
            },
            NodeKind::Code { language, source_code, is_template } => NodeKindView::Code {
                language: language@,
                source_code: source_code@,
                is_template,
            },
            NodeKind::VectorMemory {
                action,
                embedding_model,
                template,
                db_vendor,
                collection_name,
            } => NodeKindView::VectorMemory {
                action,
                embedding_model: embedding_model@,
                template: template@,
                db_vendor: db_vendor@,
                collection_name: collection_name@,
            },
        }
    }
}

impl View for NodeCore {
    type V = NodeCoreView;

    open spec fn view(&self) -> NodeCoreView {
        NodeCoreView {
            name: self.name@,
            queries: query_views(self.queries@),
            output: self.output@,
            output_tables: views_of(self.output_tables@),
        }
    }
}

impl View for Node {
    type V = NodeView;

    open spec fn view(&self) -> NodeView {
        NodeView { core: self.core@, kind: self.kind@ }
    }
}

/// A copy of `queries`.
pub fn copy_queries(queries: &Vec<Option<String>>) -> (copy: Vec<Option<String>>)
    ensures
        query_views(copy@) == query_views(queries@),
{
    let mut copy: Vec<Option<String>> = Vec::new();
    let mut i: usize = 0;
    while i < queries.len()
        invariant
            i <= queries.len(),
            copy@.len() == i,
            forall|k: int| 0 <= k < i ==> query_views(copy@)[k] == query_views(queries@)[k],
        decreases queries.len() - i,
    {
        let q = match &queries[i] {
            Some(q) => Some(q.clone()),
            None => None,
        };
        copy.push(q);
        i = i + 1;
    }
    assert(query_views(copy@) =~= query_views(queries@));
    copy
}

impl Clone for NodeKind {
    fn clone(&self) -> (copy: NodeKind)
        ensures
            copy@ == self@,
    {
        match self {
            NodeKind::Prompt { template, model } => NodeKind::Prompt {
                template: template.clone(),
                model: model.clone(),
            },
            NodeKind::Custom { node_type_name } => NodeKind::Custom {
                node_type_name: node_type_name.clone(),
            },
            NodeKind::Code { language, source_code, is_template } => NodeKind::Code {
                language: language.clone(),
                source_code: source_code.clone(),
                is_template: *is_template,
            },
            NodeKind::VectorMemory {
                action,
                embedding_model,
                template,
                db_vendor,
                collection_name,
            } => NodeKind::VectorMemory {
                action: *action,
                embedding_model: embedding_model.clone(),
                template: template.clone(),
                db_vendor: db_vendor.clone(),
                collection_name: collection_name.clone(),
            },
        }
    }
}

impl Clone for NodeCore {
    fn clone(&self) -> (copy: NodeCore)
        ensures
            copy@ == self@,
    {
        NodeCore {
            name: self.name.clone(),
            queries: copy_queries(&self.queries),
            output: self.output.clone(),
            output_tables: copy_strings(&self.output_tables),
        }
    }
}

impl Clone for Node {
    fn clone(&self) -> (copy: Node)
        ensures
            copy@ == self@,
    {
        Node { core: self.core.clone(), kind: self.kind.clone() }
    }
}

/// Why a node could not be declared.
#[derive(Clone, Copy, Debug, PartialEq, Eq, Structural)]
pub enum NodeError {
    /// The chat model of a prompt node is not one that the runtime knows.
    UnknownChatModel,
    /// The action of a vector-memory node is neither `READ` nor `WRITE`.
    UnknownMemoryAction,
    /// The embedding model or the database vendor of a vector-memory node is
    /// not one that the runtime knows.
    UnknownMemoryBackend,
    /// No output paths could be derived for the node: its output schema is not
    /// an addressable structure.
    SchemaDerivation,
}

/// The query that stands for "no query" in a list of queries.
pub open spec fn absent_query() -> Seq<char> {
    "None"@
}

/// The chat model of a prompt node that names none.
pub open spec fn default_chat_model() -> Seq<char> {
    "GPT_3_5_TURBO"@
}

/// The output schema of a node that declares none: an object without fields.
pub open spec fn default_output() -> Seq<char> {
    "{}"@
}

/// The engine on which inline code runs.
pub open spec fn code_engine() -> Seq<char> {
    "DENO"@
}

/// The embedding model of a vector-memory node that names none.
pub open spec fn default_embedding_model() -> Seq<char> {
    "TEXT_EMBEDDING_ADA_002"@
}

/// The database vendor of a vector-memory node that names none.
pub open spec fn default_db_vendor() -> Seq<char> {
    "QDRANT"@
}

/// The name under which the runtime knows `action`.
pub open spec fn action_name(action: MemoryAction) -> Seq<char> {
    match action {
        MemoryAction::Read => "READ"@,
        MemoryAction::Write => "WRITE"@,
    }
}

/// The action that `name` names, if it names one. A node that names no
/// action reads.
pub open spec fn action_named(name: Option<Seq<char>>) -> Option<MemoryAction> {
    match name {
        None => Some(MemoryAction::Read),
        Some(n) => if n == "READ"@ {
            Some(MemoryAction::Read)
        } else if n == "WRITE"@ {
            Some(MemoryAction::Write)
        } else {
            None
        },
    }
}

impl MemoryAction {
    /// The name under which the runtime knows the action.
    pub fn name(&self) -> (name: &'static str)
        ensures
            name@ == action_name(*self),
    {
        match self {
            MemoryAction::Read => "READ",
            MemoryAction::Write => "WRITE",
        }
    }

    /// Reads the action of a vector-memory node from its option record.
    pub fn parse(name: &Option<String>) -> (action: Option<MemoryAction>)
        ensures
            action == action_named(option_view(*name)),
    {
        match name {
            None => Some(MemoryAction::Read),
            Some(n) => {
                if *n == "READ".to_string() {
                    Some(MemoryAction::Read)
                } else if *n == "WRITE".to_string() {
                    Some(MemoryAction::Write)
                } else {
                    None
                }
            },
        }
    }
}

/// The view of an optional string.
pub open spec fn option_view(s: Option<String>) -> Option<Seq<char>> {
    match s {
        Some(s) => Some(s@),
        None => None,
    }
}

/// The views of an optional list of strings.
pub open spec fn option_views(strings: Option<Vec<String>>) -> Option<Seq<Seq<char>>> {
    match strings {
        Some(v) => Some(views_of(v@)),
        None => None,
    }
}

/// The string of `s`, or `default` where there is none.
pub open spec fn or_default(s: Option<Seq<char>>, default: Seq<char>) -> Seq<char> {
    match s {
        Some(s) => s,
        None => default,
    }
}

/// The strings of `strings`, or none where there is no list.
pub open spec fn or_empty(strings: Option<Seq<Seq<char>>>) -> Seq<Seq<char>> {
    match strings {
        Some(v) => v,
        None => Seq::empty(),
    }
}

/// The queries of a node as its option record lists them: each query that is
/// the text `None` stands for the absence of a query, every other query for
/// itself. A record without a list gives a node without queries.
pub open spec fn remapped(queries: Option<Seq<Seq<char>>>) -> Seq<Option<Seq<char>>> {
    match queries {
        Some(qs) => Seq::new(
            qs.len(),
            |i: int|
                if qs[i] == absent_query() {
                    None
                } else {
                    Some(qs[i])
                },
        ),
        None => Seq::empty(),
    }
}

/// A listed query that is the text `None` becomes the absence of a query, not
/// a query, and not an empty one; every other listed query is kept as it is.
pub proof fn absent_query_is_never_kept(queries: Seq<Seq<char>>, i: int)
    requires
        0 <= i < queries.len(),
    ensures
        remapped(Some(queries)).len() == queries.len(),
        remapped(Some(queries))[i] is None <==> queries[i] == absent_query(),
        queries[i] == absent_query() ==> remapped(Some(queries))[i] != Some(Seq::<char>::empty()),
        queries[i] != absent_query() ==> remapped(Some(queries))[i] == Some(queries[i]),
{
}

/// Turns the queries of an option record into the queries of a node.
pub fn remap_queries(queries: Option<Vec<String>>) -> (out: Vec<Option<String>>)
    ensures
        query_views(out@) == remapped(option_views(queries)),
{
    let mut out: Vec<Option<String>> = Vec::new();
    match queries {
        Some(list) => {
            let absent = "None".to_string();
            for q in it: list
                invariant
                    it.seq() == list@,
                    absent@ == absent_query(),
                    out@.len() == it.index(),
                    forall|k: int|
                        0 <= k < it.index() ==> #[trigger] out@[k] == (if list@[k]@
                            == absent_query() {
                            None
                        } else {
                            Some(list@[k])
                        }),
            {
                if q == absent {
                    out.push(None);
                } else {
                    out.push(Some(q));
                }
            }
            assert(query_views(out@) =~= remapped(Some(views_of(list@))));
        },
        None => {
            assert(query_views(out@) =~= remapped(None));
        },
    }
    out
}

/// The string of `s`, or `default` where there is none.
pub fn string_or(s: Option<String>, default: &str) -> (out: String)
    ensures
        out@ == or_default(option_view(s), default@),
{
    match s {
        Some(s) => s,
        None => default.to_string(),
    }
}

/// The strings of `strings`, or an empty list where there is none.
pub fn strings_or_empty(strings: Option<Vec<String>>) -> (out: Vec<String>)
    ensures
        views_of(out@) == or_empty(option_views(strings)),
{
    match strings {
        Some(v) => v,
        None => {
            let out: Vec<String> = Vec::new();
            assert(views_of(out@) =~= Seq::<Seq<char>>::empty());
            out
        },
    }
}

/// What a prompt node is declared from.
#[derive(Clone, Debug, PartialEq, Eq)]
pub struct PromptNodeCreateOpts {
    pub name: String,
    pub queries: Option<Vec<String>>,
    pub output_tables: Option<Vec<String>>,
    pub template: String,
    /// The chat model; `GPT_3_5_TURBO` where there is none.
    pub model: Option<String>,
}

/// What a custom node is declared from.
#[derive(Clone, Debug, PartialEq, Eq)]
pub struct CustomNodeCreateOpts {
    pub name: String,
    pub queries: Option<Vec<String>>,
    pub output_tables: Option<Vec<String>>,
    /// The output schema; an object without fields where there is none.
    pub output: Option<String>,
    pub node_type_name: String,
}

/// What a node of inline code is declared from.
#[derive(Clone, Debug, PartialEq, Eq)]
pub struct DenoCodeNodeCreateOpts {
    pub name: String,
    pub queries: Option<Vec<String>>,
    pub output_tables: Option<Vec<String>>,
    /// The output schema; an object without fields where there is none.
    pub output: Option<String>,
    pub code: String,
    /// Whether the code is a template; it is not where nothing is said.
    pub is_template: Option<bool>,
}

/// What a vector-memory node is declared from.
#[derive(Clone, Debug, PartialEq, Eq)]
pub struct VectorMemoryNodeCreateOpts {
    pub name: String,
    pub queries: Option<Vec<String>>,
    pub output_tables: Option<Vec<String>>,
    /// The output schema; an object without fields where there is none.
    pub output: Option<String>,
    /// The template; empty where there is none.
    pub template: Option<String>,
    /// `READ` or `WRITE`; `READ` where there is none.
    pub action: Option<String>,
    /// The embedding model; `TEXT_EMBEDDING_ADA_002` where there is none.
    pub embedding_model: Option<String>,
    /// The database vendor; `QDRANT` where there is none.
    pub db_vendor: Option<String>,
    pub collection_name: String,
}

} // verus!
