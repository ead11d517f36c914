//! The calls into `prompt-graph-core`. Nothing in this module is proved: each
//! contract restates what the source of that crate shows, and the rest of the
//! library is proved from these contracts.
use crate::node::{query_views, NodeCore, NodeCoreView};
use crate::text::{joined, views_of};
use crate::value::Path;
use prompt_graph_core::build_runtime_graph::graph_parse::{
    construct_query_from_output_type, derive_for_individual_node,
};
use prompt_graph_core::graph_definition::{
    create_code_node, create_custom_node, create_prompt_node, create_vector_memory_node,
    SourceNodeType,
};
use prompt_graph_core::proto::{Item, ItemCore, OutputType};
use vstd::prelude::*;

verus! {

/// The error type of `anyhow`, in which `prompt-graph-core` reports failures.
#[verifier::external_type_specification]
#[verifier::external_body]
pub struct ExAnyhowError(anyhow::Error);

/// The chat models that `create_prompt_node` accepts.
pub open spec fn is_chat_model(model: Seq<char>) -> bool {
    ||| model == "GPT_4"@
    ||| model == "GPT_4_0314"@
    ||| model == "GPT_4_32K"@
    ||| model == "GPT_4_32K_0314"@
    ||| model == "GPT_3_5_TURBO"@
    ||| model == "GPT_3_5_TURBO_0301"@
}

/// The embedding models that `create_vector_memory_node` accepts.
pub open spec fn is_embedding_model(model: Seq<char>) -> bool {
    ||| model == "TEXT_EMBEDDING_ADA_002"@
    ||| model == "TEXT_SEARCH_ADA_DOC_001"@
}

/// The vector databases that `create_vector_memory_node` accepts.
pub open spec fn is_vector_database(vendor: Seq<char>) -> bool {
    ||| vendor == "IN_MEMORY"@
    ||| vendor == "CHROMA"@
    ||| vendor == "PINECONEDB"@
    ||| vendor == "QDRANT"@
}

/// The source languages that `create_code_node` accepts.
pub open spec fn is_source_language(language: Seq<char>) -> bool {
    ||| language == "DENO"@
    ||| language == "STARLARK"@
}

/// The actions that `create_vector_memory_node` accepts.
pub open spec fn is_memory_action(action: Seq<char>) -> bool {
    ||| action == "READ"@
    ||| action == "WRITE"@
    ||| action == "DELETE"@
}

/// The output schema that `create_prompt_node` gives every prompt node.
pub open spec fn prompt_output_schema() -> Seq<char> {
    "\n              {\n                  promptResult: String\n              }\n            "@
}

/// The core of a node as the `create_*_node` functions fill it in.
pub open spec fn core_of(
    name: Seq<char>,
    queries: Seq<Option<Seq<char>>>,
    output: Seq<char>,
    output_tables: Seq<Seq<char>>,
) -> NodeCoreView {
    NodeCoreView { name, queries, output, output_tables }
}

/// Calls `create_prompt_node` and returns the core of the item it built. The
/// call fails exactly when `model` is not one of the six chat models it
/// knows; otherwise the core holds the name, queries and output tables it was
/// given and the fixed output schema of prompt nodes.
#[verifier::external_body]
pub(crate) fn prompt_core(
    name: String,
    queries: Vec<Option<String>>,
    template: String,
    model: String,
    output_tables: Vec<String>,
) -> (r: Result<NodeCore, anyhow::Error>)
    ensures
        r is Ok <==> is_chat_model(model@),
        r matches Ok(core) ==> core@ == core_of(
            name@,
            query_views(queries@),
            prompt_output_schema(),
            views_of(output_tables@),
        ),
{
    let item = create_prompt_node(name, queries, template, model, output_tables)?;
    let core = item.core.unwrap_or_default();
    let queries = core.triggers.into_iter().map(|q| q.query).collect();
    let output = core.output.unwrap_or_default().output;
    Ok(NodeCore { name: core.name, queries, output, output_tables: core.output_tables })
}

/// Calls `create_custom_node` and returns the core of the item it built: the
/// name, queries, output schema and output tables it was given.
#[verifier::external_body]
pub(crate) fn custom_core(
    name: String,
    queries: Vec<Option<String>>,
    output: String,
    node_type_name: String,
    output_tables: Vec<String>,
) -> (core: NodeCore)
    ensures
        core@ == core_of(name@, query_views(queries@), output@, views_of(output_tables@)),
{
    let item = create_custom_node(name, queries, output, node_type_name, output_tables);
    let core = item.core.unwrap_or_default();
    let queries = core.triggers.into_iter().map(|q| q.query).collect();
    let output = core.output.unwrap_or_default().output;
    NodeCore { name: core.name, queries, output, output_tables: core.output_tables }
}

/// Calls `create_code_node` for inline source and returns the core of the
/// item it built: the name, queries, output schema and output tables it was
/// given. The call panics on a language it does not know, so one is required.
#[verifier::external_body]
pub(crate) fn code_core(
    name: String,
    queries: Vec<Option<String>>,
    output: String,
    language: String,
    source_code: String,
    is_template: bool,
    output_tables: Vec<String>,
) -> (core: NodeCore)
    requires
        is_source_language(language@),
    ensures
        core@ == core_of(name@, query_views(queries@), output@, views_of(output_tables@)),
{
    let source = SourceNodeType::Code(language, source_code, is_template);
    let item = create_code_node(name, queries, output, source, output_tables);
    let core = item.core.unwrap_or_default();
    let queries = core.triggers.into_iter().map(|q| q.query).collect();
    let output = core.output.unwrap_or_default().output;
    NodeCore { name: core.name, queries, output, output_tables: core.output_tables }
}

/// Calls `create_vector_memory_node` and returns the core of the item it
/// built. The call fails exactly when the embedding model or the database
/// vendor is not one it knows; otherwise the core holds the name, queries,
/// output schema and output tables it was given. The call panics on an action
/// it does not know, so one is required.
#[verifier::external_body]
pub(crate) fn memory_core(
    core: NodeCore,
    action: &str,
    embedding_model: String,
    template: String,
    db_vendor: String,
    collection_name: String,
) -> (r: Result<NodeCore, anyhow::Error>)
    requires
        is_memory_action(action@),
    ensures
        r is Ok <==> (is_embedding_model(embedding_model@) && is_vector_database(db_vendor@)),
        r matches Ok(built) ==> built@ == core@,
{
    let NodeCore { name, queries, output, output_tables } = core;
    let item = create_vector_memory_node(
        name, queries, output, action.to_string(), embedding_model, template, db_vendor,
        collection_name, output_tables,
    )?;
    let core = item.core.unwrap_or_default();
    let queries = core.triggers.into_iter().map(|q| q.query).collect();
    let output = core.output.unwrap_or_default().output;
    Ok(NodeCore { name: core.name, queries, output, output_tables: core.output_tables })
}

/// The views of the paths of `paths`, in order.
pub open spec fn path_views(paths: Seq<Path>) -> Seq<Seq<Seq<char>>> {
    Seq::new(paths.len(), |i: int| paths[i]@)
}

/// The set of output paths that `derive_for_individual_node` finds for a node
/// with the given name, output schema and output tables, or `None` where it
/// fails: where the output schema is not a mapping from field names to types
/// that it knows.
pub uninterp spec fn derived_output_paths(
    name: Seq<char>,
    output: Seq<char>,
    output_tables: Seq<Seq<char>>,
) -> Option<Set<Seq<Seq<char>>>>;

/// Whether `path` is a table and a field, the table being `name` or one of
/// `output_tables`.
pub open spec fn is_output_path(
    path: Seq<Seq<char>>,
    name: Seq<char>,
    output_tables: Seq<Seq<char>>,
) -> bool {
    &&& path.len() == 2
    &&& (path[0] == name || output_tables.contains(path[0]))
}

/// Calls `derive_for_individual_node` on an item with the given name, output
/// schema and output tables, and returns its output paths. The item is given
/// no queries: the output paths do not depend on them, and the parser that the
/// function runs on queries panics on some statements. The function walks hash
/// tables to list the paths, so their order is not fixed; the set of them is,
/// and no path is listed twice. Each path is a table (the name or one of the
/// output tables) and a field of the output schema.
#[verifier::external_body]
pub(crate) fn output_paths(name: &String, output: &String, output_tables: &Vec<String>) -> (r:
    Result<Vec<Path>, anyhow::Error>)
    ensures
        match r {
            Ok(paths) => {
                &&& derived_output_paths(name@, output@, views_of(output_tables@)) == Some(
                    path_views(paths@).to_set(),
                )
                &&& path_views(paths@).no_duplicates()
                &&& forall|i: int|
                    0 <= i < paths@.len() ==> is_output_path(
                        #[trigger] path_views(paths@)[i],
                        name@,
                        views_of(output_tables@),
                    )
            },
            Err(_) => derived_output_paths(name@, output@, views_of(output_tables@)) is None,
        },
{
    let output = Some(OutputType { output: output.clone() });
    let output_tables = output_tables.clone();
    let core = ItemCore { name: name.clone(), triggers: Vec::new(), output_tables, output };
    let derived = derive_for_individual_node(&Item { core: Some(core), item: None })?;
    Ok(derived.output_paths.into_iter().map(|address| Path { address }).collect())
}

/// The statement that selects the fields at `paths` from `namespace`.
pub open spec fn select_statement(namespace: Seq<char>, paths: Seq<Seq<Seq<char>>>) -> Seq<char> {
    "SELECT "@ + joined(Seq::new(paths.len(), |i: int| joined(paths[i], "."@)), ", "@) + " FROM "@
        + namespace
}

/// Calls `construct_query_from_output_type`, which never fails: it writes
/// `SELECT`, the paths with their segments joined by `.` and a comma and a
/// space between paths, `FROM`, and the namespace.
#[verifier::external_body]
pub(crate) fn select_query(namespace: &String, paths: &Vec<Path>) -> (r: Result<
    String,
    anyhow::Error,
>)
    ensures
        r is Ok,
        r matches Ok(q) ==> q@ == select_statement(namespace@, path_views(paths@)),
{
    let paths: Vec<Vec<String>> = paths.iter().map(|p| p.address.clone()).collect();
    construct_query_from_output_type(namespace, namespace, &paths)
}

} // verus!
