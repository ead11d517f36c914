use chidori::graph::GraphBuilder;
use chidori::handle::NodeHandle;
use chidori::node::{Node, NodeCore, NodeError, NodeKind};
use chidori::value::Path;
use prompt_graph_core::build_runtime_graph::graph_parse::{
    construct_query_from_output_type, derive_for_individual_node,
};
use prompt_graph_core::proto::{Item, ItemCore, OutputType};

fn strings(parts: &[&str]) -> Vec<String> {
    parts.iter().map(|p| p.to_string()).collect()
}

fn node(name: &str, queries: Vec<Option<String>>, output: &str, tables: &[&str]) -> Node {
    Node {
        core: NodeCore {
            name: name.to_string(),
            queries,
            output: output.to_string(),
            output_tables: strings(tables),
        },
        kind: NodeKind::Custom { node_type_name: "W".to_string() },
    }
}

fn item(node: &Node) -> Item {
    Item {
        core: Some(ItemCore {
            name: node.core.name.clone(),
            triggers: vec![],
            output_tables: node.core.output_tables.clone(),
            output: Some(OutputType { output: node.core.output.clone() }),
        }),
        item: None,
    }
}

fn sorted(mut paths: Vec<Vec<String>>) -> Vec<Vec<String>> {
    paths.sort();
    paths
}

#[test]
fn handle_holds_the_node_and_the_paths_it_was_given() {
    let n = node("N", vec![None], "{}", &["T"]);
    let paths = vec![Path::new(strings(&["N", "b"])), Path::new(strings(&["N", "a"]))];
    let handle = NodeHandle::new(n.clone(), paths.clone());
    assert_eq!(handle.node(), &n);
    assert_eq!(handle.output_paths(), &paths);
    assert_eq!(handle.get_name(), "N");
}

#[test]
fn query_selects_the_paths_in_their_order() {
    let n = node("N", vec![], "{}", &[]);
    let paths = vec![Path::new(strings(&["N", "b"])), Path::new(strings(&["T", "a"]))];
    let handle = NodeHandle::new(n, paths);
    assert_eq!(handle.query("f".to_string(), 1, 2).query, "SELECT N.b, T.a FROM N");
}

#[test]
fn query_of_unusual_paths() {
    let cases: Vec<(Vec<Vec<&str>>, &str)> = vec![
        (vec![], "SELECT  FROM N"),
        (vec![vec![]], "SELECT  FROM N"),
        (vec![vec![], vec![]], "SELECT ,  FROM N"),
        (vec![vec!["a"]], "SELECT a FROM N"),
        (vec![vec!["a", "b", "c"]], "SELECT a.b.c FROM N"),
        (vec![vec!["", ""], vec!["x"]], "SELECT ., x FROM N"),
    ];
    for (paths, expected) in cases {
        let paths: Vec<Path> = paths.iter().map(|p| Path::new(strings(p))).collect();
        let handle = NodeHandle::new(node("N", vec![], "{}", &[]), paths);
        assert_eq!(handle.query("f".to_string(), 0, 0).query, expected);
    }
}

#[test]
fn query_is_the_one_that_the_runtime_crate_writes() {
    let addresses = vec![strings(&["N", "total"]), strings(&["T", "label"]), strings(&["N", "x y"])];
    for name in ["N", "", "a name", "select"] {
        let paths: Vec<Path> = addresses.iter().map(|a| Path::new(a.clone())).collect();
        let handle = NodeHandle::new(node(name, vec![], "{}", &[]), paths);
        let expected =
            construct_query_from_output_type(&name.to_string(), &name.to_string(), &addresses).unwrap();
        assert_eq!(handle.query("f".to_string(), 0, 0).query, expected);
    }
}

#[test]
fn wiring_uses_the_paths_of_the_other_handle() {
    let dependency = NodeHandle::new(
        node("A", vec![], "{}", &[]),
        vec![Path::new(strings(&["A", "x"])), Path::new(strings(&["A", "y"]))],
    );
    let mut dependent = NodeHandle::new(
        node("B", vec![None], "{}", &[]),
        vec![Path::new(strings(&["B", "z"]))],
    );
    let mut graph = GraphBuilder::new();
    assert_eq!(dependent.run_when(&dependency, &mut graph), Ok(true));
    assert_eq!(graph.len(), 1);
    assert_eq!(graph.get("B"), Some(dependent.node()));
    assert_eq!(dependent.node().core.queries, vec![None, Some("SELECT A.x, A.y FROM A".to_string())]);
    assert_eq!(dependent.output_paths(), &vec![Path::new(strings(&["B", "z"]))]);
    assert_eq!(dependent.get_name(), "B");
    assert_eq!(dependency.node().core.queries.len(), 0);
}

#[test]
fn derived_paths_are_those_of_the_runtime_crate() {
    let nodes = vec![
        node("N", vec![], "{ a: String }", &[]),
        node("N", vec![None, Some("SELECT x FROM y".to_string())], "{ a: String, b: Integer }", &["T", "U"]),
        node("N", vec![], "a: Boolean\nb: Timestamp\nc: 'Null'", &["N"]),
        node("", vec![], "{ a: Text }", &[""]),
        node("N", vec![], "{}", &["T"]),
    ];
    for n in nodes {
        let direct = derive_for_individual_node(&item(&n)).unwrap();
        let handle = NodeHandle::from(n.clone()).unwrap();
        assert_eq!(handle.node(), &n);
        let listed: Vec<Vec<String>> = handle.output_paths().iter().map(|p| p.address.clone()).collect();
        assert_eq!(listed.len(), direct.output_paths.len());
        assert_eq!(sorted(listed.clone()), sorted(direct.output_paths));
        let mut once = sorted(listed.clone());
        once.dedup();
        assert_eq!(once.len(), listed.len());
        for address in listed {
            assert_eq!(address.len(), 2);
            assert!(address[0] == n.core.name || n.core.output_tables.contains(&address[0]));
        }
    }
}

#[test]
fn derivation_fails_where_that_of_the_runtime_crate_fails() {
    let nodes = vec![
        node("N", vec![], "type O {}", &[]),
        node("N", vec![], "{ a: Unknown }", &[]),
        node("N", vec![], "- a\n- b", &["T"]),
        node("N", vec![], "{ a: String }", &[]),
        node("N", vec![], "{ a: { b: String } }", &[]),
        node("N", vec![], "a: STRING\nb: bool", &[]),
    ];
    for n in nodes {
        let direct = derive_for_individual_node(&item(&n));
        assert_eq!(NodeHandle::from(n.clone()).is_ok(), direct.is_ok(), "node {:?}", n);
    }
    assert_eq!(
        NodeHandle::from(node("N", vec![], "type O {}", &[])),
        Err(NodeError::SchemaDerivation)
    );
}

#[test]
fn queries_have_no_part_in_the_derivation() {
    let plain = NodeHandle::from(node("N", vec![], "{ a: String }", &[])).unwrap();
    let queries = vec![
        None,
        Some("SELECT x FROM y".to_string()),
        Some("not a statement".to_string()),
        Some("GRANT SELECT ON a TO b GRANTED BY 1".to_string()),
    ];
    let with_queries = NodeHandle::from(node("N", queries.clone(), "{ a: String }", &[])).unwrap();
    assert_eq!(with_queries.output_paths(), plain.output_paths());
    assert_eq!(with_queries.node().core.queries, queries);
    assert_eq!(
        NodeHandle::from(node("N", queries, "[]", &[])),
        Err(NodeError::SchemaDerivation)
    );
}
