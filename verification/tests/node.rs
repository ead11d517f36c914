use chidori::node::{
    copy_queries, remap_queries, string_or, strings_or_empty, MemoryAction,
};

fn strings(parts: &[&str]) -> Vec<String> {
    parts.iter().map(|p| p.to_string()).collect()
}

#[test]
fn absent_marker_becomes_no_query() {
    assert_eq!(remap_queries(Some(strings(&["None"]))), vec![None]);
    assert_eq!(
        remap_queries(Some(strings(&["SELECT a FROM b", "None", "SELECT c FROM d"]))),
        vec![Some("SELECT a FROM b".to_string()), None, Some("SELECT c FROM d".to_string())]
    );
}

#[test]
fn only_the_exact_marker_is_absent() {
    assert_eq!(
        remap_queries(Some(strings(&["none", "None ", "NONE", "", "Nonex"]))),
        vec![
            Some("none".to_string()),
            Some("None ".to_string()),
            Some("NONE".to_string()),
            Some("".to_string()),
            Some("Nonex".to_string()),
        ]
    );
}

#[test]
fn no_list_and_an_empty_list_give_no_queries() {
    assert_eq!(remap_queries(None), Vec::<Option<String>>::new());
    assert_eq!(remap_queries(Some(vec![])), Vec::<Option<String>>::new());
}

#[test]
fn defaults_stand_in_for_what_is_missing() {
    assert_eq!(string_or(None, "QDRANT"), "QDRANT");
    assert_eq!(string_or(Some("CHROMA".to_string()), "QDRANT"), "CHROMA");
    assert_eq!(string_or(Some("".to_string()), "QDRANT"), "");
    assert_eq!(strings_or_empty(None), Vec::<String>::new());
    assert_eq!(strings_or_empty(Some(strings(&["T"]))), strings(&["T"]));
}

#[test]
fn actions_and_their_names() {
    assert_eq!(MemoryAction::parse(&None), Some(MemoryAction::Read));
    assert_eq!(MemoryAction::parse(&Some("READ".to_string())), Some(MemoryAction::Read));
    assert_eq!(MemoryAction::parse(&Some("WRITE".to_string())), Some(MemoryAction::Write));
    assert_eq!(MemoryAction::parse(&Some("DELETE".to_string())), None);
    assert_eq!(MemoryAction::parse(&Some("write".to_string())), None);
    assert_eq!(MemoryAction::Read.name(), "READ");
    assert_eq!(MemoryAction::Write.name(), "WRITE");
}

#[test]
fn queries_are_copied_as_they_are() {
    let queries = vec![None, Some("SELECT a FROM b".to_string()), Some("".to_string())];
    assert_eq!(copy_queries(&queries), queries);
}
