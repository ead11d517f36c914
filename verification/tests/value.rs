use chidori::create_change_value;
use chidori::value::{ChangeValue, DuplicateKey, KeyedValues, Path, SerializedValue, Val};

fn path(segments: &[&str]) -> Path {
    Path::new(segments.iter().map(|s| s.to_string()).collect())
}

fn change(segments: &[&str], number: i32) -> ChangeValue {
    create_change_value(
        segments.iter().map(|s| s.to_string()).collect(),
        Some(Val::Number(number)),
        0,
    )
}

#[test]
fn joined_key_of_two_segments() {
    assert_eq!(path(&["a", "b"]).joined_key(), "a:b");
}

#[test]
fn joined_key_edge_cases() {
    assert_eq!(path(&[]).joined_key(), "");
    assert_eq!(path(&["a"]).joined_key(), "a");
    assert_eq!(path(&["a", "b", "c"]).joined_key(), "a:b:c");
    assert_eq!(path(&["a", ""]).joined_key(), "a:");
}

#[test]
fn paths_are_equal_exactly_when_their_segments_are() {
    assert_eq!(path(&["a", "b"]), path(&["a", "b"]));
    assert_ne!(path(&["a", "b"]), path(&["b", "a"]));
    assert_ne!(path(&["a", "b"]), path(&["a"]));
    assert_ne!(path(&["a:b"]), path(&["a", "b"]));
    assert_eq!(path(&["a", "b"]).clone(), path(&["a", "b"]));
}

#[test]
fn change_value_holds_what_it_was_made_from() {
    let made = create_change_value(vec!["n".to_string(), "out".to_string()], Some(Val::Boolean(true)), 7);
    assert_eq!(made.path.address, vec!["n".to_string(), "out".to_string()]);
    assert_eq!(made.value, SerializedValue { val: Some(Val::Boolean(true)) });
    assert_eq!(made.branch, 7);
}

#[test]
fn change_value_without_a_value_is_null() {
    let made = create_change_value(vec![], None, 0);
    assert_eq!(made.value, SerializedValue { val: None });
    assert_eq!(made.path.address.len(), 0);
}

#[test]
fn change_value_carries_nested_values_untouched() {
    let inner = SerializedValue { val: Some(Val::String("x".to_string())) };
    let object = Val::Object(vec![("k".to_string(), SerializedValue { val: Some(Val::Array(vec![inner])) })]);
    let made = create_change_value(vec!["a".to_string()], Some(object), 3);
    let expected = Val::Object(vec![(
        "k".to_string(),
        SerializedValue {
            val: Some(Val::Array(vec![SerializedValue { val: Some(Val::String("x".to_string())) }])),
        },
    )]);
    assert_eq!(made.value.val, Some(expected));
    let float = create_change_value(vec![], Some(Val::Float { bits: 1.5f32.to_bits() }), 0);
    assert_eq!(float.value.val, Some(Val::Float { bits: 0x3fc0_0000 }));
}

#[test]
fn result_set_is_filed_under_joined_keys() {
    let keyed = KeyedValues::from_changes(vec![change(&["a", "b"], 1), change(&["a", "c"], 2)]).unwrap();
    assert_eq!(keyed.len(), 2);
    assert_eq!(keyed.get("a:b"), Some(&SerializedValue { val: Some(Val::Number(1)) }));
    assert_eq!(keyed.get("a:c"), Some(&SerializedValue { val: Some(Val::Number(2)) }));
    assert_eq!(keyed.get("a"), None);
    let (key, value) = keyed.entry(1).unwrap();
    assert_eq!(key, "a:c");
    assert_eq!(value, &SerializedValue { val: Some(Val::Number(2)) });
    assert_eq!(keyed.entry(2), None);
}

#[test]
fn empty_result_set_gives_an_empty_mapping() {
    let keyed = KeyedValues::from_changes(vec![]).unwrap();
    assert_eq!(keyed.len(), 0);
    assert_eq!(keyed.get(""), None);
}

#[test]
fn duplicate_joined_key_is_refused() {
    let refused = KeyedValues::from_changes(vec![change(&["a", "b"], 1), change(&["a", "b"], 2)]);
    assert_eq!(refused, Err(DuplicateKey { position: 1 }));
}

#[test]
fn different_paths_with_one_joined_key_are_refused() {
    let refused = KeyedValues::from_changes(vec![
        change(&["x"], 0),
        change(&["a", "b"], 1),
        change(&["y"], 2),
        change(&["a:b"], 3),
        change(&["x"], 4),
    ]);
    assert_eq!(refused, Err(DuplicateKey { position: 3 }));
}

#[test]
fn values_on_different_branches_still_share_a_key() {
    let first = create_change_value(vec!["a".to_string()], None, 0);
    let second = create_change_value(vec!["a".to_string()], None, 1);
    assert_eq!(KeyedValues::from_changes(vec![first, second]), Err(DuplicateKey { position: 1 }));
}

#[test]
fn copies_of_values_are_equal_to_them() {
    let nested = Val::Object(vec![
        ("list".to_string(), SerializedValue { val: Some(Val::Array(vec![
            SerializedValue { val: Some(Val::Number(-3)) },
            SerializedValue { val: None },
            SerializedValue { val: Some(Val::Float { bits: 7 }) },
            SerializedValue { val: Some(Val::Array(vec![])) },
        ])) }),
        ("flag".to_string(), SerializedValue { val: Some(Val::Boolean(false)) }),
        ("text".to_string(), SerializedValue { val: Some(Val::String("t".to_string())) }),
        ("empty".to_string(), SerializedValue { val: Some(Val::Object(vec![])) }),
    ]);
    assert_eq!(nested.clone(), nested);
    let change = create_change_value(vec!["a".to_string(), "b".to_string()], Some(nested), 4);
    let copy = change.clone();
    assert_eq!(copy, change);
    assert_eq!(copy.value.clone(), change.value);
    let null = SerializedValue { val: None };
    assert_eq!(null.clone(), null);
}
