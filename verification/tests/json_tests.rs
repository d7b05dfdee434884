use k8s_deep_merge::deep_merge::DeepMerge;
use k8s_deep_merge::json::Value;

fn obj(entries: Vec<(&str, Value)>) -> Value {
    let mut v: Vec<(String, Value)> = Vec::new();
    for (k, val) in entries {
        v.push((k.to_string(), val));
    }
    Value::Object(v)
}

fn text(s: &str) -> Value {
    Value::Text(s.to_string())
}

fn clone_value(v: &Value) -> Value {
    match v {
        Value::Null => Value::Null,
        Value::Bool(b) => Value::Bool(*b),
        Value::Number(n) => Value::Number(*n),
        Value::Text(s) => Value::Text(s.clone()),
        Value::Array(items) => Value::Array(items.iter().map(clone_value).collect()),
        Value::Object(entries) => Value::Object(
            entries.iter().map(|(k, val)| (k.clone(), clone_value(val))).collect(),
        ),
    }
}

#[test]
fn null_delete_removes_key() {
    let mut target = obj(vec![("a", Value::Number(1)), ("b", Value::Number(2))]);
    let source = obj(vec![("a", Value::Null)]);
    target.merge_from(source);
    assert_eq!(target, obj(vec![("b", Value::Number(2))]));
}

#[test]
fn top_level_null_replaces_object() {
    let mut target = obj(vec![("a", Value::Number(1))]);
    target.merge_from(Value::Null);
    assert_eq!(target, Value::Null);
}

#[test]
fn top_level_null_replaces_scalar() {
    let mut target = Value::Number(7);
    target.merge_from(Value::Null);
    assert_eq!(target, Value::Null);
}

#[test]
fn objects_merge_recursively() {
    let mut target = obj(vec![
        ("a", Value::Number(1)),
        ("b", obj(vec![("x", Value::Number(1))])),
    ]);
    let source = obj(vec![
        ("b", obj(vec![("y", Value::Number(2))])),
        ("c", Value::Number(3)),
    ]);
    target.merge_from(source);
    assert_eq!(
        target,
        obj(vec![
            ("a", Value::Number(1)),
            ("b", obj(vec![("x", Value::Number(1)), ("y", Value::Number(2))])),
            ("c", Value::Number(3)),
        ])
    );
}

#[test]
fn new_keys_are_appended_verbatim() {
    let mut target = obj(vec![]);
    let source = obj(vec![("a", obj(vec![("inner", Value::Null)]))]);
    target.merge_from(clone_value(&source));
    // A subtree inserted under a fresh key keeps its nulls: the null
    // placeholder is replaced wholesale by the source value.
    assert_eq!(target, obj(vec![("a", obj(vec![("inner", Value::Null)]))]));
}

#[test]
fn arrays_are_atomic() {
    let mut target = Value::Array(vec![Value::Number(1), Value::Number(2)]);
    let source = Value::Array(vec![Value::Number(3)]);
    target.merge_from(source);
    assert_eq!(target, Value::Array(vec![Value::Number(3)]));
}

#[test]
fn array_inside_object_is_atomic() {
    let mut target = obj(vec![(
        "xs",
        Value::Array(vec![Value::Number(1), Value::Number(2)]),
    )]);
    let source = obj(vec![("xs", Value::Array(vec![Value::Number(9)]))]);
    target.merge_from(source);
    assert_eq!(target, obj(vec![("xs", Value::Array(vec![Value::Number(9)]))]));
}

#[test]
fn scalar_replaces_object_member() {
    let mut target = obj(vec![("a", obj(vec![("x", Value::Number(1))]))]);
    let source = obj(vec![("a", text("flat"))]);
    target.merge_from(source);
    assert_eq!(target, obj(vec![("a", text("flat"))]));
}

#[test]
fn self_merge_returns_same_tree() {
    let make = || {
        obj(vec![
            ("a", Value::Number(1)),
            ("b", obj(vec![("x", text("v")), ("y", Value::Bool(true))])),
            ("c", Value::Array(vec![Value::Number(2)])),
        ])
    };
    let mut target = make();
    target.merge_from(make());
    assert_eq!(target, make());
}

#[test]
fn self_merge_of_tree_with_null_member_deletes_it() {
    // A null member value is a deletion marker, so a tree holding one is
    // not a fixed point of self-merge.
    let make = || obj(vec![("a", Value::Null), ("b", Value::Number(1))]);
    let mut target = make();
    target.merge_from(make());
    assert_eq!(target, obj(vec![("b", Value::Number(1))]));
}

#[test]
fn deleting_a_missing_key_changes_nothing() {
    let mut target = obj(vec![("a", Value::Number(1))]);
    let source = obj(vec![("b", Value::Null)]);
    target.merge_from(source);
    assert_eq!(target, obj(vec![("a", Value::Number(1))]));
}

#[test]
fn three_levels_of_objects_merge_recursively() {
    let mut target = obj(vec![(
        "spec",
        obj(vec![("template", obj(vec![("replicas", Value::Number(1))]))]),
    )]);
    let source = obj(vec![(
        "spec",
        obj(vec![("template", obj(vec![("image", text("v2"))]))]),
    )]);
    target.merge_from(source);
    assert_eq!(
        target,
        obj(vec![(
            "spec",
            obj(vec![(
                "template",
                obj(vec![("replicas", Value::Number(1)), ("image", text("v2"))]),
            )]),
        )])
    );
}

#[test]
fn empty_source_object_changes_nothing() {
    let mut target = obj(vec![("a", Value::Number(1))]);
    target.merge_from(obj(vec![]));
    assert_eq!(target, obj(vec![("a", Value::Number(1))]));
}
