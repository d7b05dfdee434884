use k8s_deep_merge::deep_merge::DeepMerge;
use k8s_deep_merge::json::Value;
use k8s_deep_merge::resources::node_status::{NodeAddress, NodeAddressTypeKey};
use k8s_deep_merge::strategies;
use k8s_deep_merge::string_map::StringMap;

fn addr(type_: &str, address: &str) -> NodeAddress {
    NodeAddress { address: address.to_string(), type_: type_.to_string() }
}

#[test]
fn list_map_matches_keys_and_appends() {
    // Items with the same identity key are merged; new keys are appended.
    let mut target = vec![addr("1", "a"), addr("2", "b")];
    let source = vec![addr("2", "c"), addr("3", "d")];
    let keys = vec![NodeAddressTypeKey];
    strategies::list::map(&mut target, source, keys.as_slice());
    assert_eq!(target, vec![addr("1", "a"), addr("2", "c"), addr("3", "d")]);
}

#[test]
fn list_map_on_absent_target_assigns() {
    let mut target: Option<Vec<NodeAddress>> = None;
    let source = Some(vec![addr("1", "a")]);
    let keys = vec![NodeAddressTypeKey];
    strategies::list::map(&mut target, source, keys.as_slice());
    assert_eq!(target, Some(vec![addr("1", "a")]));
}

#[test]
fn list_map_absent_source_changes_nothing() {
    let mut target = Some(vec![addr("1", "a")]);
    let keys = vec![NodeAddressTypeKey];
    strategies::list::map(&mut target, None, keys.as_slice());
    assert_eq!(target, Some(vec![addr("1", "a")]));
}

#[test]
fn list_map_ambiguous_match_merges_into_first() {
    // Two target items share the key: the first silently receives the merge.
    let mut target = vec![addr("1", "a"), addr("1", "b")];
    let source = vec![addr("1", "c")];
    let keys = vec![NodeAddressTypeKey];
    strategies::list::map(&mut target, source, keys.as_slice());
    assert_eq!(target, vec![addr("1", "c"), addr("1", "b")]);
}

#[test]
fn list_map_self_merge_is_identity() {
    let mut target = vec![addr("1", "a"), addr("2", "b")];
    let source = vec![addr("1", "a"), addr("2", "b")];
    let keys = vec![NodeAddressTypeKey];
    strategies::list::map(&mut target, source, keys.as_slice());
    assert_eq!(target, vec![addr("1", "a"), addr("2", "b")]);
}

#[test]
fn list_map_present_empty_source_changes_nothing() {
    let mut target = vec![addr("1", "a")];
    let keys = vec![NodeAddressTypeKey];
    strategies::list::map(&mut target, Vec::new(), keys.as_slice());
    assert_eq!(target, vec![addr("1", "a")]);
}

#[test]
fn list_map_into_empty_target_appends_all() {
    let mut target: Vec<NodeAddress> = Vec::new();
    let keys = vec![NodeAddressTypeKey];
    strategies::list::map(&mut target, vec![addr("1", "a"), addr("2", "b")], keys.as_slice());
    assert_eq!(target, vec![addr("1", "a"), addr("2", "b")]);
}

#[test]
fn list_set_appends_only_new_items() {
    let mut target = vec![1i64, 2, 3];
    strategies::list::set(&mut target, vec![2i64, 4]);
    assert_eq!(target, vec![1i64, 2, 3, 4]);
}

#[test]
fn list_set_on_strings() {
    let mut target = vec!["a".to_string(), "b".to_string()];
    strategies::list::set(&mut target, vec!["b".to_string(), "c".to_string()]);
    assert_eq!(target, vec!["a".to_string(), "b".to_string(), "c".to_string()]);
}

#[test]
fn list_set_self_merge_is_identity() {
    let mut target = vec![1i64, 2, 3];
    strategies::list::set(&mut target, vec![1i64, 2, 3]);
    assert_eq!(target, vec![1i64, 2, 3]);
}

#[test]
fn list_set_on_absent_target_assigns() {
    let mut target: Option<Vec<i64>> = None;
    strategies::list::set(&mut target, Some(vec![5i64]));
    assert_eq!(target, Some(vec![5i64]));
}

#[test]
fn list_atomic_replaces_wholesale() {
    let mut target = vec![1i64, 2, 3];
    strategies::list::atomic(&mut target, vec![9i64]);
    assert_eq!(target, vec![9i64]);
}

#[test]
fn list_atomic_ignores_target_when_source_present() {
    let mut target = Some(vec![1i64, 2, 3]);
    strategies::list::atomic(&mut target, Some(vec![]));
    assert_eq!(target, Some(vec![]));
}

#[test]
fn list_atomic_absent_source_changes_nothing() {
    let mut target = Some(vec![1i64, 2]);
    strategies::list::atomic(&mut target, None);
    assert_eq!(target, Some(vec![1i64, 2]));
}

#[test]
fn map_granular_inserts_and_recurses() {
    // target = {"a":1, "b":{"x":1}}, source = {"b":{"y":2}, "c":3}
    let mut target: StringMap<Value> = StringMap::new();
    target.insert("a".to_string(), Value::Number(1));
    target.insert(
        "b".to_string(),
        Value::Object(vec![("x".to_string(), Value::Number(1))]),
    );
    let mut source: StringMap<Value> = StringMap::new();
    source.insert(
        "b".to_string(),
        Value::Object(vec![("y".to_string(), Value::Number(2))]),
    );
    source.insert("c".to_string(), Value::Number(3));

    strategies::map::granular(&mut target, source);

    let mut expected: StringMap<Value> = StringMap::new();
    expected.insert("a".to_string(), Value::Number(1));
    expected.insert(
        "b".to_string(),
        Value::Object(vec![
            ("x".to_string(), Value::Number(1)),
            ("y".to_string(), Value::Number(2)),
        ]),
    );
    expected.insert("c".to_string(), Value::Number(3));
    assert_eq!(target, expected);
}

#[test]
fn map_granular_on_absent_target_assigns() {
    let mut target: Option<StringMap<Value>> = None;
    let mut source: StringMap<Value> = StringMap::new();
    source.insert("k".to_string(), Value::Bool(true));
    strategies::map::granular(&mut target, Some(source));
    let got = target.expect("target should be present after assignment");
    assert_eq!(got.len(), 1);
    assert_eq!(got.get(&"k".to_string()), Some(&Value::Bool(true)));
}

#[test]
fn map_granular_self_merge_is_identity() {
    let mut target: StringMap<i64> = StringMap::new();
    target.insert("a".to_string(), 1);
    target.insert("b".to_string(), 2);
    let mut source: StringMap<i64> = StringMap::new();
    source.insert("a".to_string(), 1);
    source.insert("b".to_string(), 2);
    let mut expected: StringMap<i64> = StringMap::new();
    expected.insert("a".to_string(), 1);
    expected.insert("b".to_string(), 2);
    strategies::map::granular(&mut target, source);
    assert_eq!(target, expected);
}

#[test]
fn map_atomic_replaces_wholesale() {
    let mut target: StringMap<i64> = StringMap::new();
    target.insert("a".to_string(), 1);
    target.insert("b".to_string(), 2);
    let mut source: StringMap<i64> = StringMap::new();
    source.insert("z".to_string(), 9);
    strategies::map::atomic(&mut target, source);
    let mut expected: StringMap<i64> = StringMap::new();
    expected.insert("z".to_string(), 9);
    assert_eq!(target, expected);
}

#[test]
fn map_atomic_absent_source_changes_nothing() {
    let mut inner: StringMap<i64> = StringMap::new();
    inner.insert("a".to_string(), 1);
    let mut target = Some(inner);
    strategies::map::atomic(&mut target, None);
    let got = target.expect("target should stay present");
    assert_eq!(got.get(&"a".to_string()), Some(&1));
}

#[test]
fn string_map_insert_replaces_in_place() {
    let mut m: StringMap<i64> = StringMap::new();
    m.insert("a".to_string(), 1);
    m.insert("b".to_string(), 2);
    m.insert("a".to_string(), 7);
    assert_eq!(m.len(), 2);
    assert_eq!(m.get(&"a".to_string()), Some(&7));
    assert_eq!(m.get(&"b".to_string()), Some(&2));
    assert_eq!(m.get(&"c".to_string()), None);
}

#[test]
fn option_merge_absorption() {
    // None <- None stays None.
    let mut target: Option<i64> = None;
    target.merge_from(None);
    assert_eq!(target, None);
    // None <- Some assigns.
    let mut target: Option<i64> = None;
    target.merge_from(Some(5));
    assert_eq!(target, Some(5));
    // Some <- None keeps the target.
    let mut target: Option<i64> = Some(3);
    target.merge_from(None);
    assert_eq!(target, Some(3));
    // Some <- Some merges the contents: scalars are overwritten.
    let mut target: Option<i64> = Some(3);
    target.merge_from(Some(5));
    assert_eq!(target, Some(5));
}

#[test]
fn scalars_merge_by_overwrite() {
    let mut b = true;
    b.merge_from(false);
    assert!(!b);
    let mut n: i32 = 1;
    n.merge_from(2);
    assert_eq!(n, 2);
    let mut m: i64 = 10;
    m.merge_from(20);
    assert_eq!(m, 20);
    let mut s = "old".to_string();
    s.merge_from("new".to_string());
    assert_eq!(s, "new");
}

#[test]
fn boxed_values_merge_in_place() {
    let mut target: Box<i64> = Box::new(1);
    target.merge_from(Box::new(2));
    assert_eq!(*target, 2);
}
