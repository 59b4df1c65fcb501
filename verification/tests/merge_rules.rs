use serde_json::Value;
use winky::confmerge::{merge_values, ConfigDoc};

fn scalar(v: i64) -> ConfigDoc {
    ConfigDoc::Scalar(Value::from(v))
}

fn obj(pairs: Vec<(&str, ConfigDoc)>) -> ConfigDoc {
    ConfigDoc::Object(pairs.into_iter().map(|(k, v)| (k.to_string(), v)).collect())
}

fn as_pairs(d: &ConfigDoc) -> &Vec<(String, ConfigDoc)> {
    match d {
        ConfigDoc::Object(pairs) => pairs,
        ConfigDoc::Scalar(_) => panic!("expected an object"),
    }
}

fn as_scalar(d: &ConfigDoc) -> &Value {
    match d {
        ConfigDoc::Scalar(v) => v,
        ConfigDoc::Object(_) => panic!("expected a scalar"),
    }
}

#[test]
fn scalar_patch_replaces() {
    let target = obj(vec![("a", scalar(1))]);
    let merged = merge_values(target, scalar(9));
    assert_eq!(as_scalar(&merged), &Value::from(9));
}

#[test]
fn object_patch_updates_and_appends() {
    let target = obj(vec![("a", scalar(1)), ("b", scalar(2))]);
    let patch = obj(vec![("b", scalar(20)), ("c", scalar(30))]);
    let merged = merge_values(target, patch);
    let pairs = as_pairs(&merged);
    assert_eq!(pairs.len(), 3);
    assert_eq!(pairs[0].0, "a");
    assert_eq!(as_scalar(&pairs[0].1), &Value::from(1));
    assert_eq!(pairs[1].0, "b");
    assert_eq!(as_scalar(&pairs[1].1), &Value::from(20));
    assert_eq!(pairs[2].0, "c");
    assert_eq!(as_scalar(&pairs[2].1), &Value::from(30));
}

#[test]
fn nested_objects_merge_recursively() {
    let target = obj(vec![("outer", obj(vec![("x", scalar(1)), ("y", scalar(2))]))]);
    let patch = obj(vec![("outer", obj(vec![("y", scalar(20))]))]);
    let merged = merge_values(target, patch);
    let outer = as_pairs(&merged);
    assert_eq!(outer.len(), 1);
    let inner = as_pairs(&outer[0].1);
    assert_eq!(inner.len(), 2);
    assert_eq!(as_scalar(&inner[0].1), &Value::from(1));
    assert_eq!(as_scalar(&inner[1].1), &Value::from(20));
}

#[test]
fn object_patch_overwrites_scalar_target() {
    let merged = merge_values(scalar(7), obj(vec![("k", scalar(1))]));
    let pairs = as_pairs(&merged);
    assert_eq!(pairs.len(), 1);
    assert_eq!(pairs[0].0, "k");
}

#[test]
fn scalar_under_key_replaces_nested_object() {
    let target = obj(vec![("outer", obj(vec![("x", scalar(1))]))]);
    let patch = obj(vec![("outer", scalar(5))]);
    let merged = merge_values(target, patch);
    let pairs = as_pairs(&merged);
    assert_eq!(as_scalar(&pairs[0].1), &Value::from(5));
}
