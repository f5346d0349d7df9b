use schema_rules::{Extensions, SchemaObject};
use serde_json::Value;

#[test]
fn new_map_has_no_entry() {
    let extensions = Extensions::new();
    assert_eq!(extensions.get("nullable"), None);
    assert_eq!(extensions.get(""), None);
    assert_eq!(extensions, Extensions::new());
}

#[test]
fn insert_of_a_new_key_returns_none() {
    let mut extensions = Extensions::new();
    assert_eq!(extensions.insert("nullable".to_owned(), Value::Bool(true)), None);
    assert_eq!(extensions.get("nullable"), Some(&Value::Bool(true)));
    assert_eq!(extensions.get("Nullable"), None);
    assert_eq!(extensions.get("nullabl"), None);
}

#[test]
fn insert_of_a_known_key_returns_the_earlier_value() {
    let mut extensions = Extensions::new();
    extensions.insert("nullable".to_owned(), Value::Bool(false));
    extensions.insert("format".to_owned(), Value::from("date"));
    let previous = extensions.insert("nullable".to_owned(), Value::Bool(true));
    assert_eq!(previous, Some(Value::Bool(false)));
    assert_eq!(extensions.get("nullable"), Some(&Value::Bool(true)));
    assert_eq!(extensions.get("format"), Some(&Value::from("date")));
}

#[test]
fn a_known_key_keeps_its_place_and_a_new_one_goes_last() {
    let mut extensions = Extensions::new();
    extensions.insert("a".to_owned(), Value::from(1));
    extensions.insert("b".to_owned(), Value::from(2));
    extensions.insert("a".to_owned(), Value::from(3));
    let mut same_order = Extensions::new();
    same_order.insert("a".to_owned(), Value::from(3));
    same_order.insert("b".to_owned(), Value::from(2));
    assert_eq!(extensions, same_order);
    let mut other_order = Extensions::new();
    other_order.insert("b".to_owned(), Value::from(2));
    other_order.insert("a".to_owned(), Value::from(3));
    assert_ne!(extensions, other_order);
}

#[test]
fn empty_key_is_a_key() {
    let mut extensions = Extensions::new();
    extensions.insert(String::new(), Value::Null);
    assert_eq!(extensions.get(""), Some(&Value::Null));
    assert_eq!(extensions.get(" "), None);
}

#[test]
fn default_object_has_no_keyword() {
    let object = SchemaObject::default();
    assert_eq!(object.instance_type, None);
    assert_eq!(object.any_of, None);
    assert_eq!(object.extensions, Extensions::new());
}

#[test]
fn entries_come_in_the_order_of_their_keys() {
    let mut extensions = Extensions::new();
    assert_eq!(extensions.len(), 0);
    assert_eq!(extensions.entry(0), None);
    extensions.insert("b".to_owned(), Value::from(2));
    extensions.insert("a".to_owned(), Value::from(1));
    extensions.insert("b".to_owned(), Value::from(3));
    assert_eq!(extensions.len(), 2);
    assert_eq!(extensions.entry(0), Some(("b", &Value::from(3))));
    assert_eq!(extensions.entry(1), Some(("a", &Value::from(1))));
    assert_eq!(extensions.entry(2), None);
    assert_eq!(extensions.entry(usize::MAX), None);
}
