use quota_segment::metadata::Metadata;

#[test]
fn new_metadata_is_empty() {
    let metadata = Metadata::new();
    assert_eq!(metadata.len(), 0);
    assert_eq!(metadata.get("status"), None);
    assert!(!metadata.contains_key("status"));
    assert!(metadata.entries().is_empty());
}

#[test]
fn insert_then_get() {
    let mut metadata = Metadata::new();
    metadata.insert("status".to_string(), "offline".to_string());
    metadata.insert("raw_spent".to_string(), "1.5".to_string());
    assert_eq!(metadata.len(), 2);
    assert_eq!(metadata.get("status"), Some("offline"));
    assert_eq!(metadata.get("raw_spent"), Some("1.5"));
    assert_eq!(metadata.get("raw_balance"), None);
    assert!(metadata.contains_key("raw_spent"));
}

#[test]
fn insert_replaces_the_value_of_a_known_key() {
    let mut metadata = Metadata::new();
    metadata.insert("a".to_string(), "1".to_string());
    metadata.insert("b".to_string(), "2".to_string());
    metadata.insert("a".to_string(), "3".to_string());
    assert_eq!(metadata.len(), 2);
    assert_eq!(metadata.get("a"), Some("3"));
    assert_eq!(metadata.get("b"), Some("2"));
}

#[test]
fn entries_hold_each_key_once() {
    let mut metadata = Metadata::new();
    metadata.insert("x".to_string(), "1".to_string());
    metadata.insert("y".to_string(), "2".to_string());
    metadata.insert("x".to_string(), "3".to_string());
    let mut pairs: Vec<(String, String)> = metadata
        .entries()
        .iter()
        .map(|entry| (entry.key.clone(), entry.value.clone()))
        .collect();
    pairs.sort();
    assert_eq!(
        pairs,
        vec![("x".to_string(), "3".to_string()), ("y".to_string(), "2".to_string())]
    );
}

#[test]
fn keys_are_told_apart_exactly() {
    let mut metadata = Metadata::new();
    metadata.insert("key".to_string(), "lower".to_string());
    metadata.insert("Key".to_string(), "upper".to_string());
    metadata.insert("".to_string(), "empty".to_string());
    assert_eq!(metadata.len(), 3);
    assert_eq!(metadata.get("key"), Some("lower"));
    assert_eq!(metadata.get("Key"), Some("upper"));
    assert_eq!(metadata.get(""), Some("empty"));
    assert_eq!(metadata.get("ke"), None);
}
