use openapi_docs::cache::{DocumentCache, DocumentError};

#[test]
fn new_cache_serves_nothing() {
    let cache = DocumentCache::new();
    assert!(!cache.is_ready());
    assert_eq!(cache.serve_json(), None);
    assert_eq!(cache.serve_yaml(), None);
}

#[test]
fn publish_serves_the_given_texts() {
    let mut cache = DocumentCache::new();
    let r = cache.publish(Some("{\"a\":1}".to_string()), Some("a: 1\n".to_string()));
    assert_eq!(r, Ok(()));
    assert!(cache.is_ready());
    assert_eq!(cache.serve_json(), Some("{\"a\":1}"));
    assert_eq!(cache.serve_yaml(), Some("a: 1\n"));
}

#[test]
fn repeated_reads_are_identical() {
    let mut cache = DocumentCache::new();
    cache.publish(Some("{}".to_string()), Some("{}\n".to_string())).unwrap();
    let first = cache.serve_json();
    for _ in 0..100 {
        assert_eq!(cache.serve_json(), first);
        assert_eq!(cache.serve_yaml(), Some("{}\n"));
    }
}

#[test]
fn second_publish_is_refused_and_keeps_the_first() {
    let mut cache = DocumentCache::new();
    cache.publish(Some("one".to_string()), Some("one\n".to_string())).unwrap();
    let r = cache.publish(Some("two".to_string()), Some("two\n".to_string()));
    assert_eq!(r, Err(DocumentError::AlreadyStored));
    let r = cache.publish(None, None);
    assert_eq!(r, Err(DocumentError::AlreadyStored));
    assert_eq!(cache.serve_json(), Some("one"));
    assert_eq!(cache.serve_yaml(), Some("one\n"));
}

#[test]
fn failed_json_encoding_publishes_nothing() {
    let mut cache = DocumentCache::new();
    let r = cache.publish(None, Some("a: 1\n".to_string()));
    assert_eq!(r, Err(DocumentError::JsonEncoding));
    assert!(!cache.is_ready());
    assert_eq!(cache.serve_json(), None);
    assert_eq!(cache.serve_yaml(), None);
}

#[test]
fn failed_yaml_encoding_publishes_nothing() {
    let mut cache = DocumentCache::new();
    let r = cache.publish(Some("{}".to_string()), None);
    assert_eq!(r, Err(DocumentError::YamlEncoding));
    assert!(!cache.is_ready());
    assert_eq!(cache.serve_json(), None);
    assert_eq!(cache.serve_yaml(), None);
}

#[test]
fn publish_after_failure_succeeds() {
    let mut cache = DocumentCache::new();
    assert_eq!(cache.publish(None, None), Err(DocumentError::JsonEncoding));
    assert_eq!(cache.publish(Some("{}".to_string()), Some("{}\n".to_string())), Ok(()));
    assert_eq!(cache.serve_json(), Some("{}"));
}

#[test]
fn empty_texts_are_published() {
    let mut cache = DocumentCache::new();
    assert_eq!(cache.publish(Some(String::new()), Some(String::new())), Ok(()));
    assert!(cache.is_ready());
    assert_eq!(cache.serve_json(), Some(""));
    assert_eq!(cache.serve_yaml(), Some(""));
}
