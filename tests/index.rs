use timeline_index::index::{interpret_bulk_response, CachedEntry, DocumentCache, FlushOutcome};

#[test]
fn id_is_url_safe_base64_of_sha256() {
    let e = CachedEntry::from_content(Vec::new());
    assert_eq!(e.id, "47DEQpj8HBSa-_TImW-5JCeuQeRkm5NMpJWZG3hSuFU");
    assert!(e.content.is_empty());
}

#[test]
fn identical_content_gets_identical_id() {
    let a = CachedEntry::from_content(b"{\"a\":1}".to_vec());
    let b = CachedEntry::from_content(b"{\"a\":1}".to_vec());
    let c = CachedEntry::from_content(b"{\"a\":2}".to_vec());
    assert_eq!(a.id, b.id);
    assert_ne!(a.id, c.id);
    assert_eq!(a.id.len(), 43);
    assert!(a.id.chars().all(|c| c.is_ascii_alphanumeric() || c == '-' || c == '_'));
}

#[test]
fn default_capacity() {
    let c = DocumentCache::new();
    assert_eq!(c.cache_size(), 10000);
    assert_eq!(c.len(), 0);
}

#[test]
fn batch_flushes_when_full() {
    let mut c = DocumentCache::new();
    assert!(c.set_cache_size(3).is_none());
    assert!(c.add_bulk_document(b"1".to_vec()).is_none());
    assert!(c.add_bulk_document(b"2".to_vec()).is_none());
    assert_eq!(c.len(), 2);
    let out = c.add_bulk_document(b"3".to_vec()).unwrap();
    let contents: Vec<Vec<u8>> = out.iter().map(|e| e.content.clone()).collect();
    assert_eq!(contents, vec![b"1".to_vec(), b"2".to_vec(), b"3".to_vec()]);
    assert_eq!(c.len(), 0);
    assert!(c.take_batch().is_none());
}

#[test]
fn explicit_flush_takes_the_batch() {
    let mut c = DocumentCache::new();
    c.add_bulk_document(b"x".to_vec());
    let out = c.take_batch().unwrap();
    assert_eq!(out.len(), 1);
    assert_eq!(out[0].id, CachedEntry::from_content(b"x".to_vec()).id);
    assert_eq!(c.len(), 0);
    assert!(c.take_batch().is_none());
}

#[test]
fn shrinking_capacity_flushes_first() {
    let mut c = DocumentCache::new();
    c.add_bulk_document(b"a".to_vec());
    c.add_bulk_document(b"b".to_vec());
    let out = c.set_cache_size(1).unwrap();
    assert_eq!(out.len(), 2);
    assert_eq!(c.len(), 0);
    assert_eq!(c.cache_size(), 10000);
    c.finish_cache_size(1, None);
    assert_eq!(c.cache_size(), 1);
    assert_eq!(c.len(), 0);
}

#[test]
fn failed_shrink_keeps_capacity_and_entries() {
    let mut c = DocumentCache::new();
    c.add_bulk_document(b"a".to_vec());
    c.add_bulk_document(b"b".to_vec());
    let out = c.set_cache_size(1).unwrap();
    c.finish_cache_size(1, Some(out));
    assert_eq!(c.cache_size(), 10000);
    assert_eq!(c.len(), 2);
    assert_eq!(c.entries()[0].content, b"a".to_vec());
    assert_eq!(c.entries()[1].content, b"b".to_vec());
}

#[test]
fn failed_batch_is_restored_ahead_of_new_entries() {
    let mut c = DocumentCache::new();
    c.add_bulk_document(b"a".to_vec());
    let out = c.take_batch().unwrap();
    c.add_bulk_document(b"b".to_vec());
    c.restore_batch(out);
    let contents: Vec<Vec<u8>> = c.entries().iter().map(|e| e.content.clone()).collect();
    assert_eq!(contents, vec![b"a".to_vec(), b"b".to_vec()]);
    assert_eq!(c.cache_size(), 10000);
}

#[test]
fn growing_capacity_keeps_the_batch() {
    let mut c = DocumentCache::new();
    c.add_bulk_document(b"a".to_vec());
    assert!(c.set_cache_size(20000).is_none());
    assert_eq!(c.len(), 1);
    assert_eq!(c.cache_size(), 20000);
    assert_eq!(c.entries()[0].content, b"a".to_vec());
}

#[test]
fn capacity_zero_flushes_every_add() {
    let mut c = DocumentCache::new();
    c.set_cache_size(0);
    assert_eq!(c.add_bulk_document(b"a".to_vec()).unwrap().len(), 1);
    assert_eq!(c.len(), 0);
}

#[test]
fn bulk_responses() {
    assert_eq!(interpret_bulk_response(4, false, None), FlushOutcome::TransportFailure);
    assert_eq!(interpret_bulk_response(4, false, Some(false)), FlushOutcome::TransportFailure);
    assert_eq!(interpret_bulk_response(4, true, Some(false)), FlushOutcome::Written(4));
    assert_eq!(interpret_bulk_response(4, true, Some(true)), FlushOutcome::PartialFailure(4));
    assert_eq!(interpret_bulk_response(4, true, None), FlushOutcome::MalformedResponse);
}

#[test]
fn capacity_equal_to_batch_length_needs_no_flush() {
    let mut c = DocumentCache::new();
    assert!(c.set_cache_size(2).is_none());
    c.add_bulk_document(b"a".to_vec());
    let out = c.add_bulk_document(b"b".to_vec()).unwrap();
    c.restore_batch(out);
    assert_eq!(c.len(), 2);
    assert!(c.set_cache_size(2).is_none());
    assert_eq!(c.cache_size(), 2);
    assert_eq!(c.len(), 2);
    assert!(c.set_cache_size(3).is_none());
    assert_eq!(c.cache_size(), 3);
    assert_eq!(c.len(), 2);
    let out = c.set_cache_size(1).unwrap();
    assert_eq!(out.len(), 2);
    assert_eq!(c.cache_size(), 3);
}
