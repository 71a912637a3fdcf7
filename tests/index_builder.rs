use timeline_index::index_builder::{has_index, IndexBuilder, WithHost};

#[test]
fn defaults() {
    let b: IndexBuilder<()> = IndexBuilder::with_name("timeline".to_string());
    assert_eq!(b.host(), "localhost");
    assert_eq!(b.port(), 9200);
    assert_eq!(b.index_name(), "timeline");
    assert!(b.certificate_validation());
    assert!(b.credentials().is_none());
}

#[test]
fn settings_are_kept() {
    let b: IndexBuilder<u32> = IndexBuilder::with_name("t".to_string())
        .with_host("example.org")
        .with_port(9300)
        .without_certificate_validation()
        .with_credentials(7);
    assert_eq!(b.host(), "example.org");
    assert_eq!(b.port(), 9300);
    assert!(!b.certificate_validation());
    assert_eq!(*b.credentials(), Some(7));
    let b = b.with_host("other".to_string());
    assert_eq!(b.host(), "other");
    assert_eq!(b.index_name(), "t");
}

#[test]
fn index_listing_lookup() {
    let names = vec!["logs".to_string(), "timeline".to_string()];
    assert!(has_index(&names, "timeline"));
    assert!(!has_index(&names, "time"));
    assert!(!has_index(&Vec::new(), "timeline"));
}
