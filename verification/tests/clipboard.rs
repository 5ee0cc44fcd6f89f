use webclip::document::{DocumentStore, SizeExceeded};
use webclip::handlers::{handle_read, handle_write};
use webclip::registry::Registry;
use webclip::DEFAULT_MAX_SIZE;

#[test]
fn fresh_read_is_empty() {
    let store = DocumentStore::new(DEFAULT_MAX_SIZE);
    assert_eq!(handle_read(&store), Vec::<u8>::new());
}

#[test]
fn write_then_read_returns_content() {
    let mut store = DocumentStore::new(DEFAULT_MAX_SIZE);
    let registry = Registry::new();
    let r = handle_write(&mut store, &registry, b"hello".to_vec());
    assert!(r.is_ok());
    assert_eq!(handle_read(&store), b"hello".to_vec());
}

#[test]
fn oversized_write_rejected_and_document_unchanged() {
    let mut store = DocumentStore::new(DEFAULT_MAX_SIZE);
    let registry = Registry::new();
    assert!(handle_write(&mut store, &registry, b"hello".to_vec()).is_ok());
    let oversized = vec![b'a'; DEFAULT_MAX_SIZE + 1];
    let r = handle_write(&mut store, &registry, oversized);
    assert_eq!(r.err(), Some(SizeExceeded));
    assert_eq!(handle_read(&store), b"hello".to_vec());
}

#[test]
fn write_at_exact_bound_accepted() {
    let mut store = DocumentStore::new(8);
    let registry = Registry::new();
    let body = vec![b'x'; 8];
    assert!(handle_write(&mut store, &registry, body.clone()).is_ok());
    assert_eq!(handle_read(&store), body);
}

#[test]
fn empty_write_accepted() {
    let mut store = DocumentStore::new(DEFAULT_MAX_SIZE);
    let registry = Registry::new();
    assert!(handle_write(&mut store, &registry, b"hello".to_vec()).is_ok());
    assert!(handle_write(&mut store, &registry, Vec::new()).is_ok());
    assert_eq!(handle_read(&store), Vec::<u8>::new());
}

#[test]
fn direct_set_reports_size_exceeded() {
    let mut store = DocumentStore::new(4);
    assert_eq!(store.set(b"12345".to_vec()), Err(SizeExceeded));
    assert_eq!(store.set(b"1234".to_vec()), Ok(()));
    assert_eq!(store.get(), b"1234".to_vec());
}

#[test]
fn broadcast_reaches_every_subscriber() {
    let mut store = DocumentStore::new(DEFAULT_MAX_SIZE);
    let mut registry = Registry::new();
    registry.register(1);
    registry.register(2);
    registry.register(3);
    let ds = handle_write(&mut store, &registry, b"world".to_vec()).unwrap();
    assert_eq!(ds.len(), 3);
    let mut targets: Vec<u64> = ds.iter().map(|d| d.target).collect();
    targets.sort();
    assert_eq!(targets, vec![1, 2, 3]);
    for d in &ds {
        assert_eq!(d.content, b"world".to_vec());
    }
}

#[test]
fn broadcast_includes_the_originating_subscriber() {
    let mut store = DocumentStore::new(DEFAULT_MAX_SIZE);
    let mut registry = Registry::new();
    let originator: u64 = 42;
    registry.register(originator);
    registry.register(7);
    let ds = handle_write(&mut store, &registry, b"update".to_vec()).unwrap();
    assert!(ds.iter().any(|d| d.target == originator && d.content == b"update".to_vec()));
}

#[test]
fn rejected_write_produces_no_deliveries() {
    let mut store = DocumentStore::new(4);
    let mut registry = Registry::new();
    registry.register(1);
    let r = handle_write(&mut store, &registry, b"too long".to_vec());
    assert!(r.is_err());
    assert_eq!(handle_read(&store), Vec::<u8>::new());
}

#[test]
fn register_is_idempotent() {
    let mut registry = Registry::new();
    registry.register(7);
    registry.register(7);
    assert_eq!(registry.len(), 1);
    assert!(registry.contains(7));
}

#[test]
fn unregister_absent_is_noop() {
    let mut registry = Registry::new();
    registry.register(1);
    registry.unregister(9);
    assert_eq!(registry.len(), 1);
    assert!(registry.contains(1));
}

#[test]
fn unregister_twice_is_safe() {
    let mut registry = Registry::new();
    registry.register(1);
    registry.register(2);
    registry.unregister(1);
    registry.unregister(1);
    assert_eq!(registry.len(), 1);
    assert!(!registry.contains(1));
    assert!(registry.contains(2));
}
