use blog_store::counter::{create_counter, decrement_counter, get_count, increment_counter, Counter};
use blog_store::store::RecordStore;
use blog_store::store::StoreError;

#[test]
fn increment_then_decrement() {
    let mut c = Counter::new();
    assert_eq!(c.count(), 0);
    assert_eq!(c.increment(), Ok(()));
    assert_eq!(c.increment(), Ok(()));
    assert_eq!(c.count(), 2);
    assert_eq!(c.increment(), Ok(()));
    assert_eq!(c.decrement(), Ok(()));
    assert_eq!(c.count(), 2);
}

#[test]
fn decrement_at_zero_fails() {
    let mut c = Counter::new();
    assert_eq!(c.decrement(), Err(StoreError::ArithmeticOverflow));
    assert_eq!(c.count(), 0);
}

#[test]
fn increment_at_max_fails() {
    let mut c = Counter::new();
    for _ in 0..255 {
        assert_eq!(c.increment(), Ok(()));
    }
    assert_eq!(c.count(), 255);
    assert_eq!(c.increment(), Err(StoreError::ArithmeticOverflow));
    assert_eq!(c.count(), 255);
    assert_eq!(c.decrement(), Ok(()));
    assert_eq!(c.count(), 254);
}

#[test]
fn stored_counter_round_trip() {
    let mut store = RecordStore::new();
    assert_eq!(get_count(&store), Err(StoreError::NotFound));
    assert_eq!(increment_counter(&mut store), Err(StoreError::NotFound));
    assert_eq!(create_counter(&mut store), Ok(vec![4u8]));
    assert_eq!(create_counter(&mut store), Err(StoreError::AlreadyExists));
    assert_eq!(get_count(&store), Ok(0));
    assert_eq!(decrement_counter(&mut store), Err(StoreError::ArithmeticOverflow));
    assert_eq!(get_count(&store), Ok(0));
    assert_eq!(increment_counter(&mut store), Ok(()));
    assert_eq!(increment_counter(&mut store), Ok(()));
    assert_eq!(get_count(&store), Ok(2));
    assert_eq!(decrement_counter(&mut store), Ok(()));
    assert_eq!(get_count(&store), Ok(1));
    assert_eq!(store.len(), 1);
}

#[test]
fn stored_counter_at_max() {
    let mut store = RecordStore::new();
    assert!(create_counter(&mut store).is_ok());
    for _ in 0..255 {
        assert_eq!(increment_counter(&mut store), Ok(()));
    }
    assert_eq!(get_count(&store), Ok(255));
    assert_eq!(increment_counter(&mut store), Err(StoreError::ArithmeticOverflow));
    assert_eq!(get_count(&store), Ok(255));
}
