use coupon_api::authentication::store::{Attempt, SessionStore, StoreError, STORE_TIMEOUT_SECONDS};
use coupon_api::authentication::text::same_text;

#[test]
fn new_store_is_empty() {
    let store = SessionStore::new();
    assert_eq!(store.get("anything", 0), Ok(None));
}

#[test]
fn get_returns_what_put_stored_until_it_expires() {
    let mut store = SessionStore::new();
    assert_eq!(store.put("key", "value", 10, 100), Ok(()));

    assert_eq!(store.get("key", 100), Ok(Some("value".to_string())));
    assert_eq!(store.get("key", 109), Ok(Some("value".to_string())));
    assert_eq!(store.get("key", 110), Ok(None));
    assert_eq!(store.get("key", 111), Ok(None));
    assert_eq!(store.get("other", 100), Ok(None));
}

#[test]
fn put_overwrites_silently() {
    let mut store = SessionStore::new();
    store.put("key", "first", 10, 0).unwrap();
    store.put("other", "kept", 10, 0).unwrap();
    store.put("key", "second", 5, 20).unwrap();

    assert_eq!(store.get("key", 21), Ok(Some("second".to_string())));
    assert_eq!(store.get("key", 25), Ok(None));
    assert_eq!(store.get("other", 9), Ok(Some("kept".to_string())));
}

#[test]
fn zero_time_to_live_is_never_found() {
    let mut store = SessionStore::new();
    store.put("key", "value", 0, 50).unwrap();
    assert_eq!(store.get("key", 50), Ok(None));
}

#[test]
fn long_time_to_live_does_not_wrap() {
    let mut store = SessionStore::new();
    store.put("key", "value", u64::MAX, u64::MAX - 1).unwrap();
    assert_eq!(store.get("key", u64::MAX), Ok(Some("value".to_string())));
}

#[test]
fn unreachable_store_fails_and_keeps_its_entries() {
    let mut store = SessionStore::new();
    store.put("key", "value", 10, 0).unwrap();
    store.set_reachable(false);

    assert_eq!(store.get("key", 1), Err(StoreError::Unavailable));
    assert_eq!(store.put("key", "changed", 10, 1), Err(StoreError::Unavailable));
    assert_eq!(store.put("new", "value", 10, 1), Err(StoreError::Unavailable));

    store.set_reachable(true);
    assert_eq!(store.get("key", 1), Ok(Some("value".to_string())));
    assert_eq!(store.get("new", 1), Ok(None));
}

#[test]
fn timeout_counts_as_unavailable() {
    assert_eq!(Attempt::Answered(7).outcome(), Ok(7));
    assert_eq!(Attempt::<i32>::Failed.outcome(), Err(StoreError::Unavailable));
    assert_eq!(Attempt::<i32>::TimedOut.outcome(), Err(StoreError::Unavailable));
    assert!((1..10).contains(&STORE_TIMEOUT_SECONDS));
}

#[test]
fn same_text_needs_an_exact_match() {
    assert!(same_text("secret", "secret"));
    assert!(same_text("", ""));
    assert!(same_text("chave-é", "chave-é"));
    assert!(!same_text("secret", "secre"));
    assert!(!same_text("secre", "secret"));
    assert!(!same_text("secret", "secreT"));
    assert!(!same_text("secret", "Secret"));
    assert!(!same_text("", "secret"));
}
