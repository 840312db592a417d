use primo_client::credential::{expiry_from, Credential, VALIDITY_WINDOW_MS};
use primo_client::models::SessionIdentity;
use primo_client::ops::{logout_with_store, session_identity};
use primo_client::store::MemStore;

fn cred(expires_at: i64) -> Credential {
    Credential {
        access_token: "AT".to_string(),
        refresh_token: "RT".to_string(),
        expires_at,
    }
}

#[test]
fn expired_credential_is_evicted_on_read() {
    let mut store = MemStore::new();
    store.set(cred(100)).unwrap();
    let got = store.get(200);
    assert!(got.is_none());
    assert!(!store.holds_entry());
}

#[test]
fn credential_expiring_exactly_now_is_evicted() {
    let mut store = MemStore::new();
    store.set(cred(200)).unwrap();
    assert!(store.get(200).is_none());
    assert!(!store.holds_entry());
}

#[test]
fn future_credential_is_returned_unchanged() {
    let mut store = MemStore::new();
    store.set(cred(1000)).unwrap();
    let got = store.get(999).expect("credential should be usable");
    assert_eq!(got, cred(1000));
    assert!(store.holds_entry());
    let again = store.get(999).expect("credential should still be there");
    assert_eq!(again, cred(1000));
}

#[test]
fn delete_on_empty_store_succeeds() {
    let mut store = MemStore::new();
    assert!(store.delete().is_ok());
    assert!(store.delete().is_ok());
}

#[test]
fn delete_removes_stored_credential() {
    let mut store = MemStore::new();
    store.set(cred(1000)).unwrap();
    assert!(store.delete().is_ok());
    assert!(!store.holds_entry());
}

#[test]
fn logout_is_idempotent() {
    let mut store = MemStore::new();
    store.set(cred(1000)).unwrap();
    assert!(logout_with_store(&mut store).is_ok());
    assert!(logout_with_store(&mut store).is_ok());
    assert!(!store.holds_entry());
}

#[test]
fn identity_requires_a_usable_credential() {
    let mut store = MemStore::new();
    assert_eq!(session_identity(&mut store, 500), SessionIdentity::NotAuthenticated);
    store.set(cred(1_000)).unwrap();
    assert_eq!(session_identity(&mut store, 500), SessionIdentity::AuthenticatedUnknown);
    assert!(store.holds_entry());
}

#[test]
fn identity_treats_an_expired_credential_as_absent() {
    let mut store = MemStore::new();
    store.set(cred(100)).unwrap();
    assert_eq!(session_identity(&mut store, 500), SessionIdentity::NotAuthenticated);
    assert!(!store.holds_entry());
}

#[test]
fn expiry_window_is_exactly_24_hours() {
    assert_eq!(VALIDITY_WINDOW_MS, 24 * 60 * 60 * 1000);
    assert_eq!(expiry_from(0), VALIDITY_WINDOW_MS);
    assert_eq!(expiry_from(1_700_000_000_000), 1_700_000_000_000 + VALIDITY_WINDOW_MS);
    assert_eq!(expiry_from(i64::MAX - 1), i64::MAX);
}

#[test]
fn clock_reads_a_modern_timestamp() {
    let now = primo_client::time::now_millis();
    assert!(now > 1_500_000_000_000);
    assert!(expiry_from(now) > now);
}
