use primo_client::bodies::{encode_credential, join_body, login_body};
use primo_client::credential::Credential;
use primo_client::errors::ApiError;
use primo_client::keystore::{decode_credential, logout_outcome, DeleteOutcome};

fn cred(access: &str, refresh: &str, expires_at: i64) -> Credential {
    Credential {
        access_token: access.to_string(),
        refresh_token: refresh.to_string(),
        expires_at,
    }
}

#[test]
fn credential_blob_is_exact_json() {
    let blob = encode_credential(&cred("AT", "RT", 86_400_000));
    assert_eq!(
        blob,
        "{\"access_token\":\"AT\",\"refresh_token\":\"RT\",\"expires_at\":86400000}"
    );
}

#[test]
fn credential_blob_round_trips() {
    let c = cred("AT", "RT", 123_456_789);
    let back = decode_credential(&encode_credential(&c)).expect("blob should parse");
    assert_eq!(back, c);
}

#[test]
fn credential_blob_round_trips_with_special_characters() {
    let c = cred("a\"b\\c", "line\nbreak\ttab", -5);
    let blob = encode_credential(&c);
    assert_eq!(
        blob,
        "{\"access_token\":\"a\\\"b\\\\c\",\"refresh_token\":\"line\\u000abreak\\u0009tab\",\"expires_at\":-5}"
    );
    let back = decode_credential(&blob).expect("blob should parse");
    assert_eq!(back, c);
}

#[test]
fn credential_blob_round_trips_extreme_timestamps() {
    for e in [i64::MIN, -1, 0, 1, i64::MAX] {
        let c = cred("a", "r", e);
        let back = decode_credential(&encode_credential(&c)).expect("blob should parse");
        assert_eq!(back, c);
    }
}

#[test]
fn malformed_blob_is_rejected() {
    assert!(decode_credential("").is_none());
    assert!(decode_credential("{}").is_none());
    assert!(decode_credential("{\"access_token\":\"a\",\"refresh_token\":\"r\"}").is_none());
    assert!(
        decode_credential(
            "{\"access_token\":\"a\",\"refresh_token\":\"r\",\"expires_at\":\"soon\"}"
        )
        .is_none()
    );
}

#[test]
fn join_body_is_exact() {
    assert_eq!(join_body(0), "{\"buyIn\":0}");
    assert_eq!(join_body(4_294_967_295), "{\"buyIn\":4294967295}");
}

#[test]
fn login_body_escapes_control_characters() {
    assert_eq!(
        login_body("a", "\u{1}"),
        "{\"username\":\"a\",\"password\":\"\\u0001\"}"
    );
}

#[test]
fn deleted_and_missing_both_log_out() {
    assert_eq!(logout_outcome(DeleteOutcome::Deleted), Ok(()));
    assert_eq!(logout_outcome(DeleteOutcome::Missing), Ok(()));
    assert_eq!(
        logout_outcome(DeleteOutcome::Failed { message: "locked".to_string() }),
        Err(ApiError::Store { message: "locked".to_string() })
    );
}

#[test]
fn error_descriptions_carry_their_message() {
    assert_eq!(
        ApiError::Network { message: "down".to_string() }.describe(),
        "down"
    );
    assert_eq!(ApiError::NotAuthenticated.describe(), "Not authenticated");
    assert_eq!(
        ApiError::HttpStatus { body: "b".to_string() }.describe(),
        "b"
    );
}

#[test]
fn keyring_store_uses_the_fixed_key_pair() {
    let store = primo_client::keystore::KeyringStore::default_key();
    assert_eq!(store.service, "primo-poker");
    assert_eq!(store.account, "auth-token");
}
