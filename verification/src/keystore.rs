//! The credential store backed by the platform's secure secret facility.
//!
//! The OS keyring holds one serialized credential under a fixed
//! service/account pair. What the keyring returns depends on machine state,
//! so the wrappers promise nothing about it; every decision taken on what
//! came back — expiry eviction, idempotent deletion, failure mapping — is
//! verified code.

use vstd::prelude::*;
use vstd::string::StringExecFns;
use crate::bodies::encode_credential;
use crate::credential::Credential;
use crate::envelope::spec_login_payload_of;
use crate::errors::ApiError;
use crate::json::{int_field, parse_body, spec_int_field, spec_json_parse, spec_str_field,
    str_field, JsonVal};
use crate::models::{LoginPayload, SessionIdentity};
use crate::plan::spec_status_success;

verus! {

#[verifier::external_type_specification]
#[verifier::external_body]
pub struct ExKeyringEntry(keyring::Entry);

#[verifier::external_type_specification]
#[verifier::external_body]
pub struct ExKeyringError(keyring::Error);

/// What a deletion attempt against the keyring came to.
#[derive(Debug, Clone, PartialEq, Eq)]
pub enum DeleteOutcome {
    /// An entry existed and was removed.
    Deleted,
    /// No entry existed.
    Missing,
    /// The keyring failed.
    Failed { message: String },
}

/// Relies on `keyring::Entry::new`: a handle for the given service and
/// account pair.
#[verifier::external_body]
fn entry_new(service: &str, account: &str) -> Result<keyring::Entry, keyring::Error> {
    keyring::Entry::new(service, account)
}

/// Relies on `keyring::Entry::get_password`: the stored secret, or the
/// keyring's error (among them "no entry").
#[verifier::external_body]
fn entry_get_password(e: &keyring::Entry) -> Result<String, keyring::Error> {
    e.get_password()
}

/// Relies on `keyring::Entry::set_password`: stores the secret, replacing
/// any previous one.
#[verifier::external_body]
fn entry_set_password(e: &keyring::Entry, password: &str) -> Result<(), keyring::Error> {
    e.set_password(password)
}

/// Relies on `keyring::Entry::delete_password`, telling its `NoEntry` error
/// apart from real failures.
#[verifier::external_body]
fn entry_delete_password(e: &keyring::Entry) -> DeleteOutcome {
    match e.delete_password() {
        Ok(()) => DeleteOutcome::Deleted,
        Err(keyring::Error::NoEntry) => DeleteOutcome::Missing,
        Err(err) => DeleteOutcome::Failed { message: format!("{}", err) },
    }
}

/// Relies on `keyring::Error`'s `Display`: a human-readable description.
#[verifier::external_body]
fn keyring_error_message(e: &keyring::Error) -> String {
    format!("{}", e)
}

fn store_error(e: &keyring::Error) -> (r: ApiError)
    ensures
        r is Store,
{
    ApiError::Store { message: keyring_error_message(e) }
}

/// The credential carried by a well-formed blob: both tokens and the expiry
/// timestamp are required.
pub open spec fn spec_credential_of(v: JsonVal) -> Option<Credential> {
    match (spec_str_field(v, "access_token"@), spec_str_field(v, "refresh_token"@), spec_int_field(
        v,
        "expires_at"@,
    )) {
        (Some(access_token), Some(refresh_token), Some(expires_at)) => Some(
            Credential { access_token, refresh_token, expires_at },
        ),
        _ => None,
    }
}

/// The parse of a stored blob, through the named JSON parse.
pub open spec fn spec_decode_credential(blob: Seq<char>) -> Option<Credential> {
    match spec_json_parse(blob) {
        Some(v) => spec_credential_of(v),
        None => None,
    }
}

/// Reads a credential back out of its serialized blob; absent exactly when
/// the blob is not of the written shape.
pub fn decode_credential(blob: &str) -> (r: Option<Credential>)
    ensures
        r == spec_decode_credential(blob@),
{
    let v = match parse_body(blob) {
        Some(v) => v,
        None => { return None; },
    };
    let access_token = match str_field(&v, "access_token") {
        Some(s) => s,
        None => { return None; },
    };
    let refresh_token = match str_field(&v, "refresh_token") {
        Some(s) => s,
        None => { return None; },
    };
    let expires_at = match int_field(&v, "expires_at") {
        Some(n) => n,
        None => { return None; },
    };
    Some(Credential { access_token, refresh_token, expires_at })
}

/// How a keyring deletion maps to a logout result: a removed entry and a
/// missing entry are both success — logging out twice is a no-op — and only
/// a keyring failure is an error.
pub fn logout_outcome(d: DeleteOutcome) -> (r: Result<(), ApiError>)
    ensures
        d == DeleteOutcome::Deleted ==> r is Ok,
        d == DeleteOutcome::Missing ==> r is Ok,
        d matches DeleteOutcome::Failed { message: m } ==> (r matches Err(ApiError::Store {
            message }) && message@ == m@),
{
    match d {
        DeleteOutcome::Deleted => Ok(()),
        DeleteOutcome::Missing => Ok(()),
        DeleteOutcome::Failed { message } => Err(ApiError::Store { message }),
    }
}

/// The keyring-backed credential store: the fixed service/account pair under
/// which the one credential of the application lives.
#[derive(Debug, Clone, PartialEq, Eq)]
pub struct KeyringStore {
    pub service: String,
    pub account: String,
}

impl KeyringStore {
    /// A store under the given key pair.
    pub fn new(service: String, account: String) -> (r: KeyringStore)
        ensures
            r.service@ == service@,
            r.account@ == account@,
    {
        KeyringStore { service, account }
    }

    /// The application's fixed key pair.
    pub fn default_key() -> (r: KeyringStore)
        ensures
            r.service@ == "primo-poker"@,
            r.account@ == "auth-token"@,
    {
        KeyringStore {
            service: String::from_str("primo-poker"),
            account: String::from_str("auth-token"),
        }
    }

    fn entry(&self) -> (r: Result<keyring::Entry, ApiError>)
        ensures
            r is Err ==> r->Err_0 is Store,
    {
        match entry_new(self.service.as_str(), self.account.as_str()) {
            Ok(e) => Ok(e),
            Err(e) => Err(store_error(&e)),
        }
    }

    /// Serializes and stores a credential, replacing any previous one.
    pub fn set(&self, c: &Credential) -> (r: Result<(), ApiError>)
        ensures
            r is Err ==> r->Err_0 is Store,
    {
        let entry = match self.entry() {
            Ok(e) => e,
            Err(e) => { return Err(e); },
        };
        let blob = encode_credential(c);
        match entry_set_password(&entry, blob.as_str()) {
            Ok(_) => Ok(()),
            Err(e) => Err(store_error(&e)),
        }
    }

    /// Fetches a usable credential. A read error from the keyring means no
    /// credential; a stored blob that does not decode (per
    /// `spec_decode_credential`) is a distinct `Store` error, not silently
    /// absent; a stored credential past its expiry is deleted and reported
    /// absent; whatever is returned is usable at `now`.
    pub fn get(&self, now: i64) -> (r: Result<Option<Credential>, ApiError>)
        ensures
            r matches Ok(Some(c)) ==> c.spec_usable_at(now),
            r is Err ==> r->Err_0 is Store,
    {
        let entry = match self.entry() {
            Ok(e) => e,
            Err(e) => { return Err(e); },
        };
        let blob = match entry_get_password(&entry) {
            Ok(b) => b,
            Err(_) => { return Ok(None); },
        };
        let cred = match decode_credential(blob.as_str()) {
            Some(c) => c,
            None => {
                return Err(
                    ApiError::Store { message: String::from_str("Stored credential is malformed") },
                );
            },
        };
        if cred.usable_at(now) {
            Ok(Some(cred))
        } else {
            let _ = entry_delete_password(&entry);
            Ok(None)
        }
    }

    /// Deletes the stored credential; deleting an absent entry succeeds.
    pub fn delete(&self) -> (r: Result<(), ApiError>)
        ensures
            r is Err ==> r->Err_0 is Store,
    {
        let entry = match self.entry() {
            Ok(e) => e,
            Err(e) => { return Err(e); },
        };
        logout_outcome(entry_delete_password(&entry))
    }

    /// Whether any credential blob is stored, expired or not.
    pub fn holds_entry(&self) -> (r: Result<bool, ApiError>)
        ensures
            r is Err ==> r->Err_0 is Store,
    {
        let entry = match self.entry() {
            Ok(e) => e,
            Err(e) => { return Err(e); },
        };
        match entry_get_password(&entry) {
            Ok(_) => Ok(true),
            Err(_) => Ok(false),
        }
    }

    /// What is known of the session's identity: a credential usable at `now`
    /// means an authenticated session whose claims are not decoded. Expired,
    /// unreadable or absent credentials all count as no session, and keyring
    /// failures degrade the same way: this query never fails.
    pub fn session_identity(&self, now: i64) -> SessionIdentity {
        match self.get(now) {
            Ok(Some(_)) => SessionIdentity::AuthenticatedUnknown,
            _ => SessionIdentity::NotAuthenticated,
        }
    }

    /// Completes a login against the observed response, persisting the new
    /// credential in the keyring. A credential that cannot be persisted
    /// fails the whole login.
    pub fn login_apply(&self, status: u16, body: &str, now: i64) -> (r: Result<
        LoginPayload,
        ApiError,
    >)
        ensures
            !spec_status_success(status) ==> (r matches Err(ApiError::HttpStatus { body: b }) && b@
                == body@),
            spec_status_success(status) ==> match spec_json_parse(body@) {
                None => r matches Err(ApiError::EnvelopeParse { .. }),
                Some(v) => match spec_login_payload_of(v) {
                    None => r matches Err(ApiError::EnvelopeParse { .. }),
                    Some(p) => (r matches Ok(q) && q == p) || (r matches Err(e) && e is Store),
                },
            },
    {
        match crate::envelope::decode_login_response(status, body, now) {
            Ok((payload, cred)) => match self.set(&cred) {
                Ok(_) => Ok(payload),
                Err(e) => Err(e),
            },
            Err(e) => Err(e),
        }
    }
}

} // verus!
