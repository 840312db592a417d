//! The authenticated operations, composed over the in-memory store.
//!
//! Each operation follows the one template: fetch a usable credential, plan
//! the request (or fail fast), and let the caller execute the plan and bring
//! the observed status and body back to the matching decoder. These
//! compositions carry the store-coupled guarantees: what a login writes, and
//! that nothing else ever writes.

use vstd::prelude::*;
use crate::credential::spec_expiry_from;
use crate::envelope::spec_login_payload_of;
use crate::errors::ApiError;
use crate::json::spec_json_parse;
use crate::models::{LoginPayload, SessionIdentity, TableConfig};
use crate::plan::{plan_create_table, plan_join_table, plan_list_tables, spec_status_success,
    Method, RequestPlan};
use crate::bodies::{spec_join_body, spec_table_config_body};
use crate::envelope::decode_login_response;
use crate::store::MemStore;

verus! {

/// Whether a stored slot holds a credential usable at `now`.
pub open spec fn spec_has_usable(slot: Option<crate::credential::Credential>, now: i64) -> bool {
    slot is Some && slot->0.spec_usable_at(now)
}

/// Completes a login against the observed response: on a success status with
/// a well-formed payload the new credential is stored before the payload is
/// returned; on any failure the store is left untouched.
pub fn login_with_store(store: &mut MemStore, status: u16, body: &str, now: i64) -> (r: Result<
    LoginPayload,
    ApiError,
>)
    ensures
        r is Err ==> final(store)@ == old(store)@,
        !spec_status_success(status) ==> (r matches Err(ApiError::HttpStatus { body: b }) && b@
            == body@),
        r matches Ok(p) ==> (final(store)@ matches Some(c) && c.access_token@ == p.access_token@
            && c.refresh_token@ == p.refresh_token@ && c.expires_at == spec_expiry_from(now)),
        spec_status_success(status) ==> match spec_json_parse(body@) {
            None => r matches Err(ApiError::EnvelopeParse { .. }),
            Some(v) => match spec_login_payload_of(v) {
                None => r matches Err(ApiError::EnvelopeParse { .. }),
                Some(p) => r matches Ok(q) && q == p,
            },
        },
{
    match decode_login_response(status, body, now) {
        Ok((payload, credential)) => match store.set(credential) {
            Ok(_) => Ok(payload),
            Err(e) => Err(e),
        },
        Err(e) => Err(e),
    }
}

/// Logs out: deletes the stored credential. Succeeds also when nothing was
/// stored.
pub fn logout_with_store(store: &mut MemStore) -> (r: Result<(), ApiError>)
    ensures
        r is Ok,
        final(store)@ is None,
{
    store.delete()
}

/// What is known of the session's identity: a credential usable at `now`
/// means an authenticated session whose claims are not decoded; none means
/// no session. The expiry rule applies to this read like any other — an
/// expired credential counts as absent and is evicted on the way.
pub fn session_identity(store: &mut MemStore, now: i64) -> (r: SessionIdentity)
    ensures
        r == SessionIdentity::AuthenticatedUnknown <==> spec_has_usable(old(store)@, now),
        r == SessionIdentity::NotAuthenticated <==> !spec_has_usable(old(store)@, now),
        spec_has_usable(old(store)@, now) ==> final(store)@ == old(store)@,
        !spec_has_usable(old(store)@, now) ==> final(store)@ is None,
{
    match store.get(now) {
        Some(_) => SessionIdentity::AuthenticatedUnknown,
        None => SessionIdentity::NotAuthenticated,
    }
}

/// Plans the table-list call. The one read allowed without identity: with no
/// usable credential the request goes out unauthenticated. Reading the store
/// evicts a stale credential on the way.
pub fn prepare_list_tables(store: &mut MemStore, api_url: &str, now: i64) -> (r: RequestPlan)
    ensures
        r.method == Method::Get,
        r.url@ == api_url@ + "/api/tables"@,
        r.body is None,
        spec_has_usable(old(store)@, now) ==> (r.bearer is Some && r.bearer->0@ == old(
            store,
        )@->0.access_token@ && final(store)@ == old(store)@),
        !spec_has_usable(old(store)@, now) ==> (r.bearer is None && final(store)@ is None),
{
    let cred = store.get(now);
    plan_list_tables(api_url, cred.as_ref())
}

/// Plans the table-creation call: with no usable credential it fails with
/// `NotAuthenticated` and no request exists to send.
pub fn prepare_create_table(store: &mut MemStore, api_url: &str, now: i64, config: &TableConfig)
    -> (r: Result<RequestPlan, ApiError>)
    ensures
        !spec_has_usable(old(store)@, now) <==> r == Err::<RequestPlan, ApiError>(
            ApiError::NotAuthenticated,
        ),
        spec_has_usable(old(store)@, now) ==> r is Ok && {
            let p = r->Ok_0;
            &&& p.method == Method::Post
            &&& p.url@ == api_url@ + "/api/tables"@
            &&& p.bearer is Some
            &&& p.bearer->0@ == old(store)@->0.access_token@
            &&& p.body is Some
            &&& p.body->0@ == spec_table_config_body(*config)
        },
{
    let cred = store.get(now);
    plan_create_table(api_url, cred.as_ref(), config)
}

/// Plans the join call: with no usable credential it fails with
/// `NotAuthenticated` and no request exists to send.
pub fn prepare_join_table(
    store: &mut MemStore,
    api_url: &str,
    now: i64,
    table_id: &str,
    buy_in: u32,
) -> (r: Result<RequestPlan, ApiError>)
    ensures
        !spec_has_usable(old(store)@, now) <==> r == Err::<RequestPlan, ApiError>(
            ApiError::NotAuthenticated,
        ),
        spec_has_usable(old(store)@, now) ==> r is Ok && {
            let p = r->Ok_0;
            &&& p.method == Method::Post
            &&& p.url@ == api_url@ + "/api/tables/"@ + table_id@ + "/join"@
            &&& p.bearer is Some
            &&& p.bearer->0@ == old(store)@->0.access_token@
            &&& p.body is Some
            &&& p.body->0@ == spec_join_body(buy_in as nat)
        },
{
    let cred = store.get(now);
    plan_join_table(api_url, cred.as_ref(), table_id, buy_in)
}

} // verus!
