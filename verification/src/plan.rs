//! Request plans: what every backend call sends, pinned before anything is
//! sent.
//!
//! The transport layer outside the library executes a plan verbatim; deciding
//! the method, the URL, the bearer injection and the body is the library's
//! job and is specified here.

use vstd::prelude::*;
use crate::bodies::{join_body, login_body, spec_join_body, spec_login_body, spec_table_config_body,
    table_config_body};
use crate::credential::Credential;
use crate::errors::ApiError;
use crate::models::{ConnectionStatus, TableConfig};
use crate::text::{push_str_chars, string_from_chars};
use vstd::string::StringExecFns;

verus! {

/// HTTP method of a plan.
#[derive(Debug, Clone, Copy, PartialEq, Eq, Structural)]
pub enum Method {
    Get,
    Post,
}

/// One backend call, fully decided: where it goes, whether a bearer token is
/// attached, and what body it carries. A body always travels as JSON.
#[derive(Debug, Clone, PartialEq, Eq)]
pub struct RequestPlan {
    pub method: Method,
    pub url: String,
    pub bearer: Option<String>,
    pub body: Option<String>,
}

/// The fixed configuration of the HTTP client shared by all calls.
#[derive(Debug, Clone, PartialEq, Eq)]
pub struct ClientConfig {
    pub user_agent: String,
    pub accept: String,
    pub timeout_secs: u64,
    pub connect_timeout_secs: u64,
}

/// The one client configuration the application uses: fixed identification
/// headers, a 30-second overall timeout and a 10-second connect timeout.
pub fn client_config() -> (r: ClientConfig)
    ensures
        r.user_agent@ == "Primo-Poker-Desktop/1.0"@,
        r.accept@ == "application/json"@,
        r.timeout_secs == 30u64,
        r.connect_timeout_secs == 10u64,
{
    ClientConfig {
        user_agent: String::from_str("Primo-Poker-Desktop/1.0"),
        accept: String::from_str("application/json"),
        timeout_secs: 30,
        connect_timeout_secs: 10,
    }
}

/// The value of the `Authorization` header for a given access token.
pub fn bearer_header_value(token: &str) -> (r: String)
    ensures
        r@ == "Bearer "@ + token@,
{
    let mut out: Vec<char> = Vec::new();
    push_str_chars(&mut out, "Bearer ");
    push_str_chars(&mut out, token);
    string_from_chars(&out)
}

fn concat_url(base: &str, path: &str) -> (r: String)
    ensures
        r@ == base@ + path@,
{
    let mut out: Vec<char> = Vec::new();
    push_str_chars(&mut out, base);
    push_str_chars(&mut out, path);
    string_from_chars(&out)
}

/// The connectivity probe: a bare GET to the health endpoint, no auth, no
/// body.
pub fn plan_health(api_url: &str) -> (r: RequestPlan)
    ensures
        r.method == Method::Get,
        r.url@ == api_url@ + "/api/health"@,
        r.bearer is None,
        r.body is None,
{
    RequestPlan {
        method: Method::Get,
        url: concat_url(api_url, "/api/health"),
        bearer: None,
        body: None,
    }
}

/// The login call: identifier and password as a JSON body, no auth header.
pub fn plan_login(api_url: &str, username: &str, password: &str) -> (r: RequestPlan)
    ensures
        r.method == Method::Post,
        r.url@ == api_url@ + "/api/auth/login"@,
        r.bearer is None,
        r.body is Some,
        r.body->0@ == spec_login_body(username@, password@),
{
    RequestPlan {
        method: Method::Post,
        url: concat_url(api_url, "/api/auth/login"),
        bearer: None,
        body: Some(login_body(username, password)),
    }
}

/// The table-list call. Listing is the one read allowed without identity: a
/// missing credential degrades to an unauthenticated request instead of
/// failing.
pub fn plan_list_tables(api_url: &str, cred: Option<&Credential>) -> (r: RequestPlan)
    ensures
        r.method == Method::Get,
        r.url@ == api_url@ + "/api/tables"@,
        r.body is None,
        cred is None ==> r.bearer is None,
        cred is Some ==> r.bearer is Some && r.bearer->0@ == cred->0.access_token@,
{
    let bearer = match cred {
        None => None,
        Some(c) => Some(c.access_token.clone()),
    };
    RequestPlan { method: Method::Get, url: concat_url(api_url, "/api/tables"), bearer, body: None }
}

/// The table-creation call. Creation requires a credential: with none, the
/// operation fails before any request exists.
pub fn plan_create_table(api_url: &str, cred: Option<&Credential>, config: &TableConfig) -> (r:
    Result<RequestPlan, ApiError>)
    ensures
        cred is None <==> r == Err::<RequestPlan, ApiError>(ApiError::NotAuthenticated),
        cred is Some ==> r is Ok && {
            let p = r->Ok_0;
            &&& p.method == Method::Post
            &&& p.url@ == api_url@ + "/api/tables"@
            &&& p.bearer is Some
            &&& p.bearer->0@ == cred->0.access_token@
            &&& p.body is Some
            &&& p.body->0@ == spec_table_config_body(*config)
        },
{
    match cred {
        None => Err(ApiError::NotAuthenticated),
        Some(c) => Ok(
            RequestPlan {
                method: Method::Post,
                url: concat_url(api_url, "/api/tables"),
                bearer: Some(c.access_token.clone()),
                body: Some(table_config_body(config)),
            },
        ),
    }
}

/// The join call. Joining requires a credential: with none, the operation
/// fails before any request exists.
pub fn plan_join_table(api_url: &str, cred: Option<&Credential>, table_id: &str, buy_in: u32) -> (r:
    Result<RequestPlan, ApiError>)
    ensures
        cred is None <==> r == Err::<RequestPlan, ApiError>(ApiError::NotAuthenticated),
        cred is Some ==> r is Ok && {
            let p = r->Ok_0;
            &&& p.method == Method::Post
            &&& p.url@ == api_url@ + "/api/tables/"@ + table_id@ + "/join"@
            &&& p.bearer is Some
            &&& p.bearer->0@ == cred->0.access_token@
            &&& p.body is Some
            &&& p.body->0@ == spec_join_body(buy_in as nat)
        },
{
    match cred {
        None => Err(ApiError::NotAuthenticated),
        Some(c) => {
            let mut out: Vec<char> = Vec::new();
            push_str_chars(&mut out, api_url);
            push_str_chars(&mut out, "/api/tables/");
            push_str_chars(&mut out, table_id);
            push_str_chars(&mut out, "/join");
            let url = string_from_chars(&out);
            Ok(
                RequestPlan {
                    method: Method::Post,
                    url,
                    bearer: Some(c.access_token.clone()),
                    body: Some(join_body(buy_in)),
                },
            )
        },
    }
}

/// Whether an HTTP status code counts as success.
pub open spec fn spec_status_success(status: u16) -> bool {
    200 <= status < 300
}

/// Executable form of the status rule.
pub fn status_success(status: u16) -> (r: bool)
    ensures
        r == spec_status_success(status),
{
    200 <= status && status < 300
}

/// Interprets the outcome of the connectivity probe. `probe` is the observed
/// status and elapsed milliseconds, or nothing when the transport failed.
/// Failure is not an error here: it degrades to a disconnected status, so the
/// shell never has to special-case an unreachable backend.
pub fn connection_status(backend_url: &str, probe: Option<(u16, u32)>) -> (r: ConnectionStatus)
    ensures
        r.backend_url@ == backend_url@,
        probe is None ==> !r.connected && r.latency_ms is None,
        probe is Some ==> r.connected == spec_status_success((probe->0).0) && r.latency_ms == Some(
            (probe->0).1,
        ),
{
    match probe {
        None => ConnectionStatus {
            connected: false,
            backend_url: String::from_str(backend_url),
            latency_ms: None,
        },
        Some((status, latency)) => ConnectionStatus {
            connected: status_success(status),
            backend_url: String::from_str(backend_url),
            latency_ms: Some(latency),
        },
    }
}

} // verus!
