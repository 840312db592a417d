use primo_client::credential::Credential;
use primo_client::errors::ApiError;
use primo_client::models::TableConfig;
use primo_client::ops::{prepare_create_table, prepare_join_table, prepare_list_tables};
use primo_client::plan::{
    bearer_header_value, client_config, connection_status, plan_health, plan_list_tables,
    plan_login, status_success, Method,
};
use primo_client::store::MemStore;

fn cred(expires_at: i64) -> Credential {
    Credential {
        access_token: "AT".to_string(),
        refresh_token: "RT".to_string(),
        expires_at,
    }
}

fn config() -> TableConfig {
    TableConfig {
        name: "My Table".to_string(),
        game_type: "texas_holdem".to_string(),
        betting_structure: "no_limit".to_string(),
        game_format: "cash".to_string(),
        max_players: 9,
        min_buy_in: 100,
        max_buy_in: 1000,
        small_blind: 5,
        big_blind: 10,
        ante: 0,
        time_bank: 30,
        is_private: false,
    }
}

#[test]
fn health_plan_is_a_bare_get() {
    let p = plan_health("http://h");
    assert_eq!(p.method, Method::Get);
    assert_eq!(p.url, "http://h/api/health");
    assert!(p.bearer.is_none());
    assert!(p.body.is_none());
}

#[test]
fn login_plan_posts_escaped_credentials() {
    let p = plan_login("http://h", "alice", "p\"w\\d");
    assert_eq!(p.method, Method::Post);
    assert_eq!(p.url, "http://h/api/auth/login");
    assert!(p.bearer.is_none());
    assert_eq!(
        p.body.unwrap(),
        "{\"username\":\"alice\",\"password\":\"p\\\"w\\\\d\"}"
    );
}

#[test]
fn list_plan_tolerates_missing_credential() {
    let p = plan_list_tables("http://h", None);
    assert_eq!(p.method, Method::Get);
    assert_eq!(p.url, "http://h/api/tables");
    assert!(p.bearer.is_none());
    assert!(p.body.is_none());
}

#[test]
fn list_plan_attaches_stored_token() {
    let mut store = MemStore::new();
    store.set(cred(1_000)).unwrap();
    let p = prepare_list_tables(&mut store, "http://h", 500);
    assert_eq!(p.bearer, Some("AT".to_string()));
}

#[test]
fn list_plan_goes_out_unauthenticated_when_store_is_empty() {
    let mut store = MemStore::new();
    let p = prepare_list_tables(&mut store, "http://h", 500);
    assert!(p.bearer.is_none());
    assert_eq!(p.url, "http://h/api/tables");
}

#[test]
fn create_without_credential_fails_before_any_request() {
    let mut store = MemStore::new();
    let r = prepare_create_table(&mut store, "http://h", 500, &config());
    assert_eq!(r, Err(ApiError::NotAuthenticated));
}

#[test]
fn create_with_expired_credential_fails_and_evicts() {
    let mut store = MemStore::new();
    store.set(cred(100)).unwrap();
    let r = prepare_create_table(&mut store, "http://h", 500, &config());
    assert_eq!(r, Err(ApiError::NotAuthenticated));
    assert!(!store.holds_entry());
}

#[test]
fn create_plan_carries_config_and_token() {
    let mut store = MemStore::new();
    store.set(cred(1_000)).unwrap();
    let p = prepare_create_table(&mut store, "http://h", 500, &config()).unwrap();
    assert_eq!(p.method, Method::Post);
    assert_eq!(p.url, "http://h/api/tables");
    assert_eq!(p.bearer, Some("AT".to_string()));
    let body = p.body.unwrap();
    assert_eq!(
        body,
        "{\"name\":\"My Table\",\"gameType\":\"texas_holdem\",\"bettingStructure\":\"no_limit\",\"gameFormat\":\"cash\",\"maxPlayers\":9,\"minBuyIn\":100,\"maxBuyIn\":1000,\"smallBlind\":5,\"bigBlind\":10,\"ante\":0,\"timeBank\":30,\"isPrivate\":false}"
    );
}

#[test]
fn join_plan_has_table_in_url_and_buy_in_in_body() {
    let mut store = MemStore::new();
    store.set(cred(1_000)).unwrap();
    let p = prepare_join_table(&mut store, "http://h", 500, "t42", 250).unwrap();
    assert_eq!(p.method, Method::Post);
    assert_eq!(p.url, "http://h/api/tables/t42/join");
    assert_eq!(p.bearer, Some("AT".to_string()));
    assert_eq!(p.body.unwrap(), "{\"buyIn\":250}");
}

#[test]
fn join_without_credential_fails_before_any_request() {
    let mut store = MemStore::new();
    let r = prepare_join_table(&mut store, "http://h", 500, "t42", 250);
    assert_eq!(r, Err(ApiError::NotAuthenticated));
}

#[test]
fn bearer_header_is_token_with_prefix() {
    assert_eq!(bearer_header_value("tok"), "Bearer tok");
}

#[test]
fn client_configuration_is_fixed() {
    let c = client_config();
    assert_eq!(c.user_agent, "Primo-Poker-Desktop/1.0");
    assert_eq!(c.accept, "application/json");
    assert_eq!(c.timeout_secs, 30);
    assert_eq!(c.connect_timeout_secs, 10);
}

#[test]
fn unreachable_backend_degrades_to_disconnected() {
    let s = connection_status("http://down", None);
    assert!(!s.connected);
    assert_eq!(s.backend_url, "http://down");
    assert_eq!(s.latency_ms, None);
}

#[test]
fn reachable_backend_reports_latency() {
    let s = connection_status("http://up", Some((200, 42)));
    assert!(s.connected);
    assert_eq!(s.latency_ms, Some(42));
    let bad = connection_status("http://up", Some((503, 10)));
    assert!(!bad.connected);
    assert_eq!(bad.latency_ms, Some(10));
}

#[test]
fn status_success_boundaries() {
    assert!(!status_success(199));
    assert!(status_success(200));
    assert!(status_success(299));
    assert!(!status_success(300));
    assert!(!status_success(404));
}

#[test]
fn private_table_config_with_quotes_is_escaped() {
    let mut cfg = config();
    cfg.name = "say \"all in\"".to_string();
    cfg.is_private = true;
    let mut store = MemStore::new();
    store.set(cred(1_000)).unwrap();
    let p = prepare_create_table(&mut store, "http://h", 500, &cfg).unwrap();
    let body = p.body.unwrap();
    assert!(body.starts_with("{\"name\":\"say \\\"all in\\\"\","));
    assert!(body.ends_with("\"isPrivate\":true}"));
}
