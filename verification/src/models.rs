//! Value objects exchanged with the backend and with the shell.

use vstd::prelude::*;

verus! {

/// Input for table creation. Distinct from the persisted [`Table`] record the
/// backend returns.
#[derive(Debug, Clone, PartialEq, Eq)]
pub struct TableConfig {
    pub name: String,
    pub game_type: String,
    pub betting_structure: String,
    pub game_format: String,
    pub max_players: u8,
    pub min_buy_in: u32,
    pub max_buy_in: u32,
    pub small_blind: u32,
    pub big_blind: u32,
    pub ante: u32,
    pub time_bank: u32,
    pub is_private: bool,
}

/// Effective blinds of a live table.
#[derive(Debug, Clone, PartialEq, Eq)]
pub struct BlindsConfig {
    pub small: u32,
    pub big: u32,
}

/// Configuration echoed back inside a [`Table`] record.
#[derive(Debug, Clone, PartialEq, Eq)]
pub struct TableConfigEcho {
    pub max_players: u8,
    pub small_blind: u32,
    pub big_blind: u32,
}

/// A live table as the backend reports it.
#[derive(Debug, Clone, PartialEq, Eq)]
pub struct Table {
    pub id: String,
    pub name: String,
    pub player_count: u8,
    pub max_players: u8,
    pub game_phase: String,
    pub pot: u32,
    pub blinds: BlindsConfig,
    pub config: Option<TableConfigEcho>,
}

/// The user record the backend returns on login.
#[derive(Debug, Clone, PartialEq, Eq)]
pub struct User {
    pub id: String,
    pub username: String,
    pub email: String,
    pub name: Option<String>,
}

/// What a successful login hands back to the caller.
#[derive(Debug, Clone, PartialEq, Eq)]
pub struct LoginPayload {
    pub user: User,
    pub access_token: String,
    pub refresh_token: String,
    pub message: String,
}

/// Outcome of the connectivity probe. Never an error: an unreachable backend
/// is reported as `connected == false` with no latency.
#[derive(Debug, Clone, PartialEq, Eq)]
pub struct ConnectionStatus {
    pub connected: bool,
    pub backend_url: String,
    pub latency_ms: Option<u32>,
}

/// What is known of the current session's identity. The stored credential
/// carries no decoded claims, so a present credential yields an explicit
/// "identity unknown" answer rather than a fabricated user record.
#[derive(Debug, Clone, PartialEq, Eq)]
pub enum SessionIdentity {
    /// No credential is stored.
    NotAuthenticated,
    /// A credential is stored, but its claims are not decoded.
    AuthenticatedUnknown,
}

} // verus!
