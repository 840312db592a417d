//! The JSON bodies the library sends, pinned character by character.

use vstd::prelude::*;
use crate::credential::Credential;
use crate::models::TableConfig;
use crate::text::{
    push_dec_i64, push_dec_u64, push_json_string, push_str_chars, spec_dec_int, spec_dec_nat,
    spec_json_string, string_from_chars,
};

verus! {

/// The login request body: identifier and password as a JSON object.
pub open spec fn spec_login_body(username: Seq<char>, password: Seq<char>) -> Seq<char> {
    "{\"username\":"@ + spec_json_string(username) + ",\"password\":"@ + spec_json_string(password)
        + "}"@
}

/// Builds the login request body.
pub fn login_body(username: &str, password: &str) -> (r: String)
    ensures
        r@ == spec_login_body(username@, password@),
{
    let mut out: Vec<char> = Vec::new();
    push_str_chars(&mut out, "{\"username\":");
    push_json_string(&mut out, username);
    push_str_chars(&mut out, ",\"password\":");
    push_json_string(&mut out, password);
    push_str_chars(&mut out, "}");
    proof {
        assert(out@ =~= spec_login_body(username@, password@));
    }
    string_from_chars(&out)
}

/// The table-creation request body: the configuration as a JSON object, keys
/// in the backend's wire casing.
pub open spec fn spec_table_config_body(c: TableConfig) -> Seq<char> {
    "{\"name\":"@ + spec_json_string(c.name@) + ",\"gameType\":"@ + spec_json_string(c.game_type@)
        + ",\"bettingStructure\":"@ + spec_json_string(c.betting_structure@) + ",\"gameFormat\":"@
        + spec_json_string(c.game_format@) + ",\"maxPlayers\":"@ + spec_dec_nat(
        c.max_players as nat,
    ) + ",\"minBuyIn\":"@ + spec_dec_nat(c.min_buy_in as nat) + ",\"maxBuyIn\":"@ + spec_dec_nat(
        c.max_buy_in as nat,
    ) + ",\"smallBlind\":"@ + spec_dec_nat(c.small_blind as nat) + ",\"bigBlind\":"@ + spec_dec_nat(
        c.big_blind as nat,
    ) + ",\"ante\":"@ + spec_dec_nat(c.ante as nat) + ",\"timeBank\":"@ + spec_dec_nat(
        c.time_bank as nat,
    ) + ",\"isPrivate\":"@ + (if c.is_private {
        "true"@
    } else {
        "false"@
    }) + "}"@
}

/// Builds the table-creation request body.
pub fn table_config_body(c: &TableConfig) -> (r: String)
    ensures
        r@ == spec_table_config_body(*c),
{
    let mut out: Vec<char> = Vec::new();
    push_str_chars(&mut out, "{\"name\":");
    push_json_string(&mut out, c.name.as_str());
    push_str_chars(&mut out, ",\"gameType\":");
    push_json_string(&mut out, c.game_type.as_str());
    push_str_chars(&mut out, ",\"bettingStructure\":");
    push_json_string(&mut out, c.betting_structure.as_str());
    push_str_chars(&mut out, ",\"gameFormat\":");
    push_json_string(&mut out, c.game_format.as_str());
    push_str_chars(&mut out, ",\"maxPlayers\":");
    push_dec_u64(&mut out, c.max_players as u64);
    push_str_chars(&mut out, ",\"minBuyIn\":");
    push_dec_u64(&mut out, c.min_buy_in as u64);
    push_str_chars(&mut out, ",\"maxBuyIn\":");
    push_dec_u64(&mut out, c.max_buy_in as u64);
    push_str_chars(&mut out, ",\"smallBlind\":");
    push_dec_u64(&mut out, c.small_blind as u64);
    push_str_chars(&mut out, ",\"bigBlind\":");
    push_dec_u64(&mut out, c.big_blind as u64);
    push_str_chars(&mut out, ",\"ante\":");
    push_dec_u64(&mut out, c.ante as u64);
    push_str_chars(&mut out, ",\"timeBank\":");
    push_dec_u64(&mut out, c.time_bank as u64);
    push_str_chars(&mut out, ",\"isPrivate\":");
    if c.is_private {
        push_str_chars(&mut out, "true");
    } else {
        push_str_chars(&mut out, "false");
    }
    push_str_chars(&mut out, "}");
    proof {
        assert(out@ =~= spec_table_config_body(*c));
    }
    string_from_chars(&out)
}

/// The join request body: the buy-in as a JSON object.
pub open spec fn spec_join_body(buy_in: nat) -> Seq<char> {
    "{\"buyIn\":"@ + spec_dec_nat(buy_in) + "}"@
}

/// Builds the join request body.
pub fn join_body(buy_in: u32) -> (r: String)
    ensures
        r@ == spec_join_body(buy_in as nat),
{
    let mut out: Vec<char> = Vec::new();
    push_str_chars(&mut out, "{\"buyIn\":");
    push_dec_u64(&mut out, buy_in as u64);
    push_str_chars(&mut out, "}");
    proof {
        assert(out@ =~= spec_join_body(buy_in as nat));
    }
    string_from_chars(&out)
}

/// The serialized form of a stored credential: a JSON object with the two
/// tokens and the expiry timestamp in milliseconds.
pub open spec fn spec_credential_blob(c: Credential) -> Seq<char> {
    "{\"access_token\":"@ + spec_json_string(c.access_token@) + ",\"refresh_token\":"@
        + spec_json_string(c.refresh_token@) + ",\"expires_at\":"@ + spec_dec_int(
        c.expires_at as int,
    ) + "}"@
}

/// Serializes a credential for the secret store.
pub fn encode_credential(c: &Credential) -> (r: String)
    ensures
        r@ == spec_credential_blob(*c),
{
    let mut out: Vec<char> = Vec::new();
    push_str_chars(&mut out, "{\"access_token\":");
    push_json_string(&mut out, c.access_token.as_str());
    push_str_chars(&mut out, ",\"refresh_token\":");
    push_json_string(&mut out, c.refresh_token.as_str());
    push_str_chars(&mut out, ",\"expires_at\":");
    push_dec_i64(&mut out, c.expires_at);
    push_str_chars(&mut out, "}");
    proof {
        assert(out@ =~= spec_credential_blob(*c));
    }
    string_from_chars(&out)
}

} // verus!
