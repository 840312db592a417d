//! Decoding of backend responses, with exact contracts.
//!
//! The backend answers every table call with a uniform envelope
//! `{success, data, error}`; the login call answers with a flat payload.
//! Bodies are parsed through the JSON model of [`crate::json`], so each
//! decoder's result is pinned as a function of the body's characters,
//! through the named parse `spec_json_parse`.

use vstd::prelude::*;
use vstd::string::StringExecFns;
use crate::credential::{expiry_from, spec_expiry_from, Credential};
use crate::errors::ApiError;
use crate::json::{bool_field, get_field, parse_body, spec_bool_field, spec_field,
    spec_json_parse, spec_str_field, spec_uint_field, str_field, uint_field, JsonVal};
use crate::models::{BlindsConfig, LoginPayload, Table, TableConfigEcho, User};
use crate::plan::{spec_status_success, status_success};

verus! {

/// How a body behind a successful HTTP status reads as an envelope.
pub enum EnvelopeReading<T> {
    /// Not a well-formed envelope, or malformed content inside one.
    Malformed,
    /// A well-formed envelope with `success == false`; carries the reported
    /// or fallback message.
    Refused(Seq<char>),
    /// A well-formed envelope with `success == true`; carries the decoded
    /// data.
    Granted(T),
}

/// The generic failure message used when a failure envelope carries no error
/// record.
pub fn fallback_error_message() -> (r: String)
    ensures
        r@ == "Unknown error"@,
{
    String::from_str("Unknown error")
}

/// The message of a failure envelope: `error.message`, or the generic
/// fallback when the error record is absent, or present without a readable
/// `message` (a malformed error record is not treated as a parse failure).
pub open spec fn spec_envelope_error_message(v: JsonVal) -> Seq<char> {
    match spec_field(v, "error"@) {
        Some(e) => match spec_str_field(e, "message"@) {
            Some(m) => m@,
            None => "Unknown error"@,
        },
        None => "Unknown error"@,
    }
}

fn envelope_error_message(v: &JsonVal) -> (r: String)
    ensures
        r@ == spec_envelope_error_message(*v),
{
    match get_field(v, "error") {
        Some(e) => match str_field(e, "message") {
            Some(m) => m,
            None => fallback_error_message(),
        },
        None => fallback_error_message(),
    }
}

/// The data of a success envelope: the `data` field, with an explicit `null`
/// counting as absent.
pub open spec fn spec_envelope_data(v: JsonVal) -> Option<JsonVal> {
    match spec_field(v, "data"@) {
        Some(JsonVal::Null) => None,
        Some(d) => Some(d),
        None => None,
    }
}

fn parse_error(context: &str) -> (r: ApiError)
    ensures
        r matches ApiError::EnvelopeParse { message } && message@ == context@,
{
    ApiError::EnvelopeParse { message: String::from_str(context) }
}

/// One table record read out of the model; absent when any required field is
/// missing, of the wrong type, or out of range.
pub open spec fn spec_table_of(v: JsonVal) -> Option<Table> {
    match (spec_str_field(v, "id"@), spec_str_field(v, "name"@), spec_uint_field(
        v,
        "playerCount"@,
        255,
    ), spec_uint_field(v, "maxPlayers"@, 255), spec_str_field(v, "gamePhase"@), spec_uint_field(
        v,
        "pot"@,
        0xffff_ffff,
    )) {
        (Some(id), Some(name), Some(pc), Some(mp), Some(gp), Some(pot)) => match spec_field(
            v,
            "blinds"@,
        ) {
            Some(b) => match (spec_uint_field(b, "small"@, 0xffff_ffff), spec_uint_field(
                b,
                "big"@,
                0xffff_ffff,
            )) {
                (Some(small), Some(big)) => match spec_table_config_of(v) {
                    Some(config) => Some(
                        Table {
                            id,
                            name,
                            player_count: pc as u8,
                            max_players: mp as u8,
                            game_phase: gp,
                            pot: pot as u32,
                            blinds: BlindsConfig { small: small as u32, big: big as u32 },
                            config,
                        },
                    ),
                    None => None,
                },
                _ => None,
            },
            None => None,
        },
        _ => None,
    }
}

/// The optional configuration echo inside a table record: an absent or null
/// `config` field is no echo; a present one must be well-formed.
pub open spec fn spec_table_config_of(v: JsonVal) -> Option<Option<TableConfigEcho>> {
    match spec_field(v, "config"@) {
        None => Some(None),
        Some(JsonVal::Null) => Some(None),
        Some(c) => match (spec_uint_field(c, "maxPlayers"@, 255), spec_uint_field(
            c,
            "smallBlind"@,
            0xffff_ffff,
        ), spec_uint_field(c, "bigBlind"@, 0xffff_ffff)) {
            (Some(mp), Some(sb), Some(bb)) => Some(
                Some(
                    TableConfigEcho {
                        max_players: mp as u8,
                        small_blind: sb as u32,
                        big_blind: bb as u32,
                    },
                ),
            ),
            _ => None,
        },
    }
}

fn table_config_of(v: &JsonVal) -> (r: Option<Option<TableConfigEcho>>)
    ensures
        r == spec_table_config_of(*v),
{
    match get_field(v, "config") {
        None => Some(None),
        Some(c) => match c {
            JsonVal::Null => Some(None),
            _ => {
                let mp = match uint_field(c, "maxPlayers", 255) {
                    Some(n) => n,
                    None => { return None; },
                };
                let sb = match uint_field(c, "smallBlind", 0xffff_ffff) {
                    Some(n) => n,
                    None => { return None; },
                };
                let bb = match uint_field(c, "bigBlind", 0xffff_ffff) {
                    Some(n) => n,
                    None => { return None; },
                };
                Some(
                    Some(
                        TableConfigEcho {
                            max_players: mp as u8,
                            small_blind: sb as u32,
                            big_blind: bb as u32,
                        },
                    ),
                )
            },
        },
    }
}

fn table_of(v: &JsonVal) -> (r: Option<Table>)
    ensures
        r == spec_table_of(*v),
{
    let id = match str_field(v, "id") {
        Some(s) => s,
        None => { return None; },
    };
    let name = match str_field(v, "name") {
        Some(s) => s,
        None => { return None; },
    };
    let player_count = match uint_field(v, "playerCount", 255) {
        Some(n) => n as u8,
        None => { return None; },
    };
    let max_players = match uint_field(v, "maxPlayers", 255) {
        Some(n) => n as u8,
        None => { return None; },
    };
    let game_phase = match str_field(v, "gamePhase") {
        Some(s) => s,
        None => { return None; },
    };
    let pot = match uint_field(v, "pot", 0xffff_ffff) {
        Some(n) => n as u32,
        None => { return None; },
    };
    let blinds_v = match get_field(v, "blinds") {
        Some(b) => b,
        None => { return None; },
    };
    let small = match uint_field(blinds_v, "small", 0xffff_ffff) {
        Some(n) => n as u32,
        None => { return None; },
    };
    let big = match uint_field(blinds_v, "big", 0xffff_ffff) {
        Some(n) => n as u32,
        None => { return None; },
    };
    let config = match table_config_of(v) {
        Some(c) => c,
        None => { return None; },
    };
    Some(
        Table {
            id,
            name,
            player_count,
            max_players,
            game_phase,
            pot,
            blinds: BlindsConfig { small, big },
            config,
        },
    )
}

/// The table list read out of a success envelope's data: every element must
/// be a well-formed table record.
pub open spec fn spec_table_seq(items: Seq<JsonVal>) -> Option<Seq<Table>>
    decreases items.len(),
{
    if items.len() == 0 {
        Some(Seq::empty())
    } else {
        match spec_table_seq(items.drop_last()) {
            Some(ts) => match spec_table_of(items.last()) {
                Some(t) => Some(ts.push(t)),
                None => None,
            },
            None => None,
        }
    }
}

proof fn lemma_table_seq_fail(items: Seq<JsonVal>, i: int)
    requires
        0 <= i < items.len(),
        spec_table_of(items[i]) is None,
    ensures
        spec_table_seq(items) is None,
    decreases items.len(),
{
    if i < items.len() - 1 {
        lemma_table_seq_fail(items.drop_last(), i);
    }
}

/// The tables carried by a success envelope's data value.
pub open spec fn spec_tables_of(d: JsonVal) -> Option<Seq<Table>> {
    match d {
        JsonVal::Arr(items) => spec_table_seq(items@),
        _ => None,
    }
}

/// How the body of a table-list response reads, as a function of its
/// characters: malformed text or content, a refusal with its message, or the
/// granted list (empty when the envelope carries no data).
pub open spec fn spec_read_tables(body: Seq<char>) -> EnvelopeReading<Seq<Table>> {
    match spec_json_parse(body) {
        None => EnvelopeReading::Malformed,
        Some(v) => match spec_bool_field(v, "success"@) {
            None => EnvelopeReading::Malformed,
            Some(false) => EnvelopeReading::Refused(spec_envelope_error_message(v)),
            Some(true) => match spec_envelope_data(v) {
                None => EnvelopeReading::Granted(Seq::empty()),
                Some(d) => match spec_tables_of(d) {
                    Some(ts) => EnvelopeReading::Granted(ts),
                    None => EnvelopeReading::Malformed,
                },
            },
        },
    }
}

/// Decodes the response of the table-list call. A non-success status fails
/// with the raw body; otherwise the result follows `spec_read_tables` of the
/// body: a parse failure is an `EnvelopeParse` error, a refusal surfaces its
/// message verbatim, and a grant yields exactly the decoded list — the empty
/// list when the envelope carries no data.
pub fn decode_tables_response(status: u16, body: &str) -> (r: Result<Vec<Table>, ApiError>)
    ensures
        !spec_status_success(status) ==> (r matches Err(ApiError::HttpStatus { body: b }) && b@
            == body@),
        spec_status_success(status) ==> match spec_read_tables(body@) {
            EnvelopeReading::Malformed => r matches Err(ApiError::EnvelopeParse { .. }),
            EnvelopeReading::Refused(m) => (r matches Err(ApiError::EnvelopeFailure { message })
                && message@ == m),
            EnvelopeReading::Granted(ts) => (r matches Ok(out) && out@ == ts),
        },
{
    if !status_success(status) {
        return Err(ApiError::HttpStatus { body: String::from_str(body) });
    }
    let v = match parse_body(body) {
        Some(v) => v,
        None => { return Err(parse_error("Malformed response envelope")); },
    };
    match bool_field(&v, "success") {
        None => Err(parse_error("Malformed response envelope")),
        Some(false) => Err(ApiError::EnvelopeFailure { message: envelope_error_message(&v) }),
        Some(true) => match get_field(&v, "data") {
            None => Ok(Vec::new()),
            Some(d) => match d {
                JsonVal::Null => Ok(Vec::new()),
                JsonVal::Arr(items) => {
                    let mut tables: Vec<Table> = Vec::new();
                    let n = items.len();
                    let mut i: usize = 0;
                    proof {
                        assert(items@.take(0) =~= Seq::<JsonVal>::empty());
                        assert(spec_read_tables(body@) == (match spec_table_seq(items@) {
                            Some(ts) => EnvelopeReading::Granted(ts),
                            None => EnvelopeReading::Malformed,
                        }));
                    }
                    while i < n
                        invariant
                            i <= n,
                            n == items@.len(),
                            spec_table_seq(items@.take(i as int)) == Some(tables@),
                            spec_status_success(status),
                            spec_read_tables(body@) == (match spec_table_seq(items@) {
                                Some(ts) => EnvelopeReading::Granted(ts),
                                None => EnvelopeReading::Malformed,
                            }),
                        decreases n - i,
                    {
                        match table_of(&items[i]) {
                            Some(t) => {
                                tables.push(t);
                                proof {
                                    assert(items@.take(i + 1).drop_last() =~= items@.take(i as int));
                                    assert(items@.take(i + 1).last() == items@[i as int]);
                                }
                            },
                            None => {
                                proof {
                                    lemma_table_seq_fail(items@, i as int);
                                }
                                return Err(parse_error("Malformed table record"));
                            },
                        }
                        i += 1;
                    }
                    proof {
                        assert(items@.take(n as int) =~= items@);
                    }
                    Ok(tables)
                },
                _ => Err(parse_error("Table list is not an array")),
            },
        },
    }
}

/// How the body of a table-creation response reads. A success envelope must
/// carry a well-formed table record: no default table exists, so — as the
/// envelope convention's empty-result allowance cannot apply here — absent
/// data reads as malformed.
pub open spec fn spec_read_created(body: Seq<char>) -> EnvelopeReading<Table> {
    match spec_json_parse(body) {
        None => EnvelopeReading::Malformed,
        Some(v) => match spec_bool_field(v, "success"@) {
            None => EnvelopeReading::Malformed,
            Some(false) => EnvelopeReading::Refused(spec_envelope_error_message(v)),
            Some(true) => match spec_envelope_data(v) {
                None => EnvelopeReading::Malformed,
                Some(d) => match spec_table_of(d) {
                    Some(t) => EnvelopeReading::Granted(t),
                    None => EnvelopeReading::Malformed,
                },
            },
        },
    }
}

/// Decodes the response of the table-creation call: the backend's richer
/// table record exactly as the envelope carried it.
pub fn decode_create_table_response(status: u16, body: &str) -> (r: Result<Table, ApiError>)
    ensures
        !spec_status_success(status) ==> (r matches Err(ApiError::HttpStatus { body: b }) && b@
            == body@),
        spec_status_success(status) ==> match spec_read_created(body@) {
            EnvelopeReading::Malformed => r matches Err(ApiError::EnvelopeParse { .. }),
            EnvelopeReading::Refused(m) => (r matches Err(ApiError::EnvelopeFailure { message })
                && message@ == m),
            EnvelopeReading::Granted(t) => r == Ok::<Table, ApiError>(t),
        },
{
    if !status_success(status) {
        return Err(ApiError::HttpStatus { body: String::from_str(body) });
    }
    let v = match parse_body(body) {
        Some(v) => v,
        None => { return Err(parse_error("Malformed response envelope")); },
    };
    match bool_field(&v, "success") {
        None => Err(parse_error("Malformed response envelope")),
        Some(false) => Err(ApiError::EnvelopeFailure { message: envelope_error_message(&v) }),
        Some(true) => match get_field(&v, "data") {
            None => Err(parse_error("No table data returned")),
            Some(d) => match d {
                JsonVal::Null => Err(parse_error("No table data returned")),
                _ => match table_of(d) {
                    Some(t) => Ok(t),
                    None => Err(parse_error("Malformed table record")),
                },
            },
        },
    }
}

/// How the body of a join response reads: the granted data travels onward as
/// its model value; absent data is the empty object.
pub open spec fn spec_read_join(body: Seq<char>) -> EnvelopeReading<Option<JsonVal>> {
    match spec_json_parse(body) {
        None => EnvelopeReading::Malformed,
        Some(v) => match spec_bool_field(v, "success"@) {
            None => EnvelopeReading::Malformed,
            Some(false) => EnvelopeReading::Refused(spec_envelope_error_message(v)),
            Some(true) => EnvelopeReading::Granted(spec_envelope_data(v)),
        },
    }
}

/// Decodes the response of the join call. The granted data is opaque to this
/// client and is handed onward as its parsed value; absent data becomes the
/// empty object.
pub fn decode_join_response(status: u16, body: &str) -> (r: Result<JsonVal, ApiError>)
    ensures
        !spec_status_success(status) ==> (r matches Err(ApiError::HttpStatus { body: b }) && b@
            == body@),
        spec_status_success(status) ==> match spec_read_join(body@) {
            EnvelopeReading::Malformed => r matches Err(ApiError::EnvelopeParse { .. }),
            EnvelopeReading::Refused(m) => (r matches Err(ApiError::EnvelopeFailure { message })
                && message@ == m),
            EnvelopeReading::Granted(d) => match d {
                Some(inner) => r == Ok::<JsonVal, ApiError>(inner),
                None => (r matches Ok(JsonVal::Obj(fields)) && fields@ == Seq::<(
                    String,
                    JsonVal,
                )>::empty()),
            },
        },
{
    if !status_success(status) {
        return Err(ApiError::HttpStatus { body: String::from_str(body) });
    }
    let v = match parse_body(body) {
        Some(v) => v,
        None => { return Err(parse_error("Malformed response envelope")); },
    };
    match bool_field(&v, "success") {
        None => Err(parse_error("Malformed response envelope")),
        Some(false) => Err(ApiError::EnvelopeFailure { message: envelope_error_message(&v) }),
        Some(true) => match v {
            JsonVal::Obj(mut fields) => {
                let data = take_field(&mut fields, "data");
                match data {
                    Some(d) => match d {
                        JsonVal::Null => Ok(JsonVal::Obj(Vec::new())),
                        _ => Ok(d),
                    },
                    None => Ok(JsonVal::Obj(Vec::new())),
                }
            },
            _ => Err(parse_error("Malformed response envelope")),
        },
    }
}

/// Removes and returns the first binding of `key` from an object's fields.
fn take_field(fields: &mut Vec<(String, JsonVal)>, key: &str) -> (r: Option<JsonVal>)
    ensures
        r == crate::json::spec_obj_get(old(fields)@, key@),
{
    let n = fields.len();
    let mut i: usize = 0;
    proof {
        assert(fields@.skip(0) =~= fields@);
    }
    while i < n
        invariant
            i <= n,
            n == fields@.len(),
            fields@ == old(fields)@,
            crate::json::spec_obj_get(old(fields)@, key@) == crate::json::spec_obj_get(
                fields@.skip(i as int),
                key@,
            ),
        decreases n - i,
    {
        proof {
            assert(fields@.skip(i as int)[0] == fields@[i as int]);
        }
        if crate::json::str_eq(fields[i].0.as_str(), key) {
            let (_, v) = fields.remove(i);
            return Some(v);
        }
        proof {
            assert(fields@.skip(i as int).skip(1) =~= fields@.skip(i + 1));
        }
        i += 1;
    }
    proof {
        assert(fields@.skip(n as int) =~= Seq::<(String, JsonVal)>::empty());
    }
    None
}

/// The flat login payload read out of the model: user record, token pair and
/// message are all required; the user's display name is optional.
pub open spec fn spec_login_payload_of(v: JsonVal) -> Option<LoginPayload> {
    match (spec_field(v, "user"@), spec_field(v, "tokens"@), spec_str_field(v, "message"@)) {
        (Some(u), Some(t), Some(message)) => match (spec_str_field(u, "id"@), spec_str_field(
            u,
            "username"@,
        ), spec_str_field(u, "email"@), spec_str_field(t, "accessToken"@), spec_str_field(
            t,
            "refreshToken"@,
        )) {
            (Some(id), Some(username), Some(email), Some(access), Some(refresh)) => Some(
                LoginPayload {
                    user: User { id, username, email, name: spec_str_field(u, "name"@) },
                    access_token: access,
                    refresh_token: refresh,
                    message,
                },
            ),
            _ => None,
        },
        _ => None,
    }
}

fn login_payload_of(v: &JsonVal) -> (r: Option<LoginPayload>)
    ensures
        r == spec_login_payload_of(*v),
{
    let user_v = match get_field(v, "user") {
        Some(u) => u,
        None => { return None; },
    };
    let tokens_v = match get_field(v, "tokens") {
        Some(t) => t,
        None => { return None; },
    };
    let message = match str_field(v, "message") {
        Some(s) => s,
        None => { return None; },
    };
    let id = match str_field(user_v, "id") {
        Some(s) => s,
        None => { return None; },
    };
    let username = match str_field(user_v, "username") {
        Some(s) => s,
        None => { return None; },
    };
    let email = match str_field(user_v, "email") {
        Some(s) => s,
        None => { return None; },
    };
    let name = str_field(user_v, "name");
    let access_token = match str_field(tokens_v, "accessToken") {
        Some(s) => s,
        None => { return None; },
    };
    let refresh_token = match str_field(tokens_v, "refreshToken") {
        Some(s) => s,
        None => { return None; },
    };
    Some(
        LoginPayload {
            user: User { id, username, email, name },
            access_token,
            refresh_token,
            message,
        },
    )
}

/// Decodes the login response and, on success, constructs the credential to
/// persist: the returned tokens with a locally computed expiry of exactly
/// the issuance time plus the 24-hour window. The payload handed back is the
/// parse of the wire body; a success-status body that does not parse is the
/// distinct parse error.
pub fn decode_login_response(status: u16, body: &str, now: i64) -> (r: Result<
    (LoginPayload, Credential),
    ApiError,
>)
    ensures
        !spec_status_success(status) ==> (r matches Err(ApiError::HttpStatus { body: b }) && b@
            == body@),
        spec_status_success(status) ==> match spec_json_parse(body@) {
            None => r matches Err(ApiError::EnvelopeParse { .. }),
            Some(v) => match spec_login_payload_of(v) {
                None => r matches Err(ApiError::EnvelopeParse { .. }),
                Some(p) => (r matches Ok((q, c)) && q == p && c.access_token == p.access_token
                    && c.refresh_token == p.refresh_token && c.expires_at == spec_expiry_from(now)),
            },
        },
{
    if !status_success(status) {
        return Err(ApiError::HttpStatus { body: String::from_str(body) });
    }
    let v = match parse_body(body) {
        Some(v) => v,
        None => { return Err(parse_error("Failed to parse response")); },
    };
    let payload = match login_payload_of(&v) {
        Some(p) => p,
        None => { return Err(parse_error("Failed to parse response")); },
    };
    let credential = Credential {
        access_token: payload.access_token.clone(),
        refresh_token: payload.refresh_token.clone(),
        expires_at: expiry_from(now),
    };
    Ok((payload, credential))
}

} // verus!
