use primo_client::envelope::{
    decode_create_table_response, decode_join_response, decode_login_response,
    decode_tables_response, fallback_error_message,
};
use primo_client::errors::ApiError;
use primo_client::json::JsonVal;

const ONE_TABLE: &str = "{\"success\":true,\"data\":[{\"id\":\"t1\",\"name\":\"Main\",\"playerCount\":3,\"maxPlayers\":9,\"gamePhase\":\"waiting\",\"pot\":150,\"blinds\":{\"small\":5,\"big\":10}}]}";

#[test]
fn failure_envelope_reports_its_message() {
    let r = decode_tables_response(200, "{\"success\":false,\"error\":{\"message\":\"X\"}}");
    assert_eq!(r, Err(ApiError::EnvelopeFailure { message: "X".to_string() }));
}

#[test]
fn failure_envelope_without_error_uses_fallback() {
    let r = decode_tables_response(200, "{\"success\":false}");
    assert_eq!(
        r,
        Err(ApiError::EnvelopeFailure { message: "Unknown error".to_string() })
    );
    assert_eq!(fallback_error_message(), "Unknown error");
}

#[test]
fn failure_envelope_with_non_text_message_uses_fallback() {
    let r = decode_tables_response(200, "{\"success\":false,\"error\":{\"message\":7}}");
    assert_eq!(
        r,
        Err(ApiError::EnvelopeFailure { message: "Unknown error".to_string() })
    );
}

#[test]
fn success_envelope_without_data_is_empty_list() {
    let r = decode_tables_response(200, "{\"success\":true}").unwrap();
    assert!(r.is_empty());
    let r2 = decode_tables_response(200, "{\"success\":true,\"data\":null}").unwrap();
    assert!(r2.is_empty());
}

#[test]
fn success_envelope_with_tables_is_decoded() {
    let tables = decode_tables_response(200, ONE_TABLE).unwrap();
    assert_eq!(tables.len(), 1);
    let t = &tables[0];
    assert_eq!(t.id, "t1");
    assert_eq!(t.name, "Main");
    assert_eq!(t.player_count, 3);
    assert_eq!(t.max_players, 9);
    assert_eq!(t.game_phase, "waiting");
    assert_eq!(t.pot, 150);
    assert_eq!(t.blinds.small, 5);
    assert_eq!(t.blinds.big, 10);
    assert!(t.config.is_none());
}

#[test]
fn table_config_echo_is_decoded() {
    let body = "{\"success\":true,\"data\":{\"id\":\"t2\",\"name\":\"N\",\"playerCount\":0,\"maxPlayers\":6,\"gamePhase\":\"waiting\",\"pot\":0,\"blinds\":{\"small\":1,\"big\":2},\"config\":{\"maxPlayers\":6,\"smallBlind\":1,\"bigBlind\":2}}}";
    let t = decode_create_table_response(200, body).unwrap();
    let echo = t.config.expect("config echo expected");
    assert_eq!(echo.max_players, 6);
    assert_eq!(echo.small_blind, 1);
    assert_eq!(echo.big_blind, 2);
}

#[test]
fn malformed_envelope_is_a_parse_error() {
    assert!(matches!(
        decode_tables_response(200, "{}"),
        Err(ApiError::EnvelopeParse { .. })
    ));
    assert!(matches!(
        decode_tables_response(200, "no json"),
        Err(ApiError::EnvelopeParse { .. })
    ));
}

#[test]
fn malformed_table_record_is_a_parse_error() {
    let body = "{\"success\":true,\"data\":[{\"id\":\"t1\"}]}";
    assert!(matches!(
        decode_tables_response(200, body),
        Err(ApiError::EnvelopeParse { .. })
    ));
}

#[test]
fn out_of_range_player_count_is_rejected() {
    let body = "{\"success\":true,\"data\":[{\"id\":\"t\",\"name\":\"n\",\"playerCount\":300,\"maxPlayers\":9,\"gamePhase\":\"p\",\"pot\":0,\"blinds\":{\"small\":1,\"big\":2}}]}";
    assert!(matches!(
        decode_tables_response(200, body),
        Err(ApiError::EnvelopeParse { .. })
    ));
}

#[test]
fn non_success_status_fails_with_raw_body() {
    let r = decode_tables_response(500, "oops");
    assert_eq!(r, Err(ApiError::HttpStatus { body: "oops".to_string() }));
    let r2 = decode_create_table_response(403, "denied");
    assert_eq!(r2, Err(ApiError::HttpStatus { body: "denied".to_string() }));
}

#[test]
fn create_without_data_is_an_error() {
    let r = decode_create_table_response(200, "{\"success\":true}");
    assert!(matches!(r, Err(ApiError::EnvelopeParse { .. })));
}

#[test]
fn join_without_data_yields_empty_object() {
    assert_eq!(
        decode_join_response(200, "{\"success\":true}").unwrap(),
        JsonVal::Obj(vec![])
    );
    assert_eq!(
        decode_join_response(200, "{\"success\":true,\"data\":null}").unwrap(),
        JsonVal::Obj(vec![])
    );
}

#[test]
fn join_data_travels_onward_as_its_parsed_value() {
    let r = decode_join_response(200, "{\"success\":true,\"data\":{\"seat\":2}}").unwrap();
    assert_eq!(
        r,
        JsonVal::Obj(vec![(
            "seat".to_string(),
            JsonVal::Num { as_int: Some(2), as_uint: Some(2) }
        )])
    );
}

#[test]
fn join_failure_envelope_reports_message() {
    let r = decode_join_response(200, "{\"success\":false,\"error\":{\"message\":\"table full\"}}");
    assert_eq!(
        r,
        Err(ApiError::EnvelopeFailure { message: "table full".to_string() })
    );
}

#[test]
fn login_decode_builds_credential_from_tokens() {
    let body = "{\"user\":{\"id\":\"u\",\"username\":\"n\",\"email\":\"e\"},\"tokens\":{\"accessToken\":\"A\",\"refreshToken\":\"R\"},\"message\":\"m\"}";
    let (payload, cred) = decode_login_response(200, body, 500).unwrap();
    assert_eq!(cred.access_token, payload.access_token);
    assert_eq!(cred.refresh_token, payload.refresh_token);
    assert_eq!(cred.expires_at, 500 + 86_400_000);
}
