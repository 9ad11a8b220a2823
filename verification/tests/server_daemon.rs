use mortimeriot::server::daemon::admit_ingest;
use mortimeriot::protocol::WeatherHistoryQuery;
use mortimeriot::server::daemon::{
    authorize_ingest, header_value_is_text, history_limit, history_request, millis_from_parsed,
    parse_rfc3339_to_ms, valid_api_key, ApiError, HistoryRequest, DEFAULT_HISTORY_LIMIT,
    MAX_HISTORY_LIMIT,
};

fn unauthorized_message(r: Result<(), ApiError>) -> String {
    match r {
        Err(ApiError::Unauthorized(m)) => m,
        other => panic!("expected an unauthorized refusal, got {other:?}"),
    }
}

fn bad_request_message<T: std::fmt::Debug>(r: Result<T, ApiError>) -> String {
    match r {
        Err(ApiError::BadRequest(m)) => m,
        other => panic!("expected a bad request, got {other:?}"),
    }
}

#[test]
fn api_key_comparison() {
    assert!(valid_api_key("secret", "secret"));
    assert!(!valid_api_key("secret", "secreT"));
    assert!(!valid_api_key("secret", "secret2"));
    assert!(!valid_api_key("secret", ""));
    assert!(valid_api_key("", ""));
    assert!(valid_api_key("clé", "clé"));
    assert!(!valid_api_key("clé", "cle"));
}

#[test]
fn header_text_check() {
    assert!(header_value_is_text(b"abc DEF\t~!"));
    assert!(header_value_is_text(b""));
    assert!(!header_value_is_text(b"abc\x01"));
    assert!(!header_value_is_text(b"\x7f"));
    assert!(!header_value_is_text("clé".as_bytes()));
}

#[test]
fn ingest_without_header_is_refused() {
    assert_eq!(unauthorized_message(authorize_ingest("k", None)), "missing API key header");
}

#[test]
fn ingest_with_binary_header_is_refused() {
    assert_eq!(
        unauthorized_message(authorize_ingest("k", Some(&b"k\x80"[..]))),
        "invalid API key header encoding"
    );
}

#[test]
fn ingest_with_wrong_key_is_refused() {
    assert_eq!(
        unauthorized_message(authorize_ingest("secret", Some(&b"guess"[..]))),
        "invalid API key"
    );
}

#[test]
fn ingest_with_right_key_is_accepted() {
    assert!(authorize_ingest("secret", Some(&b"secret"[..])).is_ok());
}

#[test]
fn error_constructors_and_answers() {
    let (status, body) = ApiError::bad_request("bad input").into_status_and_body();
    assert_eq!((status, body.code.as_str(), body.message.as_str()), (400, "bad_request", "bad input"));
    let (status, body) = ApiError::unauthorized("no key").into_status_and_body();
    assert_eq!((status, body.code.as_str(), body.message.as_str()), (401, "unauthorized", "no key"));
    let (status, body) = ApiError::not_found().into_status_and_body();
    assert_eq!(
        (status, body.code.as_str(), body.message.as_str()),
        (404, "not_found", "route does not exist")
    );
    let (status, body) = ApiError::internal("disk on fire".to_owned()).into_status_and_body();
    assert_eq!(
        (status, body.code.as_str(), body.message.as_str()),
        (500, "internal_error", "unexpected server error")
    );
}

#[test]
fn history_limit_defaults_and_caps() {
    assert_eq!(history_limit(None), DEFAULT_HISTORY_LIMIT);
    assert_eq!(history_limit(None), 1000);
    assert_eq!(history_limit(Some(5)), 5);
    assert_eq!(history_limit(Some(0)), 0);
    assert_eq!(history_limit(Some(10_000)), MAX_HISTORY_LIMIT);
    assert_eq!(history_limit(Some(10_001)), 10_000);
    assert_eq!(history_limit(Some(u32::MAX)), 10_000);
}

#[test]
fn parsed_nanos_become_millis_toward_zero() {
    assert_eq!(millis_from_parsed(Some(1_999_999)).unwrap(), 1);
    assert_eq!(millis_from_parsed(Some(-1_999_999)).unwrap(), -1);
    assert_eq!(millis_from_parsed(Some(-999_999)).unwrap(), 0);
    assert_eq!(millis_from_parsed(Some(0)).unwrap(), 0);
    assert_eq!(bad_request_message(millis_from_parsed(None)), "invalid RFC3339 timestamp");
    assert_eq!(
        bad_request_message(millis_from_parsed(Some(i128::MAX))),
        "timestamp is out of range"
    );
    assert_eq!(
        bad_request_message(millis_from_parsed(Some(i128::MIN))),
        "timestamp is out of range"
    );
}

#[test]
fn rfc3339_parameters_become_millis() {
    assert_eq!(parse_rfc3339_to_ms(None).unwrap(), None);
    assert_eq!(parse_rfc3339_to_ms(Some("2026-07-21T12:00:00Z")).unwrap(), Some(1_784_635_200_000));
    assert_eq!(
        parse_rfc3339_to_ms(Some("2026-07-21T14:00:00.5+02:00")).unwrap(),
        Some(1_784_635_200_500)
    );
    assert_eq!(parse_rfc3339_to_ms(Some("1970-01-01T00:00:00Z")).unwrap(), Some(0));
    assert_eq!(
        bad_request_message(parse_rfc3339_to_ms(Some("yesterday"))),
        "invalid RFC3339 timestamp"
    );
}

#[test]
fn stored_millis_round_trip_through_parameters() {
    for ms in [0i64, 1, -1, 1_784_635_200_123, i64::MAX, i64::MIN] {
        let nanos = mortimeriot::server::db::millis_to_unix_nanos(ms);
        assert_eq!(millis_from_parsed(Some(nanos)).unwrap(), ms);
    }
}

#[test]
fn history_request_reads_query_string() {
    let query = WeatherHistoryQuery {
        from: Some("2026-07-21T12:00:00Z".to_owned()),
        to: None,
        limit: Some(20_000),
        cursor: Some(42),
    };
    assert_eq!(
        history_request(&query).unwrap(),
        HistoryRequest { from_ms: Some(1_784_635_200_000), to_ms: None, cursor: Some(42), limit: 10_000 }
    );
    let empty = WeatherHistoryQuery { from: None, to: None, limit: None, cursor: None };
    assert_eq!(
        history_request(&empty).unwrap(),
        HistoryRequest { from_ms: None, to_ms: None, cursor: None, limit: 1000 }
    );
    let bad = WeatherHistoryQuery { from: None, to: Some("soon".to_owned()), limit: None, cursor: None };
    assert_eq!(bad_request_message(history_request(&bad)), "invalid RFC3339 timestamp");
}

#[test]
fn ingest_checks_key_before_measurement() {
    // A wrong key is refused as unauthorized even when the measurement is invalid.
    match admit_ingest("secret", Some(&b"guess"[..]), Err("wind speed cannot be negative")) {
        Err(ApiError::Unauthorized(m)) => assert_eq!(m, "invalid API key"),
        other => panic!("expected an unauthorized refusal, got {other:?}"),
    }
    match admit_ingest("secret", None, Err("humidity is out of supported sensor range")) {
        Err(ApiError::Unauthorized(m)) => assert_eq!(m, "missing API key header"),
        other => panic!("expected an unauthorized refusal, got {other:?}"),
    }
    // The right key lets the measurement's own refusal through.
    assert_eq!(
        bad_request_message(admit_ingest(
            "secret",
            Some(&b"secret"[..]),
            Err("temperature is out of supported sensor range")
        )),
        "temperature is out of supported sensor range"
    );
    assert!(admit_ingest("secret", Some(&b"secret"[..]), Ok(())).is_ok());
}

#[test]
fn rfc3339_extremes_are_never_out_of_range() {
    assert_eq!(
        parse_rfc3339_to_ms(Some("0000-01-01T00:00:00+23:59")).unwrap(),
        Some(-62_167_305_540_000)
    );
    assert_eq!(
        parse_rfc3339_to_ms(Some("9999-12-31T23:59:59.999999999-23:59")).unwrap(),
        Some(253_402_387_139_999)
    );
    assert_eq!(
        bad_request_message(parse_rfc3339_to_ms(Some("2026-07-21"))),
        "invalid RFC3339 timestamp"
    );
    assert_eq!(
        bad_request_message(parse_rfc3339_to_ms(Some("10000-01-01T00:00:00Z"))),
        "invalid RFC3339 timestamp"
    );
}
