use transport_rest::error::{RetryDelay, SerializationErrorKind, TransportRestError};
use transport_rest::json::{member_str, JsonValue};
use transport_rest::response::{
    accept_chunk, check_content_length, classify_parsed, classify_response, error_from_response,
    parse_retry_after, parse_retry_after_at, parse_u64, truncate_snippet, wait_from_date,
};

const URL: &str = "https://v6.db.transport.rest/journeys";

#[test]
fn rate_limit_with_message_and_seconds() {
    let e = error_from_response(429, URL.into(), Some("120"), br#" {"message": "slow down"} "#);
    match e {
        TransportRestError::RateLimited(r) => {
            assert_eq!(r.api.status, 429);
            assert_eq!(r.api.url, URL);
            assert_eq!(r.api.message, "slow down");
            assert_eq!(r.api.body.as_deref(), Some(r#"{"message": "slow down"}"#));
            assert_eq!(r.retry_after, Some(RetryDelay { secs: 120, nanos: 0 }));
        }
        other => panic!("unexpected {other:?}"),
    }
}

#[test]
fn rate_limit_without_body_or_header() {
    match error_from_response(429, URL.into(), None, b"") {
        TransportRestError::RateLimited(r) => {
            assert_eq!(r.api.message, "rate limited");
            assert_eq!(r.api.body, None);
            assert_eq!(r.retry_after, None);
        }
        other => panic!("unexpected {other:?}"),
    }
}

#[test]
fn structured_errors_become_api_errors() {
    match error_from_response(400, URL.into(), Some("5"), br#"{"message":"bad from"}"#) {
        TransportRestError::Api(a) => {
            assert_eq!(a.status, 400);
            assert_eq!(a.message, "bad from");
        }
        other => panic!("unexpected {other:?}"),
    }
    match error_from_response(500, URL.into(), None, br#"{"error": true}"#) {
        TransportRestError::Api(a) => {
            assert_eq!(a.message, "unspecified API error");
            assert_eq!(a.body.as_deref(), Some(r#"{"error": true}"#));
        }
        other => panic!("unexpected {other:?}"),
    }
}

#[test]
fn other_bodies_become_http_errors() {
    match error_from_response(502, URL.into(), None, b"  <html>Bad Gateway</html>\n") {
        TransportRestError::Http(h) => {
            assert_eq!(h.status, 502);
            assert_eq!(h.method, "GET");
            assert_eq!(h.url, URL);
            assert_eq!(h.body_snippet, "<html>Bad Gateway</html>");
        }
        other => panic!("unexpected {other:?}"),
    }
    // JSON that is not an object and carries no message
    match classify_response(503, URL.into(), "[1, 2]", None) {
        TransportRestError::Http(h) => assert_eq!(h.body_snippet, "[1, 2]"),
        other => panic!("unexpected {other:?}"),
    }
    // invalid UTF-8 is decoded lossily
    match error_from_response(500, URL.into(), None, &[0x66, 0xff, 0x6f]) {
        TransportRestError::Http(h) => assert_eq!(h.body_snippet, "f\u{fffd}o"),
        other => panic!("unexpected {other:?}"),
    }
}

#[test]
fn snippets_are_cut_on_char_boundaries() {
    let short = "x".repeat(512);
    assert_eq!(truncate_snippet(&short), short);
    let long = "x".repeat(513);
    assert_eq!(truncate_snippet(&long), format!("{}…", "x".repeat(512)));
    // 511 ASCII bytes then a two-byte char that would straddle the limit
    let s = format!("{}é{}", "a".repeat(511), "b".repeat(10));
    assert_eq!(truncate_snippet(&s), format!("{}…", "a".repeat(511)));
    let s = "€".repeat(200);
    let t = truncate_snippet(&s);
    assert_eq!(t, format!("{}…", "€".repeat(170)));
    assert!(t.len() <= 512 + 3);
}

#[test]
fn retry_after_values() {
    assert_eq!(parse_retry_after_at("0", 0, 0), Some(RetryDelay { secs: 0, nanos: 0 }));
    assert_eq!(parse_retry_after_at("+7", 0, 0), Some(RetryDelay { secs: 7, nanos: 0 }));
    assert_eq!(parse_retry_after_at("-7", 0, 0), None);
    assert_eq!(parse_retry_after_at(" 7", 0, 0), None);
    assert_eq!(parse_retry_after_at("soon", 0, 0), None);
    // an HTTP date, measured from the given instant
    let date = "Wed, 21 Oct 2015 07:28:00 GMT";
    assert_eq!(
        parse_retry_after_at(date, 1_445_412_470, 500_000_000),
        Some(RetryDelay { secs: 9, nanos: 500_000_000 })
    );
    assert_eq!(parse_retry_after_at(date, 1_445_412_480, 0), None);
    assert_eq!(parse_retry_after_at(date, 1_445_412_490, 0), None);
    // a date long past, measured from now
    assert_eq!(parse_retry_after(date), None);
    assert_eq!(parse_retry_after("30"), Some(RetryDelay { secs: 30, nanos: 0 }));
}

#[test]
fn u64_parsing_follows_str_parse() {
    for s in ["0", "42", "+42", "18446744073709551615", "18446744073709551616", "", "+", "-1", "1_000", "٣"] {
        assert_eq!(parse_u64(s), s.parse::<u64>().ok(), "{s:?}");
    }
}

fn schema_message(e: TransportRestError) -> (Option<String>, String) {
    match e {
        TransportRestError::Serialization(s) => match s.source {
            SerializationErrorKind::Schema(m) => (s.url, m),
            other => panic!("unexpected {other:?}"),
        },
        other => panic!("unexpected {other:?}"),
    }
}

#[test]
fn announced_length_is_checked_against_the_cap() {
    assert!(check_content_length(None, 10, &None).is_ok());
    assert!(check_content_length(Some(10), 10, &None).is_ok());
    let e = check_content_length(Some(11), 10, &Some(URL.into())).unwrap_err();
    assert_eq!(
        schema_message(e),
        (
            Some(URL.to_owned()),
            "response of 11 bytes exceeds configured maximum of 10 bytes".to_owned()
        )
    );
}

#[test]
fn chunks_are_accepted_up_to_the_cap() {
    let mut buf = Vec::new();
    assert!(accept_chunk(&mut buf, b"hello", 8, &None).is_ok());
    assert!(accept_chunk(&mut buf, b"abc", 8, &None).is_ok());
    assert_eq!(buf, b"helloabc");
    let e = accept_chunk(&mut buf, b"!", 8, &None).unwrap_err();
    assert_eq!(
        schema_message(e),
        (None, "response exceeds configured maximum of 8 bytes".to_owned())
    );
    assert_eq!(buf, b"helloabc");
}

#[test]
fn waits_until_a_date_count_like_chrono() {
    assert_eq!(wait_from_date(None, 0, 0), None);
    assert_eq!(wait_from_date(Some((10, 0)), 10, 0), None);
    assert_eq!(wait_from_date(Some((10, 0)), 11, 0), None);
    assert_eq!(wait_from_date(Some((10, 250)), 9, 500), Some(RetryDelay { secs: 0, nanos: 999_999_750 }));
    assert_eq!(wait_from_date(Some((-5, 0)), 0, 0), None);
    // a leap second at the end of a day, seen from a later time of day
    assert_eq!(
        wait_from_date(Some((86_500, 1_200_000_000)), 200, 0),
        Some(RetryDelay { secs: 86_300, nanos: 200_000_000 })
    );
    // a leap second, read from an HTTP date
    let leap = "Wed, 21 Oct 2015 23:59:60 GMT";
    assert_eq!(parse_retry_after_at(leap, 1_445_471_999, 0), Some(RetryDelay { secs: 1, nanos: 0 }));
    assert_eq!(parse_retry_after_at(leap, 1_445_472_000, 0), None);
    // a date far ahead, measured from the clock
    let later = parse_retry_after("Fri, 01 Jan 2100 00:00:00 GMT").unwrap();
    assert!(later.secs > 1_000_000_000 && later.nanos < 1_000_000_000);
}

#[test]
fn messages_are_read_from_the_message_member() {
    let v = JsonValue::Object(vec![
        ("error".to_string(), JsonValue::Str("no".into())),
        ("message".to_string(), JsonValue::Str("yes".into())),
    ]);
    assert_eq!(member_str(&v, "message"), Some("yes".to_string()));
    assert_eq!(member_str(&v, "error"), Some("no".to_string()));
    assert_eq!(member_str(&v, "other"), None);
    assert_eq!(member_str(&JsonValue::Str("message".into()), "message"), None);
    let n = JsonValue::Object(vec![("message".to_string(), JsonValue::Number("1".into()))]);
    assert_eq!(member_str(&n, "message"), None);

    match classify_parsed(500, URL.into(), r#"{"error": "x"}"#, Some(JsonValue::Object(vec![(
        "error".to_string(),
        JsonValue::Str("x".into()),
    )])), None) {
        TransportRestError::Api(a) => {
            assert_eq!(a.message, "unspecified API error");
            assert_eq!(a.body.as_deref(), Some(r#"{"error": "x"}"#));
        }
        other => panic!("{other:?}"),
    }
    match classify_parsed(500, URL.into(), "null", Some(JsonValue::Null), None) {
        TransportRestError::Http(h) => assert_eq!(h.body_snippet, "null"),
        other => panic!("{other:?}"),
    }
    match classify_parsed(429, URL.into(), "null", Some(JsonValue::Null), None) {
        TransportRestError::RateLimited(r) => {
            assert_eq!(r.api.message, "rate limited");
            assert_eq!(r.api.body, None);
        }
        other => panic!("{other:?}"),
    }
    match classify_response(503, URL.into(), r#" {"message": "down", "error": true} "#, None) {
        TransportRestError::Api(a) => assert_eq!(a.message, "down"),
        other => panic!("{other:?}"),
    }
}
