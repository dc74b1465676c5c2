use transport_rest::error::{
    ApiError, CapabilityNotSupportedError, HttpError, InvalidParameterError, NetworkError,
    RateLimitedError, RetryDelay, SerializationError, TimeoutError, TimeoutKind,
    TransportRestError, map_transport_error,
};
use transport_rest::{Capability, Provider};

#[test]
fn parameter_and_capability_messages() {
    let e = InvalidParameterError::new("latitude", "must be within [-90, 90]".into());
    assert_eq!(e.to_text(), "invalid parameter 'latitude': must be within [-90, 90]");
    let e = InvalidParameterError::other("x".into());
    assert_eq!(e.to_text(), "invalid parameter '<none>': x");
    let e = CapabilityNotSupportedError { capability: Capability::Radar, provider: Provider::Db };
    assert_eq!(
        e.to_text(),
        "capability 'radar' is not supported by provider 'Db'; enable it explicitly via TransportRestClientBuilder::enable_capability if you know the endpoint exists"
    );
    let e = CapabilityNotSupportedError {
        capability: Capability::Stations,
        provider: Provider::Custom { base_url: "a\"b".into() },
    };
    assert!(e.to_text().contains(&format!("{:?}", Provider::Custom { base_url: "a\"b".into() })));
}

#[test]
fn transport_failures_are_classified() {
    match map_transport_error(Some("u".into()), true, true, "m".into()) {
        TransportRestError::Timeout(t) => {
            assert_eq!(t.kind, TimeoutKind::Connect);
            assert_eq!(t.to_text(), "request timed out (connect) for u: m");
        }
        other => panic!("unexpected {other:?}"),
    }
    match map_transport_error(None, true, false, "m".into()) {
        TransportRestError::Timeout(t) => assert_eq!(t.to_text(), "request timed out (request): m"),
        other => panic!("unexpected {other:?}"),
    }
    match map_transport_error(None, false, true, "dns".into()) {
        TransportRestError::Network(n) => assert_eq!(n.to_text(), "network error: dns"),
        other => panic!("unexpected {other:?}"),
    }
    let n = NetworkError { url: Some("u".into()), message: "tls".into() };
    assert_eq!(n.to_text(), "network error for u: tls");
    let t = TimeoutError { kind: TimeoutKind::Request, url: None, message: "x".into() };
    assert_eq!(t.kind.as_str(), "request");
}

#[test]
fn response_error_messages() {
    let h = HttpError { status: 502, method: "GET".into(), url: "u".into(), body_snippet: "b".into() };
    assert_eq!(h.to_text(), "unexpected HTTP response: HTTP 502 from GET u: b");
    let a = ApiError { status: 400, url: "u".into(), message: "bad".into(), body: None };
    assert_eq!(a.to_text(), "bad");
    let r = RateLimitedError {
        api: ApiError { status: 429, url: "u".into(), message: "slow".into(), body: None },
        retry_after: Some(RetryDelay { secs: 1, nanos: 500_000_000 }),
    };
    assert_eq!(r.to_text(), "rate limited (HTTP 429), retry after 1.5s: slow");
    let r = RateLimitedError {
        api: ApiError { status: 429, url: "u".into(), message: "slow".into(), body: None },
        retry_after: None,
    };
    assert_eq!(r.to_text(), "rate limited (HTTP 429): slow");
    let s = SerializationError::invalid_json("eof".into(), Some("u".into()));
    assert_eq!(s.to_text(), "failed to deserialize response for u: body is not valid JSON");
    let s = SerializationError::schema("missing field `id`".into(), None);
    assert_eq!(
        s.to_text(),
        "failed to deserialize response: response did not match expected schema: missing field `id`"
    );
    let e = TransportRestError::Serialization(s);
    assert!(e.to_text().starts_with("failed to deserialize response"));
}
