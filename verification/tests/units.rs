use transport_rest::builder::{base_from_parsed, Timeout, TransportRestClientBuilder, DEFAULT_MAX_RESPONSE_BYTES, DEFAULT_USER_AGENT};
use transport_rest::client::TransportRestClient;
use transport_rest::encoding::encode_path_segment;
use transport_rest::error::TransportRestError;
use transport_rest::models::Mode;
use transport_rest::{Capability, Provider};

#[test]
fn open_enum_fallbacks_roundtrip() {
    assert_eq!(Mode::Train.as_str(), "train");
    assert_eq!(Mode::from_str_lossy("hyperloop"), Mode::Other("hyperloop".into()));
    assert!(!Mode::from_str_lossy("train").is_other());

    let mode = Mode::from_str_lossy("segway");
    assert_eq!(mode, Mode::Other("segway".into()));
    // writing the value back preserves the unknown text
    assert_eq!(mode.as_str(), "segway");
}

#[test]
fn client_builder_rejects_invalid_base_url() {
    let err = TransportRestClient::<()>::builder()
        .base_url("not a url".into())
        .build()
        .unwrap_err();
    assert!(matches!(err, TransportRestError::InvalidParameter(_)));
}

#[test]
fn custom_provider_requires_base_url() {
    let err = TransportRestClient::<()>::builder()
        .provider(Provider::Custom {
            base_url: String::new(),
        })
        .build()
        .unwrap_err();
    assert!(matches!(err, TransportRestError::InvalidParameter(_)));
}

#[test]
fn units_path_segments_are_percent_encoded() {
    let seg = encode_path_segment("2|#A|1#1005##");
    assert!(!seg.contains('#'));
    assert!(!seg.contains('/'));
}

fn reason_of(e: TransportRestError) -> (Option<&'static str>, String) {
    match e {
        TransportRestError::InvalidParameter(p) => (p.parameter, p.reason),
        other => panic!("unexpected {other:?}"),
    }
}

#[test]
fn builder_defaults_resolve_db_base_url() {
    let b = TransportRestClientBuilder::default();
    assert_eq!(b.user_agent, DEFAULT_USER_AGENT);
    assert_eq!(b.user_agent, "transport-rest-rs/0.1.0");
    assert_eq!(b.max_response_bytes, DEFAULT_MAX_RESPONSE_BYTES);
    assert_eq!(b.max_response_bytes, 16 * 1024 * 1024);
    let cfg = b.build().unwrap();
    assert_eq!(cfg.base_url, "https://v6.db.transport.rest/");
    assert!(matches!(cfg.provider, Provider::Db));
    assert!(cfg.capabilities.contains(Capability::Stations));
    assert!(!cfg.capabilities.contains(Capability::Radar));
    assert_eq!(cfg.timeout, Timeout::from_secs(30));
    assert_eq!(cfg.connect_timeout, Timeout::from_secs(10));
}

#[test]
fn builder_documented_example_for_bvg() {
    let cfg = TransportRestClient::<()>::builder()
        .provider(Provider::Bvg)
        .timeout(Timeout::from_secs(15))
        .user_agent("my-app/1.0 (+https://example.org)".into())
        .build()
        .unwrap();
    assert_eq!(cfg.base_url, "https://v6.bvg.transport.rest/");
    assert_eq!(cfg.timeout, Timeout::from_secs(15));
    assert_eq!(cfg.user_agent, "my-app/1.0 (+https://example.org)");
    for c in [
        Capability::Radar,
        Capability::ReachableFrom,
        Capability::TripsByName,
        Capability::StopsSearch,
    ] {
        assert!(cfg.capabilities.contains(c));
    }
    assert!(!cfg.capabilities.contains(Capability::Stations));
}

#[test]
fn explicit_base_url_is_cut_back_to_its_root() {
    let cfg = TransportRestClient::<()>::builder()
        .provider(Provider::Custom {
            base_url: "https://ignored.example".into(),
        })
        .base_url("HTTP://User@Example.ORG:8080/some/path?x=1#frag".into())
        .build()
        .unwrap();
    assert_eq!(cfg.base_url, "http://User@example.org:8080/");
    let cfg = TransportRestClient::<()>::builder()
        .provider(Provider::Custom {
            base_url: "https://my-instance.example.org/api/".into(),
        })
        .build()
        .unwrap();
    assert_eq!(cfg.base_url, "https://my-instance.example.org/");
}

#[test]
fn base_url_errors_name_the_problem() {
    let (p, r) = reason_of(
        TransportRestClient::<()>::builder()
            .base_url("not a url".into())
            .build()
            .unwrap_err(),
    );
    assert_eq!(p, Some("base_url"));
    assert_eq!(r, "'not a url' is not a valid absolute http(s) URL");
    let (p, r) = reason_of(
        TransportRestClient::<()>::builder()
            .base_url("ftp://example.org/".into())
            .build()
            .unwrap_err(),
    );
    assert_eq!(p, Some("base_url"));
    assert_eq!(r, "scheme must be http or https");
}

#[test]
fn max_response_bytes_is_at_least_one() {
    let b = TransportRestClient::<()>::builder().max_response_bytes(0);
    assert_eq!(b.max_response_bytes, 1);
    let b = b.max_response_bytes(77);
    assert_eq!(b.max_response_bytes, 77);
}

#[test]
fn enabling_a_capability_twice_records_it_once() {
    let b = TransportRestClient::<()>::builder()
        .enable_capability(Capability::Radar)
        .enable_capability(Capability::TripsByName)
        .enable_capability(Capability::Radar);
    assert_eq!(
        b.enabled_capabilities,
        vec![Capability::Radar, Capability::TripsByName]
    );
    let cfg = b.build().unwrap();
    assert!(cfg.capabilities.contains(Capability::Radar));
    assert!(cfg.capabilities.contains(Capability::TripsByName));
    assert!(cfg.capabilities.contains(Capability::Stations));
    assert!(!cfg.capabilities.contains(Capability::ReachableFrom));
}

#[test]
fn client_new_uses_the_defaults() {
    let c = TransportRestClient::new(7u8).unwrap();
    assert_eq!(c.handle, 7);
    assert_eq!(c.base_url(), "https://v6.db.transport.rest/");
    assert!(matches!(c.provider(), Provider::Db));
    assert!(c.supports(Capability::Stations));
}

#[test]
fn provider_defaults() {
    assert_eq!(Provider::Poland.default_base_url(), Some("https://poland.transport.rest"));
    assert_eq!(
        Provider::Custom { base_url: "x".into() }.default_base_url(),
        None
    );
    let caps = Provider::Poland.default_capabilities();
    assert!(caps.contains(Capability::Radar));
    assert!(!caps.contains(Capability::StopsSearch));
    assert_eq!(Capability::ReachableFrom.as_str(), "reachable_from");
}

#[test]
fn base_urls_are_decided_from_the_parsed_url() {
    assert_eq!(
        base_from_parsed("https://x.example/a?b", Some(("https".into(), "https://x.example/".into()))).unwrap(),
        "https://x.example/"
    );
    assert!(base_from_parsed("http://x", Some(("http".into(), "http://x/".into()))).is_ok());
    match base_from_parsed("ftp://x", Some(("ftp".into(), "ftp://x/".into()))) {
        Err(TransportRestError::InvalidParameter(p)) => assert_eq!(p.reason, "scheme must be http or https"),
        other => panic!("{other:?}"),
    }
    match base_from_parsed("not a url", None) {
        Err(TransportRestError::InvalidParameter(p)) => {
            assert_eq!(p.reason, "'not a url' is not a valid absolute http(s) URL")
        }
        other => panic!("{other:?}"),
    }
}
