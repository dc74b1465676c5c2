use transport_rest::encoding::{encode_component, encode_path_segment};
use transport_rest::request::{Coordinate, JourneyPlace, Query};

fn encode_of(f: impl FnOnce(&mut Query)) -> String {
    let mut q = Query::new();
    f(&mut q);
    q.encode()
}

#[test]
fn journey_place_encoding_forms() {
    let s = encode_of(|q| {
        JourneyPlace::StopId("8011160".into()).encode("from", q);
        JourneyPlace::Name("Leipzig Hbf".into()).encode("to", q);
    });
    assert!(s.contains("from=8011160"));
    assert!(s.contains("to.name=Leipzig%20Hbf"), "got {s}");
}

#[test]
fn poi_and_address_forms() {
    let s = encode_of(|q| {
        JourneyPlace::Poi {
            id: "p1".into(),
            latitude: Coordinate::new(51.5f64.to_string()),
            longitude: Coordinate::new(12.2f64.to_string()),
        }
        .encode("from", q);
    });
    assert_eq!(s, "from.id=p1&from.latitude=51.5&from.longitude=12.2");

    let s = encode_of(|q| {
        JourneyPlace::Address {
            latitude: Coordinate::new(52.5f64.to_string()),
            longitude: Coordinate::new(13.4f64.to_string()),
            address: "Alexanderplatz 1".into(),
        }
        .encode("via", q);
    });
    assert_eq!(
        s,
        "via.latitude=52.5&via.longitude=13.4&via.address=Alexanderplatz%201"
    );
}

#[test]
fn special_characters_are_escaped() {
    let s = encode_of(|q| q.push("query", "a&b=c d/e?".into()));
    assert_eq!(s, "query=a%26b%3Dc%20d%2Fe%3F");
}

#[test]
fn request_path_segments_are_percent_encoded() {
    let seg = encode_path_segment("2|#A|1#1005##");
    assert!(!seg.contains('#'));
    assert!(!seg.contains('/'));
}

#[test]
fn empty_query_encodes_to_nothing() {
    let q = Query::new();
    assert!(q.is_empty());
    assert_eq!(q.encode(), "");
}

#[test]
fn query_keeps_insertion_order_and_options() {
    let mut q = Query::new();
    q.push("b", "2".into());
    q.opt_bool("x", None);
    q.opt_bool("flag", Some(true));
    q.opt_int("n", Some(-42));
    q.opt_str("s", Some("ä".into()));
    q.push("a", "1".into());
    assert_eq!(q.encode(), "b=2&flag=true&n=-42&s=%C3%A4&a=1");
}

#[test]
fn component_encoding_keeps_unreserved_marks() {
    assert_eq!(encode_component("A-z_0.9*~+"), "A-z_0.9*%7E%2B");
    assert_eq!(encode_component("€"), "%E2%82%AC");
}

#[test]
fn path_segment_encoding_keeps_reserved_but_harmless_bytes() {
    assert_eq!(encode_path_segment("a|b:c"), "a|b:c");
    assert_eq!(encode_path_segment("x/y?z%"), "x%2Fy%3Fz%25");
    assert_eq!(encode_path_segment("a b\"c"), "a%20b%22c");
}

#[test]
fn places_are_validated() {
    let poi = JourneyPlace::Poi {
        id: "  ".into(),
        latitude: Coordinate::new("1".into()),
        longitude: Coordinate::new("2".into()),
    };
    match poi.validate() {
        Err(transport_rest::error::TransportRestError::InvalidParameter(p)) => {
            assert_eq!(p.parameter, Some("poi"));
            assert_eq!(p.reason, "POI id must not be empty");
        }
        other => panic!("unexpected {other:?}"),
    }
    let addr = JourneyPlace::Address {
        latitude: Coordinate::new("1".into()),
        longitude: Coordinate::new("2".into()),
        address: String::new(),
    };
    match addr.validate() {
        Err(transport_rest::error::TransportRestError::InvalidParameter(p)) => {
            assert_eq!(p.parameter, Some("address"));
        }
        other => panic!("unexpected {other:?}"),
    }
    assert!(JourneyPlace::Name("x".into()).validate().is_ok());
}
