use transport_rest::models::{
    operator_lenient_is_none, place_kind, stop_or_station_kind, DbProfile, Mode, Operator,
    OperatorValue, PlaceKind, PrognosisType, RemarkKind,
};
use transport_rest::products::ProductSelection;

#[test]
fn every_known_value_roundtrips() {
    for s in Mode::KNOWN {
        let m = Mode::from_str_lossy(s);
        assert!(!m.is_other());
        assert_eq!(m.as_str(), s);
    }
    for s in PrognosisType::KNOWN {
        assert_eq!(PrognosisType::from_str_lossy(s).as_str(), s);
    }
    for s in RemarkKind::KNOWN {
        assert_eq!(RemarkKind::from_str_lossy(s).as_str(), s);
    }
    for s in DbProfile::KNOWN {
        assert_eq!(DbProfile::from_str_lossy(s).as_str(), s);
    }
    assert_eq!(RemarkKind::from_str_lossy("stop-dhid"), RemarkKind::StopDhid);
    assert_eq!(DbProfile::from_str_lossy("dbweb"), DbProfile::Dbweb);
    assert!(PrognosisType::from_str_lossy("Calculated").is_other());
    assert_eq!(Mode::KNOWN.len(), 9);
}

#[test]
fn operators_arrive_in_three_shapes() {
    let o = Operator::from_lenient(OperatorValue::Object {
        id: Some("db-fernverkehr-ag".into()),
        name: Some("DB Fernverkehr AG".into()),
    });
    assert_eq!(o.id.as_deref(), Some("db-fernverkehr-ag"));
    assert_eq!(o.name.as_deref(), Some("DB Fernverkehr AG"));
    let o = Operator::from_lenient(OperatorValue::Number("796".into()));
    assert_eq!(o, Operator { id: Some("796".into()), name: None });
    let o = Operator::from_lenient(OperatorValue::Text("vbb".into()));
    assert_eq!(o, Operator { id: Some("vbb".into()), name: None });
    let o = Operator::from_lenient(OperatorValue::Other);
    assert_eq!(o, Operator::default());
    assert!(operator_lenient_is_none(&None));
    assert!(!operator_lenient_is_none(&Some(o)));
}

#[test]
fn place_tags_pick_the_variant() {
    assert_eq!(place_kind(Some("stop")), PlaceKind::Stop);
    assert_eq!(place_kind(Some("station")), PlaceKind::Station);
    assert_eq!(place_kind(Some("location")), PlaceKind::Location);
    assert_eq!(place_kind(None), PlaceKind::Location);
    assert_eq!(place_kind(Some("hovercraft")), PlaceKind::Other);
    assert_eq!(stop_or_station_kind(Some("stop")), PlaceKind::Stop);
    assert_eq!(stop_or_station_kind(None), PlaceKind::Other);
    assert_eq!(stop_or_station_kind(Some("location")), PlaceKind::Other);
}

#[test]
fn product_selection_keeps_first_position_and_last_value() {
    let p = ProductSelection::new()
        .bus(true)
        .tram(false)
        .set("bus".into(), false)
        .set("speedboat".into(), true)
        .national_express(true);
    let mut q = transport_rest::request::Query::new();
    p.encode(&mut q);
    assert_eq!(
        q.encode(),
        "bus=false&tram=false&speedboat=true&nationalExpress=true"
    );
    assert!(!p.is_empty());
    assert!(ProductSelection::new().is_empty());
    assert_eq!(ProductSelection::KNOWN_KEYS.len(), 11);
    assert_eq!(ProductSelection::KNOWN_KEYS[0], "nationalExpress");
}
