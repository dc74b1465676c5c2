use transport_rest::decimal::coordinate_within;
use transport_rest::client::{RequestPlan, TransportRestClient};
use transport_rest::datetime::DateTimeOffset;
use transport_rest::error::TransportRestError;
use transport_rest::request::{Coordinate, JourneyPlace};
use transport_rest::{Capability, Provider};

fn client(p: Provider) -> TransportRestClient<()> {
    let cfg = TransportRestClient::<()>::builder().provider(p).build().unwrap();
    TransportRestClient::from_parts((), cfg)
}

fn c(t: &str) -> Coordinate {
    Coordinate::new(t.to_owned())
}

fn url(cl: &TransportRestClient<()>, plan: RequestPlan) -> String {
    cl.url_for(plan).unwrap()
}

fn invalid(e: TransportRestError) -> (Option<&'static str>, String) {
    match e {
        TransportRestError::InvalidParameter(p) => (p.parameter, p.reason),
        other => panic!("unexpected {other:?}"),
    }
}

#[test]
fn locations_plan_and_url() {
    let cl = client(Provider::Db);
    let plan = cl
        .locations()
        .query("Berlin Hbf".into())
        .results(3)
        .fuzzy(false)
        .plan()
        .unwrap();
    assert_eq!(plan.path, "/locations");
    assert_eq!(
        url(&cl, plan),
        "https://v6.db.transport.rest/locations?query=Berlin%20Hbf&fuzzy=false&results=3"
    );
    let e = cl.locations().query("   ".into()).plan().unwrap_err();
    assert_eq!(invalid(e), (Some("query"), "a non-empty search term is required".into()));
}

#[test]
fn url_without_parameters_has_no_query() {
    let cl = client(Provider::Db);
    let plan = cl.stop("8010159".into()).plan().unwrap();
    assert_eq!(url(&cl, plan), "https://v6.db.transport.rest/stops/8010159");
}

#[test]
fn trip_ids_stay_one_path_segment() {
    let cl = client(Provider::Db);
    let plan = cl.trip("2|#A|1#1005##/x".into()).stopovers(true).plan().unwrap();
    assert_eq!(plan.path, "/trips/2|%23A|1%231005%23%23%2Fx");
    assert_eq!(
        url(&cl, plan),
        "https://v6.db.transport.rest/trips/2|%23A|1%231005%23%23%2Fx?stopovers=true"
    );
}

#[test]
fn nearby_checks_coordinates() {
    let cl = client(Provider::Bvg);
    let plan = cl
        .nearby()
        .latitude(c("52.52"))
        .longitude(c("13.4"))
        .distance(400)
        .plan()
        .unwrap();
    assert_eq!(plan.path, "/locations/nearby");
    assert_eq!(plan.query.encode(), "latitude=52.52&longitude=13.4&distance=400");

    let e = cl.nearby().latitude(c("52.5")).plan().unwrap_err();
    assert_eq!(invalid(e), (None, "latitude and longitude are both required".into()));
    let e = cl.nearby().latitude(c("90.0000001")).longitude(c("0")).plan().unwrap_err();
    assert_eq!(invalid(e), (Some("latitude"), "must be within [-90, 90]".into()));
    let e = cl.nearby().latitude(c("NaN")).longitude(c("0")).plan().unwrap_err();
    assert_eq!(invalid(e), (Some("latitude"), "must be within [-90, 90]".into()));
    let e = cl.nearby().latitude(c("0")).longitude(c("-180.5")).plan().unwrap_err();
    assert_eq!(invalid(e), (Some("longitude"), "must be within [-180, 180]".into()));
    // the bounds themselves are accepted
    assert!(cl.nearby().latitude(c("-90")).longitude(c("180")).plan().is_ok());
    assert!(cl.nearby().latitude(c("-0")).longitude(c("-180")).plan().is_ok());
    let e = cl.nearby().latitude(c("inf")).longitude(c("0")).plan().unwrap_err();
    assert_eq!(invalid(e).0, Some("latitude"));
}

#[test]
fn coordinates_from_floats_compare_as_floats() {
    let cl = client(Provider::Bvg);
    for (lat, ok) in [(89.99999999999999f64, true), (90.0, true), (90.00000000000001, false), (-90.0, true), (f64::NAN, false), (1e-7, true), (-1e-300, true)] {
        let r = cl
            .nearby()
            .latitude(Coordinate::new(lat.to_string()))
            .longitude(Coordinate::new(0.0f64.to_string()))
            .plan();
        assert_eq!(r.is_ok(), ok, "latitude {lat}");
        assert_eq!(r.is_ok(), (-90.0..=90.0).contains(&lat));
    }
}

#[test]
fn radar_needs_the_capability_and_a_box() {
    let db = client(Provider::Db);
    match db.radar().plan().unwrap_err() {
        TransportRestError::CapabilityNotSupported(e) => {
            assert_eq!(e.capability, Capability::Radar);
            assert!(matches!(e.provider, Provider::Db));
        }
        other => panic!("unexpected {other:?}"),
    }
    let cl = client(Provider::Bvg);
    let e = cl.radar().north(c("52.52")).plan().unwrap_err();
    assert_eq!(invalid(e), (None, "north, west, south and east are all required".into()));
    let e = cl
        .radar()
        .north(c("52.5"))
        .south(c("52.6"))
        .west(c("13.3"))
        .east(c("13.4"))
        .plan()
        .unwrap_err();
    assert_eq!(
        invalid(e),
        (None, "bounding box is invalid: require south <= north and west <= east".into())
    );
    let plan = cl
        .radar()
        .north(c("52.52"))
        .west(c("13.3"))
        .south(c("52.5"))
        .east(c("13.45"))
        .results(10)
        .products(|p| p.bus(false))
        .plan()
        .unwrap();
    assert_eq!(plan.path, "/radar");
    assert_eq!(
        plan.query.encode(),
        "north=52.52&west=13.3&south=52.5&east=13.45&results=10&bus=false"
    );
    // an empty product selection adds nothing
    let plan = cl
        .radar()
        .north(c("1"))
        .west(c("-1.5"))
        .south(c("-1"))
        .east(c("-1.25"))
        .products(|p| p)
        .plan()
        .unwrap();
    assert_eq!(plan.query.encode(), "north=1&west=-1.5&south=-1&east=-1.25");
}

#[test]
fn reachable_from_checks_range() {
    let cl = client(Provider::Vbb);
    let e = cl
        .reachable_from()
        .latitude(c("52.5"))
        .longitude(c("181"))
        .plan()
        .unwrap_err();
    assert_eq!(invalid(e), (None, "coordinates out of range".into()));
    let when = DateTimeOffset::new(1_700_000_000, 0, 3600).unwrap();
    let plan = cl
        .reachable_from()
        .latitude(c("52.5"))
        .longitude(c("13.4"))
        .when(when)
        .max_duration(20)
        .plan()
        .unwrap();
    assert_eq!(plan.path, "/stops/reachable-from");
    assert_eq!(
        plan.query.encode(),
        "latitude=52.5&longitude=13.4&when=2023-11-14T23%3A13%3A20%2B01%3A00&maxDuration=20"
    );
    assert!(matches!(
        client(Provider::Db).reachable_from().plan(),
        Err(TransportRestError::CapabilityNotSupported(_))
    ));
}

#[test]
fn journeys_plan_places_and_conflicts() {
    let cl = client(Provider::Db);
    let plan = cl
        .journeys(
            JourneyPlace::StopId("8011160".into()),
            JourneyPlace::Name("Leipzig Hbf".into()),
        )
        .results(2)
        .plan()
        .unwrap();
    assert_eq!(plan.path, "/journeys");
    assert_eq!(plan.query.encode(), "from=8011160&to.name=Leipzig%20Hbf&results=2");
    let t = DateTimeOffset::new(0, 0, 0).unwrap();
    let e = cl
        .journeys(JourneyPlace::StopId("1".into()), JourneyPlace::StopId("2".into()))
        .departure(t.clone())
        .arrival(t)
        .plan()
        .unwrap_err();
    assert_eq!(invalid(e), (None, "departure and arrival are mutually exclusive".into()));
    let e = cl
        .journeys(JourneyPlace::StopId("1".into()), JourneyPlace::StopId("2".into()))
        .walking_speed("sprint".into())
        .plan()
        .unwrap_err();
    assert_eq!(invalid(e).0, Some("walking_speed"));
}

#[test]
fn departures_board() {
    let cl = client(Provider::Bvg);
    let plan = cl
        .departures("900100003".into())
        .duration(10)
        .more_stops(vec!["a".into(), "b".into()])
        .plan()
        .unwrap();
    assert_eq!(plan.path, "/stops/900100003/departures");
    assert_eq!(plan.query.encode(), "duration=10&moreStops=a%2Cb");
    let e = cl.arrivals(" ".into()).plan().unwrap_err();
    assert_eq!(invalid(e), (Some("stop_id"), "must not be empty".into()));
}

#[test]
fn datetime_renders_rfc3339_seconds() {
    let t = DateTimeOffset::new(0, 999_000_000, 0).unwrap();
    assert_eq!(t.to_rfc3339_secs(), "1970-01-01T00:00:00Z");
    let t = DateTimeOffset::new(86_400, 0, -7200).unwrap();
    assert_eq!(t.to_rfc3339_secs(), "1970-01-01T22:00:00-02:00");
    assert!(DateTimeOffset::new(0, 0, 86_400).is_none());
}

#[test]
fn static_directories_are_capability_gated() {
    let db = client(Provider::Db);
    assert!(db.stations().query("Halle".into()).plan().is_ok());
    assert!(matches!(
        db.stops_search().plan(),
        Err(TransportRestError::CapabilityNotSupported(_))
    ));
    let bvg = client(Provider::Bvg);
    assert!(matches!(
        bvg.stations().plan(),
        Err(TransportRestError::CapabilityNotSupported(_))
    ));
}

#[test]
fn local_times_outside_the_calendar_are_refused() {
    // 262142-12-31T23:00Z seen at +02:00 lies past the last representable local time
    assert!(DateTimeOffset::new(8_210_266_873_200, 0, 7200).is_none());
    assert!(DateTimeOffset::new(8_210_266_873_200, 0, 0).is_some());
    assert!(DateTimeOffset::new(-8_334_601_315_200, 0, -1).is_none());
}

#[test]
fn coordinates_are_checked_against_whole_degree_bounds() {
    assert!(coordinate_within(&c("90"), 90));
    assert!(coordinate_within(&c("-180.0"), 180));
    assert!(!coordinate_within(&c("90.000001"), 90));
    assert!(!coordinate_within(&c("-1000.5"), 1000));
    assert!(coordinate_within(&c("-999.5"), 1000));
    assert!(coordinate_within(&c("65535"), 65535));
    assert!(!coordinate_within(&c("NaN"), 90));
}
