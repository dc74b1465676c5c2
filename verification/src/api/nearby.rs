//! `GET /locations/nearby` – stops/stations & POIs close to coordinates.

use vstd::prelude::*;
use crate::client::{clone_opt, plans, RequestPlan, TransportRestClient};
use crate::decimal::{coord_le, coord_within, coordinate_within, int_value, parse_coord};
use crate::error::TransportRestError;
use crate::request::{
    invalid, is_invalid_param, lemma_param_value_concat_all, lemma_param_value_options,
    lemma_param_value_single, opt_bool_param, opt_int_param, opt_str_param, param_value, sent_bool,
    sent_int, sent_str, Coordinate, Query,
};

verus! {

/// Builder for the nearby endpoint.
#[derive(Debug)]
pub struct NearbyBuilder<H> {
    /// The client the request goes through.
    pub client: TransportRestClient<H>,
    /// Required: geographic latitude in degrees.
    pub latitude: Option<Coordinate>,
    /// Required: geographic longitude in degrees.
    pub longitude: Option<Coordinate>,
    /// Maximum number of results.
    pub results: Option<i64>,
    /// Maximum walking distance in meters.
    pub distance: Option<i64>,
    /// Include stops/stations?
    pub stops: Option<bool>,
    /// Include points of interest?
    pub poi: Option<bool>,
    /// Include the lines serving each returned stop.
    pub lines_of_stops: Option<bool>,
    /// Language of result names.
    pub language: Option<String>,
}

/// The error a nearby search draws, if any: both coordinates are required,
/// the latitude must lie within `[-90, 90]` and the longitude within
/// `[-180, 180]`.
pub open spec fn nearby_problem<H>(b: NearbyBuilder<H>) -> Option<(Option<Seq<char>>, Seq<char>)> {
    match (b.latitude, b.longitude) {
        (Some(lat), Some(lon)) => if !coord_within(parse_coord(lat.text@), -90, 90) {
            Some((Some("latitude"@), "must be within [-90, 90]"@))
        } else if !coord_within(parse_coord(lon.text@), -180, 180) {
            Some((Some("longitude"@), "must be within [-180, 180]"@))
        } else {
            None
        },
        _ => Some((None, "latitude and longitude are both required"@)),
    }
}

/// Query parameters of a valid nearby search, in wire order.
pub open spec fn nearby_params<H>(b: NearbyBuilder<H>) -> Seq<(Seq<char>, Seq<char>)> {
    seq![("latitude"@, (b.latitude->0).text@), ("longitude"@, (b.longitude->0).text@)]
        + opt_int_param("results"@, b.results) + opt_int_param("distance"@, b.distance)
        + opt_bool_param("stops"@, b.stops) + opt_bool_param("poi"@, b.poi)
        + opt_bool_param("linesOfStops"@, b.lines_of_stops) + opt_str_param("language"@, b.language)
}

impl<H> NearbyBuilder<H> {
    /// A nearby search with nothing set.
    pub open spec fn empty(client: TransportRestClient<H>) -> Self {
        NearbyBuilder {
            client,
            latitude: None,
            longitude: None,
            results: None,
            distance: None,
            stops: None,
            poi: None,
            lines_of_stops: None,
            language: None,
        }
    }

    /// A nearby search with nothing set.
    pub fn new(client: TransportRestClient<H>) -> (b: Self)
        ensures
            b == Self::empty(client),
    {
        NearbyBuilder {
            client,
            latitude: None,
            longitude: None,
            results: None,
            distance: None,
            stops: None,
            poi: None,
            lines_of_stops: None,
            language: None,
        }
    }

    /// Required: geographic latitude in degrees.
    pub fn latitude(self, v: Coordinate) -> (b: Self)
        ensures
            b == (NearbyBuilder { latitude: Some(v), ..self }),
    {
        NearbyBuilder { latitude: Some(v), ..self }
    }

    /// Required: geographic longitude in degrees.
    pub fn longitude(self, v: Coordinate) -> (b: Self)
        ensures
            b == (NearbyBuilder { longitude: Some(v), ..self }),
    {
        NearbyBuilder { longitude: Some(v), ..self }
    }

    /// Maximum number of results.
    pub fn results(self, v: i64) -> (b: Self)
        ensures
            b == (NearbyBuilder { results: Some(v), ..self }),
    {
        NearbyBuilder { results: Some(v), ..self }
    }

    /// Maximum walking distance in meters.
    pub fn distance(self, v: i64) -> (b: Self)
        ensures
            b == (NearbyBuilder { distance: Some(v), ..self }),
    {
        NearbyBuilder { distance: Some(v), ..self }
    }

    /// Include stops/stations?
    pub fn stops(self, v: bool) -> (b: Self)
        ensures
            b == (NearbyBuilder { stops: Some(v), ..self }),
    {
        NearbyBuilder { stops: Some(v), ..self }
    }

    /// Include points of interest?
    pub fn poi(self, v: bool) -> (b: Self)
        ensures
            b == (NearbyBuilder { poi: Some(v), ..self }),
    {
        NearbyBuilder { poi: Some(v), ..self }
    }

    /// Include the lines serving each returned stop.
    pub fn lines_of_stops(self, v: bool) -> (b: Self)
        ensures
            b == (NearbyBuilder { lines_of_stops: Some(v), ..self }),
    {
        NearbyBuilder { lines_of_stops: Some(v), ..self }
    }

    /// Language of result names.
    pub fn language(self, v: String) -> (b: Self)
        ensures
            b == (NearbyBuilder { language: Some(v), ..self }),
    {
        NearbyBuilder { language: Some(v), ..self }
    }

    /// Validate and plan `GET /locations/nearby`.
    pub fn plan(&self) -> (r: Result<RequestPlan, TransportRestError>)
        ensures
            match nearby_problem(*self) {
                None => plans(r, "/locations/nearby"@, nearby_params(*self)),
                Some((param, reason)) => r matches Err(e) && is_invalid_param(e, param, reason),
            },
    {
        let (lat, lon) = match (&self.latitude, &self.longitude) {
            (Some(lat), Some(lon)) => (lat, lon),
            _ => {
                return Err(invalid(None, "latitude and longitude are both required"));
            },
        };
        if !coordinate_within(lat, 90) {
            return Err(invalid(Some("latitude"), "must be within [-90, 90]"));
        }
        if !coordinate_within(lon, 180) {
            return Err(invalid(Some("longitude"), "must be within [-180, 180]"));
        }
        let mut q = Query::new();
        q.push("latitude", lat.text.clone());
        q.push("longitude", lon.text.clone());
        q.opt_int("results", self.results);
        q.opt_int("distance", self.distance);
        q.opt_bool("stops", self.stops);
        q.opt_bool("poi", self.poi);
        q.opt_bool("linesOfStops", self.lines_of_stops);
        q.opt_str("language", clone_opt(&self.language));
        proof {
            assert(q@ =~= nearby_params(*self));
        }
        Ok(RequestPlan { path: "/locations/nearby".to_owned(), query: q })
    }
}

/// The keys of the parameters, spelled out far enough to tell them apart.
proof fn nearby_key_facts()
    ensures
        "latitude"@.len() == 8 && "latitude"@[0] == 'l' && "latitude"@[1] == 'a' && "latitude"@[2] == 't',
        "longitude"@.len() == 9 && "longitude"@[0] == 'l' && "longitude"@[1] == 'o' && "longitude"@[2] == 'n',
        "results"@.len() == 7 && "results"@[0] == 'r' && "results"@[1] == 'e' && "results"@[2] == 's',
        "distance"@.len() == 8 && "distance"@[0] == 'd' && "distance"@[1] == 'i' && "distance"@[2] == 's',
        "stops"@.len() == 5 && "stops"@[0] == 's' && "stops"@[1] == 't' && "stops"@[2] == 'o',
        "poi"@.len() == 3 && "poi"@[0] == 'p' && "poi"@[1] == 'o' && "poi"@[2] == 'i',
        "linesOfStops"@.len() == 12 && "linesOfStops"@[0] == 'l' && "linesOfStops"@[1] == 'i' && "linesOfStops"@[2] == 'n',
        "language"@.len() == 8 && "language"@[0] == 'l' && "language"@[1] == 'a' && "language"@[2] == 'n',
{
    reveal_strlit("latitude");
    reveal_strlit("longitude");
    reveal_strlit("results");
    reveal_strlit("distance");
    reveal_strlit("stops");
    reveal_strlit("poi");
    reveal_strlit("linesOfStops");
    reveal_strlit("language");
}

/// A nearby search sends each option that was set under its own key with
/// its value, and nothing under the key of an option that was not set; the
/// position goes under `latitude` and `longitude`.
pub proof fn law_nearby_options_under_their_keys<H>(b: NearbyBuilder<H>)
    requires
        b.latitude is Some,
        b.longitude is Some,
    ensures
        param_value(nearby_params(b), "latitude"@) == Some((b.latitude->0).text@),
        param_value(nearby_params(b), "longitude"@) == Some((b.longitude->0).text@),
        param_value(nearby_params(b), "results"@) == sent_int(b.results),
        param_value(nearby_params(b), "distance"@) == sent_int(b.distance),
        param_value(nearby_params(b), "stops"@) == sent_bool(b.stops),
        param_value(nearby_params(b), "poi"@) == sent_bool(b.poi),
        param_value(nearby_params(b), "linesOfStops"@) == sent_bool(b.lines_of_stops),
        param_value(nearby_params(b), "language"@) == sent_str(b.language),
{
    nearby_key_facts();
    lemma_param_value_concat_all();
    lemma_param_value_options("results"@);
    lemma_param_value_options("distance"@);
    lemma_param_value_options("stops"@);
    lemma_param_value_options("poi"@);
    lemma_param_value_options("linesOfStops"@);
    lemma_param_value_options("language"@);
    lemma_param_value_single("latitude"@, (b.latitude->0).text@, "latitude"@);
    lemma_param_value_single("latitude"@, (b.latitude->0).text@, "longitude"@);
    lemma_param_value_single("latitude"@, (b.latitude->0).text@, "results"@);
    lemma_param_value_single("latitude"@, (b.latitude->0).text@, "distance"@);
    lemma_param_value_single("latitude"@, (b.latitude->0).text@, "stops"@);
    lemma_param_value_single("latitude"@, (b.latitude->0).text@, "poi"@);
    lemma_param_value_single("latitude"@, (b.latitude->0).text@, "linesOfStops"@);
    lemma_param_value_single("latitude"@, (b.latitude->0).text@, "language"@);
    lemma_param_value_single("longitude"@, (b.longitude->0).text@, "latitude"@);
    lemma_param_value_single("longitude"@, (b.longitude->0).text@, "longitude"@);
    lemma_param_value_single("longitude"@, (b.longitude->0).text@, "results"@);
    lemma_param_value_single("longitude"@, (b.longitude->0).text@, "distance"@);
    lemma_param_value_single("longitude"@, (b.longitude->0).text@, "stops"@);
    lemma_param_value_single("longitude"@, (b.longitude->0).text@, "poi"@);
    lemma_param_value_single("longitude"@, (b.longitude->0).text@, "linesOfStops"@);
    lemma_param_value_single("longitude"@, (b.longitude->0).text@, "language"@);
    assert(seq![("latitude"@, (b.latitude->0).text@), ("longitude"@, (b.longitude->0).text@)] =~= seq![("latitude"@, (b.latitude->0).text@)] + seq![("longitude"@, (b.longitude->0).text@)]);
    assert(param_value(Seq::<(Seq<char>, Seq<char>)>::empty(), "results"@) is None);
}

/// A nearby search passes its checks exactly when both coordinates are given,
/// the latitude lies within -90..=90 and the longitude within -180..=180, as
/// IEEE 754 orders the values (so neither may be `NaN`).
pub proof fn law_nearby_position_in_range<H>(b: NearbyBuilder<H>)
    ensures
        nearby_problem(b) is None <==> (b.latitude is Some && b.longitude is Some && coord_le(
            int_value(-90),
            parse_coord((b.latitude->0).text@),
        ) && coord_le(parse_coord((b.latitude->0).text@), int_value(90)) && coord_le(
            int_value(-180),
            parse_coord((b.longitude->0).text@),
        ) && coord_le(parse_coord((b.longitude->0).text@), int_value(180))),
{
}

} // verus!
