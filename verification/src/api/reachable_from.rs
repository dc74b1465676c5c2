//! `GET /stops/reachable-from` – isochrone-style reachability
//! (capability-gated).

use vstd::prelude::*;
use crate::client::{clone_opt, is_capability_error, plans, RequestPlan, TransportRestClient};
use crate::datetime::DateTimeOffset;
use crate::decimal::{coord_le, coord_within, coordinate_within, int_value, parse_coord};
use crate::error::TransportRestError;
use crate::products::{products_params, ProductSelection};
use crate::request::{
    invalid, is_invalid_param, lemma_param_value_concat_all, lemma_param_value_options,
    lemma_param_value_single, opt_bool_param, opt_int_param, opt_str_param, opt_time_param,
    param_value, sent_bool, sent_int, sent_str, sent_time, Coordinate, Query,
};
use crate::Capability;

verus! {

/// Builder for reachable-from queries.
#[derive(Debug)]
pub struct ReachableFromBuilder<H> {
    /// The client the request goes through.
    pub client: TransportRestClient<H>,
    /// Required: origin latitude.
    pub latitude: Option<Coordinate>,
    /// Required: origin longitude.
    pub longitude: Option<Coordinate>,
    /// Compute reachability from this time.
    pub when: Option<DateTimeOffset>,
    /// Maximum number of transfers.
    pub max_transfers: Option<i64>,
    /// Maximum travel duration in minutes.
    pub max_duration: Option<i64>,
    /// Include shapes per leg.
    pub polylines: Option<bool>,
    /// Language of result texts.
    pub language: Option<String>,
    /// Included transport products.
    pub products: Option<ProductSelection>,
}

/// The error a reachable-from query with the capability draws, if any: both
/// coordinates are required, the latitude within `[-90, 90]` and the
/// longitude within `[-180, 180]`.
pub open spec fn reachable_from_problem<H>(b: ReachableFromBuilder<H>) -> Option<(Option<Seq<char>>, Seq<char>)> {
    match (b.latitude, b.longitude) {
        (Some(lat), Some(lon)) => if !coord_within(parse_coord(lat.text@), -90, 90)
            || !coord_within(parse_coord(lon.text@), -180, 180) {
            Some((None, "coordinates out of range"@))
        } else {
            None
        },
        _ => Some((None, "latitude and longitude are both required"@)),
    }
}

/// Query parameters of a valid reachable-from query, in wire order.
pub open spec fn reachable_from_params<H>(b: ReachableFromBuilder<H>) -> Seq<(Seq<char>, Seq<char>)> {
    seq![("latitude"@, (b.latitude->0).text@), ("longitude"@, (b.longitude->0).text@)]
        + opt_time_param("when"@, b.when) + opt_int_param("maxTransfers"@, b.max_transfers)
        + opt_int_param("maxDuration"@, b.max_duration) + opt_bool_param("polylines"@, b.polylines)
        + opt_str_param("language"@, b.language) + products_params(b.products)
}

impl<H> ReachableFromBuilder<H> {
    /// A reachable-from query with nothing set.
    pub open spec fn empty(client: TransportRestClient<H>) -> Self {
        ReachableFromBuilder {
            client,
            latitude: None,
            longitude: None,
            when: None,
            max_transfers: None,
            max_duration: None,
            polylines: None,
            language: None,
            products: None,
        }
    }

    /// A reachable-from query with nothing set.
    pub fn new(client: TransportRestClient<H>) -> (b: Self)
        ensures
            b == Self::empty(client),
    {
        ReachableFromBuilder {
            client,
            latitude: None,
            longitude: None,
            when: None,
            max_transfers: None,
            max_duration: None,
            polylines: None,
            language: None,
            products: None,
        }
    }

    /// Required: origin latitude.
    pub fn latitude(self, v: Coordinate) -> (b: Self)
        ensures
            b == (ReachableFromBuilder { latitude: Some(v), ..self }),
    {
        ReachableFromBuilder { latitude: Some(v), ..self }
    }

    /// Required: origin longitude.
    pub fn longitude(self, v: Coordinate) -> (b: Self)
        ensures
            b == (ReachableFromBuilder { longitude: Some(v), ..self }),
    {
        ReachableFromBuilder { longitude: Some(v), ..self }
    }

    /// Compute reachability from this time (server default now).
    pub fn when(self, v: DateTimeOffset) -> (b: Self)
        ensures
            b == (ReachableFromBuilder { when: Some(v), ..self }),
    {
        ReachableFromBuilder { when: Some(v), ..self }
    }

    /// Maximum number of transfers (server default 5).
    pub fn max_transfers(self, v: i64) -> (b: Self)
        ensures
            b == (ReachableFromBuilder { max_transfers: Some(v), ..self }),
    {
        ReachableFromBuilder { max_transfers: Some(v), ..self }
    }

    /// Maximum travel duration in minutes (server default 20).
    pub fn max_duration(self, v: i64) -> (b: Self)
        ensures
            b == (ReachableFromBuilder { max_duration: Some(v), ..self }),
    {
        ReachableFromBuilder { max_duration: Some(v), ..self }
    }

    /// Include shapes per leg.
    pub fn polylines(self, v: bool) -> (b: Self)
        ensures
            b == (ReachableFromBuilder { polylines: Some(v), ..self }),
    {
        ReachableFromBuilder { polylines: Some(v), ..self }
    }

    /// Language of result texts.
    pub fn language(self, v: String) -> (b: Self)
        ensures
            b == (ReachableFromBuilder { language: Some(v), ..self }),
    {
        ReachableFromBuilder { language: Some(v), ..self }
    }

    /// Filter included transport products.
    pub fn products<F: FnOnce(ProductSelection) -> ProductSelection>(self, f: F) -> (b: Self)
        requires
            forall|p: ProductSelection| p@.len() == 0 ==> f.requires((p,)),
        ensures
            b.products matches Some(q) && exists|p: ProductSelection| p@.len() == 0 && f.ensures((p,), q),
            b == (ReachableFromBuilder { products: b.products, ..self }),
    {
        let p = f(ProductSelection::new());
        ReachableFromBuilder { products: Some(p), ..self }
    }


    /// Plan `GET /stops/reachable-from`: the capability is checked first,
    /// then the coordinates.
    pub fn plan(&self) -> (r: Result<RequestPlan, TransportRestError>)
        ensures
            if !self.client.config.capabilities@.contains(Capability::ReachableFrom) {
                r matches Err(e) && is_capability_error(
                    e,
                    Capability::ReachableFrom,
                    self.client.config.provider@,
                )
            } else {
                match reachable_from_problem(*self) {
                    None => plans(r, "/stops/reachable-from"@, reachable_from_params(*self)),
                    Some((param, reason)) => r matches Err(e) && is_invalid_param(e, param, reason),
                }
            },
    {
        self.client.check_capability(Capability::ReachableFrom)?;
        let (lat, lon) = match (&self.latitude, &self.longitude) {
            (Some(lat), Some(lon)) => (lat, lon),
            _ => {
                return Err(invalid(None, "latitude and longitude are both required"));
            },
        };
        if !coordinate_within(lat, 90) || !coordinate_within(lon, 180) {
            return Err(invalid(None, "coordinates out of range"));
        }
        let mut q = Query::new();
        q.push("latitude", lat.text.clone());
        q.push("longitude", lon.text.clone());
        q.opt_time("when", self.when);
        q.opt_int("maxTransfers", self.max_transfers);
        q.opt_int("maxDuration", self.max_duration);
        q.opt_bool("polylines", self.polylines);
        q.opt_str("language", clone_opt(&self.language));
        ProductSelection::encode_opt(&self.products, &mut q);
        proof {
            assert(q@ =~= reachable_from_params(*self));
        }
        Ok(RequestPlan { path: "/stops/reachable-from".to_owned(), query: q })
    }
}

/// The keys of the parameters, spelled out far enough to tell them apart.
proof fn reachable_from_key_facts()
    ensures
        "latitude"@.len() == 8 && "latitude"@[0] == 'l' && "latitude"@[1] == 'a' && "latitude"@[2] == 't',
        "longitude"@.len() == 9 && "longitude"@[0] == 'l' && "longitude"@[1] == 'o' && "longitude"@[2] == 'n',
        "when"@.len() == 4 && "when"@[0] == 'w' && "when"@[1] == 'h' && "when"@[2] == 'e',
        "maxTransfers"@.len() == 12 && "maxTransfers"@[0] == 'm' && "maxTransfers"@[1] == 'a' && "maxTransfers"@[2] == 'x',
        "maxDuration"@.len() == 11 && "maxDuration"@[0] == 'm' && "maxDuration"@[1] == 'a' && "maxDuration"@[2] == 'x',
        "polylines"@.len() == 9 && "polylines"@[0] == 'p' && "polylines"@[1] == 'o' && "polylines"@[2] == 'l',
        "language"@.len() == 8 && "language"@[0] == 'l' && "language"@[1] == 'a' && "language"@[2] == 'n',
{
    reveal_strlit("latitude");
    reveal_strlit("longitude");
    reveal_strlit("when");
    reveal_strlit("maxTransfers");
    reveal_strlit("maxDuration");
    reveal_strlit("polylines");
    reveal_strlit("language");
}

/// A reachability search sends each option that was set under its own key with its value,
/// and nothing under the key of an option that was not set (unless a product selection uses
/// that key); the position goes under `latitude` and `longitude`.
pub proof fn law_reachable_from_options_under_their_keys<H>(b: ReachableFromBuilder<H>)
    requires
        b.latitude is Some,
        b.longitude is Some,
    ensures
        param_value(reachable_from_params(b), "latitude"@) == Some((b.latitude->0).text@),
        param_value(reachable_from_params(b), "longitude"@) == Some((b.longitude->0).text@),
        (b.when is Some || b.products is None) ==> param_value(reachable_from_params(b), "when"@) == sent_time(b.when),
        (b.max_transfers is Some || b.products is None) ==> param_value(reachable_from_params(b), "maxTransfers"@) == sent_int(b.max_transfers),
        (b.max_duration is Some || b.products is None) ==> param_value(reachable_from_params(b), "maxDuration"@) == sent_int(b.max_duration),
        (b.polylines is Some || b.products is None) ==> param_value(reachable_from_params(b), "polylines"@) == sent_bool(b.polylines),
        (b.language is Some || b.products is None) ==> param_value(reachable_from_params(b), "language"@) == sent_str(b.language),
{
    reachable_from_key_facts();
    lemma_param_value_concat_all();
    lemma_param_value_options("when"@);
    lemma_param_value_options("maxTransfers"@);
    lemma_param_value_options("maxDuration"@);
    lemma_param_value_options("polylines"@);
    lemma_param_value_options("language"@);
    lemma_param_value_single("latitude"@, (b.latitude->0).text@, "latitude"@);
    lemma_param_value_single("latitude"@, (b.latitude->0).text@, "longitude"@);
    lemma_param_value_single("latitude"@, (b.latitude->0).text@, "when"@);
    lemma_param_value_single("latitude"@, (b.latitude->0).text@, "maxTransfers"@);
    lemma_param_value_single("latitude"@, (b.latitude->0).text@, "maxDuration"@);
    lemma_param_value_single("latitude"@, (b.latitude->0).text@, "polylines"@);
    lemma_param_value_single("latitude"@, (b.latitude->0).text@, "language"@);
    lemma_param_value_single("longitude"@, (b.longitude->0).text@, "latitude"@);
    lemma_param_value_single("longitude"@, (b.longitude->0).text@, "longitude"@);
    lemma_param_value_single("longitude"@, (b.longitude->0).text@, "when"@);
    lemma_param_value_single("longitude"@, (b.longitude->0).text@, "maxTransfers"@);
    lemma_param_value_single("longitude"@, (b.longitude->0).text@, "maxDuration"@);
    lemma_param_value_single("longitude"@, (b.longitude->0).text@, "polylines"@);
    lemma_param_value_single("longitude"@, (b.longitude->0).text@, "language"@);
    assert(seq![("latitude"@, (b.latitude->0).text@), ("longitude"@, (b.longitude->0).text@)] =~= seq![("latitude"@, (b.latitude->0).text@)] + seq![("longitude"@, (b.longitude->0).text@)]);
    assert(param_value(Seq::<(Seq<char>, Seq<char>)>::empty(), "when"@) is None);
}

/// A reachability search passes its checks exactly when both coordinates are given,
/// the latitude lies within -90..=90 and the longitude within -180..=180, as
/// IEEE 754 orders the values (so neither may be `NaN`).
pub proof fn law_reachable_from_position_in_range<H>(b: ReachableFromBuilder<H>)
    ensures
        reachable_from_problem(b) is None <==> (b.latitude is Some && b.longitude is Some && coord_le(
            int_value(-90),
            parse_coord((b.latitude->0).text@),
        ) && coord_le(parse_coord((b.latitude->0).text@), int_value(90)) && coord_le(
            int_value(-180),
            parse_coord((b.longitude->0).text@),
        ) && coord_le(parse_coord((b.longitude->0).text@), int_value(180))),
{
}

} // verus!
