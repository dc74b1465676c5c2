//! `GET /journeys` & `GET /journeys/{ref}` – route search and refresh.

use vstd::prelude::*;
use crate::client::{clone_opt, plans, RequestPlan, TransportRestClient};
use crate::datetime::DateTimeOffset;
use crate::encoding::{encode_path_segment, encode_path_segment_spec};
use crate::error::TransportRestError;
use crate::products::{products_params, ProductSelection};
use crate::request::{
    concat, invalid, is_invalid_param, lemma_param_value_concat_all, lemma_param_value_options,
    lemma_place_params_other_key, lemma_place_params_other_prefix, lemma_place_params_values,
    lemma_sends_place_after, opt_bool_param, opt_int_param, opt_str_param, opt_time_param,
    param_value, place_params, place_problem, sends_place, sent_bool, sent_int, sent_str, sent_time,
    JourneyPlace, Query,
};
use crate::text::{is_blank, is_blank_spec, str_eq};

verus! {

/// Builder for the journey search endpoint.
///
/// `from` and `to` are mandatory; either `departure` or `arrival` may be set,
/// as may `earlier_than`/`later_than` for pagination (but not combined with
/// departure/arrival).
#[derive(Debug)]
pub struct JourneysBuilder<H> {
    /// The client the request goes through.
    pub client: TransportRestClient<H>,
    /// Origin.
    pub from: JourneyPlace,
    /// Destination.
    pub to: JourneyPlace,
    /// Option `via`.
    pub via: Option<JourneyPlace>,
    /// Option `departure`.
    pub departure: Option<DateTimeOffset>,
    /// Option `arrival`.
    pub arrival: Option<DateTimeOffset>,
    /// Option `earlier_than`.
    pub earlier_than: Option<String>,
    /// Option `later_than`.
    pub later_than: Option<String>,
    /// Option `results`.
    pub results: Option<i64>,
    /// Option `stopovers`.
    pub stopovers: Option<bool>,
    /// Option `transfers`.
    pub transfers: Option<i64>,
    /// Option `transfer_time`.
    pub transfer_time: Option<i64>,
    /// Option `accessibility`.
    pub accessibility: Option<String>,
    /// Option `bike`.
    pub bike: Option<bool>,
    /// Option `start_with_walking`.
    pub start_with_walking: Option<bool>,
    /// Option `walking_speed`.
    pub walking_speed: Option<String>,
    /// Option `tickets`.
    pub tickets: Option<bool>,
    /// Option `polylines`.
    pub polylines: Option<bool>,
    /// Option `sub_stops`.
    pub sub_stops: Option<bool>,
    /// Option `entrances`.
    pub entrances: Option<bool>,
    /// Option `remarks`.
    pub remarks: Option<bool>,
    /// Option `scheduled_days`.
    pub scheduled_days: Option<bool>,
    /// Option `not_only_fast_routes`.
    pub not_only_fast_routes: Option<bool>,
    /// Option `bestprice`.
    pub bestprice: Option<bool>,
    /// Option `deutschland_ticket_connections_only`.
    pub deutschland_ticket_connections_only: Option<bool>,
    /// Option `loyalty_card`.
    pub loyalty_card: Option<String>,
    /// Option `first_class`.
    pub first_class: Option<bool>,
    /// Option `age`.
    pub age: Option<i64>,
    /// Option `age_group`.
    pub age_group: Option<String>,
    /// Option `routing_mode`.
    pub routing_mode: Option<String>,
    /// Option `products`.
    pub products: Option<ProductSelection>,
}

/// Parameters of a place that may be absent.
pub open spec fn opt_place_params(p: Option<JourneyPlace>, prefix: Seq<char>) -> Seq<(Seq<char>, Seq<char>)> {
    match p {
        Some(v) => place_params(v, prefix),
        None => seq![],
    }
}

/// A text option that must be one of the allowed words.
pub open spec fn one_of(v: Option<String>, allowed: Seq<Seq<char>>) -> bool {
    match v {
        Some(s) => allowed.contains(s@),
        None => true,
    }
}

/// The first rule a journey search breaks, as (parameter, reason).
pub open spec fn journeys_problem<H>(b: JourneysBuilder<H>) -> Option<(Option<Seq<char>>, Seq<char>)> {
    if place_problem(b.from) is Some {
        Some((Some((place_problem(b.from)->0).0), (place_problem(b.from)->0).1))
    } else if place_problem(b.to) is Some {
        Some((Some((place_problem(b.to)->0).0), (place_problem(b.to)->0).1))
    } else if b.via is Some && place_problem(b.via->0) is Some {
        Some((Some((place_problem(b.via->0)->0).0), (place_problem(b.via->0)->0).1))
    } else if b.departure is Some && b.arrival is Some {
        Some((None, "departure and arrival are mutually exclusive"@))
    } else if (b.earlier_than is Some || b.later_than is Some) && (b.departure is Some
        || b.arrival is Some) {
        Some((None, "earlier_than/later_than cannot be combined with departure/arrival"@))
    } else if b.earlier_than is Some && b.later_than is Some {
        Some((None, "earlier_than and later_than are mutually exclusive"@))
    } else if !one_of(b.walking_speed, seq!["slow"@, "normal"@, "fast"@]) {
        Some((Some("walking_speed"@), "must be one of slow, normal, fast"@))
    } else if !one_of(b.accessibility, seq!["partial"@, "complete"@]) {
        Some((Some("accessibility"@), "must be 'partial' or 'complete'"@))
    } else {
        None
    }
}

/// Query parameters of a valid journey search, in wire order.
pub open spec fn journeys_params<H>(b: JourneysBuilder<H>) -> Seq<(Seq<char>, Seq<char>)> {
    place_params(b.from, "from"@) + place_params(b.to, "to"@) + opt_place_params(b.via, "via"@)
        + opt_time_param("departure"@, b.departure) + opt_time_param("arrival"@, b.arrival)
        + opt_str_param("earlierThan"@, b.earlier_than) + opt_str_param("laterThan"@, b.later_than)
        + opt_int_param("results"@, b.results) + opt_bool_param("stopovers"@, b.stopovers)
        + opt_int_param("transfers"@, b.transfers) + opt_int_param("transferTime"@, b.transfer_time)
        + opt_str_param("accessibility"@, b.accessibility) + opt_bool_param("bike"@, b.bike)
        + opt_bool_param("startWithWalking"@, b.start_with_walking)
        + opt_str_param("walkingSpeed"@, b.walking_speed) + opt_bool_param("tickets"@, b.tickets)
        + opt_bool_param("polylines"@, b.polylines) + opt_bool_param("subStops"@, b.sub_stops)
        + opt_bool_param("entrances"@, b.entrances) + opt_bool_param("remarks"@, b.remarks)
        + opt_bool_param("scheduledDays"@, b.scheduled_days)
        + opt_bool_param("notOnlyFastRoutes"@, b.not_only_fast_routes)
        + opt_bool_param("bestprice"@, b.bestprice)
        + opt_bool_param("deutschlandTicketConnectionsOnly"@, b.deutschland_ticket_connections_only)
        + opt_str_param("loyaltyCard"@, b.loyalty_card) + opt_bool_param("firstClass"@, b.first_class)
        + opt_int_param("age"@, b.age) + opt_str_param("ageGroup"@, b.age_group)
        + opt_str_param("routingMode"@, b.routing_mode) + products_params(b.products)
}

fn opt_is_one_of(v: &Option<String>, a: &str, b: &str, c: Option<&str>) -> (r: bool)
    ensures
        r == match *v {
            Some(s) => s@ == a@ || s@ == b@ || (c matches Some(w) && s@ == w@),
            None => true,
        },
{
    match v {
        Some(s) => str_eq(s.as_str(), a) || str_eq(s.as_str(), b) || match c {
            Some(w) => str_eq(s.as_str(), w),
            None => false,
        },
        None => true,
    }
}

impl<H> JourneysBuilder<H> {
    /// A search from `from` to `to` with nothing else set.
    pub open spec fn new_spec(client: TransportRestClient<H>, from: JourneyPlace, to: JourneyPlace) -> Self {
        JourneysBuilder {
                client,
                from,
                to,
                via: None,
                departure: None,
                arrival: None,
                earlier_than: None,
                later_than: None,
                results: None,
                stopovers: None,
                transfers: None,
                transfer_time: None,
                accessibility: None,
                bike: None,
                start_with_walking: None,
                walking_speed: None,
                tickets: None,
                polylines: None,
                sub_stops: None,
                entrances: None,
                remarks: None,
                scheduled_days: None,
                not_only_fast_routes: None,
                bestprice: None,
                deutschland_ticket_connections_only: None,
                loyalty_card: None,
                first_class: None,
                age: None,
                age_group: None,
                routing_mode: None,
                products: None,
            }
    }

    /// A search from `from` to `to` with nothing else set.
    pub fn new(client: TransportRestClient<H>, from: JourneyPlace, to: JourneyPlace) -> (b: Self)
        ensures
            b == (JourneysBuilder {
                client,
                from,
                to,
                via: None,
                departure: None,
                arrival: None,
                earlier_than: None,
                later_than: None,
                results: None,
                stopovers: None,
                transfers: None,
                transfer_time: None,
                accessibility: None,
                bike: None,
                start_with_walking: None,
                walking_speed: None,
                tickets: None,
                polylines: None,
                sub_stops: None,
                entrances: None,
                remarks: None,
                scheduled_days: None,
                not_only_fast_routes: None,
                bestprice: None,
                deutschland_ticket_connections_only: None,
                loyalty_card: None,
                first_class: None,
                age: None,
                age_group: None,
                routing_mode: None,
                products: None,
            }),
    {
        JourneysBuilder {
            client,
            from,
            to,
            via: None,
            departure: None,
            arrival: None,
            earlier_than: None,
            later_than: None,
            results: None,
            stopovers: None,
            transfers: None,
            transfer_time: None,
            accessibility: None,
            bike: None,
            start_with_walking: None,
            walking_speed: None,
            tickets: None,
            polylines: None,
            sub_stops: None,
            entrances: None,
            remarks: None,
            scheduled_days: None,
            not_only_fast_routes: None,
            bestprice: None,
            deutschland_ticket_connections_only: None,
            loyalty_card: None,
            first_class: None,
            age: None,
            age_group: None,
            routing_mode: None,
            products: None,
        }
    }

    /// Route through this place.
    pub fn via(self, v: JourneyPlace) -> (b: Self)
        ensures
            b == (JourneysBuilder { via: Some(v), ..self }),
    {
        JourneysBuilder { via: Some(v), ..self }
    }

    /// Search journeys departing at this time (mutually exclusive with `arrival` and pagination refs).
    pub fn departure(self, v: DateTimeOffset) -> (b: Self)
        ensures
            b == (JourneysBuilder { departure: Some(v), ..self }),
    {
        JourneysBuilder { departure: Some(v), ..self }
    }

    /// Search journeys arriving at this time (mutually exclusive with `departure` and pagination refs).
    pub fn arrival(self, v: DateTimeOffset) -> (b: Self)
        ensures
            b == (JourneysBuilder { arrival: Some(v), ..self }),
    {
        JourneysBuilder { arrival: Some(v), ..self }
    }

    /// Pagination: journeys before the given `earlierRef`.
    pub fn earlier_than(self, v: String) -> (b: Self)
        ensures
            b == (JourneysBuilder { earlier_than: Some(v), ..self }),
    {
        JourneysBuilder { earlier_than: Some(v), ..self }
    }

    /// Pagination: journeys after the given `laterRef`.
    pub fn later_than(self, v: String) -> (b: Self)
        ensures
            b == (JourneysBuilder { later_than: Some(v), ..self }),
    {
        JourneysBuilder { later_than: Some(v), ..self }
    }

    /// Maximum number of journeys.
    pub fn results(self, v: i64) -> (b: Self)
        ensures
            b == (JourneysBuilder { results: Some(v), ..self }),
    {
        JourneysBuilder { results: Some(v), ..self }
    }

    /// Include stopovers of each leg.
    pub fn stopovers(self, v: bool) -> (b: Self)
        ensures
            b == (JourneysBuilder { stopovers: Some(v), ..self }),
    {
        JourneysBuilder { stopovers: Some(v), ..self }
    }

    /// Maximum number of transfers.
    pub fn transfers(self, v: i64) -> (b: Self)
        ensures
            b == (JourneysBuilder { transfers: Some(v), ..self }),
    {
        JourneysBuilder { transfers: Some(v), ..self }
    }

    /// Minimum transfer time in minutes.
    pub fn transfer_time(self, v: i64) -> (b: Self)
        ensures
            b == (JourneysBuilder { transfer_time: Some(v), ..self }),
    {
        JourneysBuilder { transfer_time: Some(v), ..self }
    }

    /// Accessibility requirements (`partial` or `complete`).
    pub fn accessibility(self, v: String) -> (b: Self)
        ensures
            b == (JourneysBuilder { accessibility: Some(v), ..self }),
    {
        JourneysBuilder { accessibility: Some(v), ..self }
    }

    /// Only bike-friendly journeys?
    pub fn bike(self, v: bool) -> (b: Self)
        ensures
            b == (JourneysBuilder { bike: Some(v), ..self }),
    {
        JourneysBuilder { bike: Some(v), ..self }
    }

    /// Consider walking to nearby stations at the start?
    pub fn start_with_walking(self, v: bool) -> (b: Self)
        ensures
            b == (JourneysBuilder { start_with_walking: Some(v), ..self }),
    {
        JourneysBuilder { start_with_walking: Some(v), ..self }
    }

    /// Walking speed: `slow`, `normal` or `fast`.
    pub fn walking_speed(self, v: String) -> (b: Self)
        ensures
            b == (JourneysBuilder { walking_speed: Some(v), ..self }),
    {
        JourneysBuilder { walking_speed: Some(v), ..self }
    }

    /// Return ticket information? (DB: only on refresh.)
    pub fn tickets(self, v: bool) -> (b: Self)
        ensures
            b == (JourneysBuilder { tickets: Some(v), ..self }),
    {
        JourneysBuilder { tickets: Some(v), ..self }
    }

    /// Return a shape for each leg? (DB: only on refresh.)
    pub fn polylines(self, v: bool) -> (b: Self)
        ensures
            b == (JourneysBuilder { polylines: Some(v), ..self }),
    {
        JourneysBuilder { polylines: Some(v), ..self }
    }

    /// Parse sub-stops of stations?
    pub fn sub_stops(self, v: bool) -> (b: Self)
        ensures
            b == (JourneysBuilder { sub_stops: Some(v), ..self }),
    {
        JourneysBuilder { sub_stops: Some(v), ..self }
    }

    /// Parse entrances of stops/stations?
    pub fn entrances(self, v: bool) -> (b: Self)
        ensures
            b == (JourneysBuilder { entrances: Some(v), ..self }),
    {
        JourneysBuilder { entrances: Some(v), ..self }
    }

    /// Include hints & warnings (default on).
    pub fn remarks(self, v: bool) -> (b: Self)
        ensures
            b == (JourneysBuilder { remarks: Some(v), ..self }),
    {
        JourneysBuilder { remarks: Some(v), ..self }
    }

    /// Include the days each journey is served.
    pub fn scheduled_days(self, v: bool) -> (b: Self)
        ensures
            b == (JourneysBuilder { scheduled_days: Some(v), ..self }),
    {
        JourneysBuilder { scheduled_days: Some(v), ..self }
    }

    /// Also show journeys that are mathematically non-optimal (DB only).
    pub fn not_only_fast_routes(self, v: bool) -> (b: Self)
        ensures
            b == (JourneysBuilder { not_only_fast_routes: Some(v), ..self }),
    {
        JourneysBuilder { not_only_fast_routes: Some(v), ..self }
    }

    /// Search for the lowest prices across the whole day (DB only).
    pub fn bestprice(self, v: bool) -> (b: Self)
        ensures
            b == (JourneysBuilder { bestprice: Some(v), ..self }),
    {
        JourneysBuilder { bestprice: Some(v), ..self }
    }

    /// Only connections usable with the Deutschlandticket (DB only).
    pub fn deutschland_ticket_connections_only(self, v: bool) -> (b: Self)
        ensures
            b == (JourneysBuilder { deutschland_ticket_connections_only: Some(v), ..self }),
    {
        JourneysBuilder { deutschland_ticket_connections_only: Some(v), ..self }
    }

    /// Loyalty/discount card applied to prices (DB only), e.g. `"bahncard-2nd-50"`.
    pub fn loyalty_card(self, v: String) -> (b: Self)
        ensures
            b == (JourneysBuilder { loyalty_card: Some(v), ..self }),
    {
        JourneysBuilder { loyalty_card: Some(v), ..self }
    }

    /// Search first-class options (DB only).
    pub fn first_class(self, v: bool) -> (b: Self)
        ensures
            b == (JourneysBuilder { first_class: Some(v), ..self }),
    {
        JourneysBuilder { first_class: Some(v), ..self }
    }

    /// Traveller age in years (DB only).
    pub fn age(self, v: i64) -> (b: Self)
        ensures
            b == (JourneysBuilder { age: Some(v), ..self }),
    {
        JourneysBuilder { age: Some(v), ..self }
    }

    /// Traveller age group (DB only): `B`, `E`, `K`, `S` or `Y`.
    pub fn age_group(self, v: String) -> (b: Self)
        ensures
            b == (JourneysBuilder { age_group: Some(v), ..self }),
    {
        JourneysBuilder { age_group: Some(v), ..self }
    }

    /// Routing mode (DB only); `HYBRID` for full pagination support.
    pub fn routing_mode(self, v: String) -> (b: Self)
        ensures
            b == (JourneysBuilder { routing_mode: Some(v), ..self }),
    {
        JourneysBuilder { routing_mode: Some(v), ..self }
    }

    /// Filter included transport products.
    pub fn products<F: FnOnce(ProductSelection) -> ProductSelection>(self, f: F) -> (b: Self)
        requires
            forall|p: ProductSelection| p@.len() == 0 ==> f.requires((p,)),
        ensures
            b.products matches Some(q) && exists|p: ProductSelection| p@.len() == 0 && f.ensures((p,), q),
            b == (JourneysBuilder { products: b.products, ..self }),
    {
        let p = f(ProductSelection::new());
        JourneysBuilder { products: Some(p), ..self }
    }

    /// Validate and plan `GET /journeys`: places are checked first, then the
    /// mutually exclusive time options, then the enumerated words.
    pub fn plan(&self) -> (r: Result<RequestPlan, TransportRestError>)
        ensures
            match journeys_problem(*self) {
                None => plans(r, "/journeys"@, journeys_params(*self)),
                Some((param, reason)) => r matches Err(e) && is_invalid_param(e, param, reason),
            },
    {
        // -- validation -----------------------------------------------------
        self.from.validate()?;
        self.to.validate()?;
        if let Some(via) = &self.via {
            via.validate()?;
        }
        if self.departure.is_some() && self.arrival.is_some() {
            return Err(invalid(None, "departure and arrival are mutually exclusive"));
        }
        if (self.earlier_than.is_some() || self.later_than.is_some()) && (self.departure.is_some()
            || self.arrival.is_some()) {
            return Err(
                invalid(None, "earlier_than/later_than cannot be combined with departure/arrival"),
            );
        }
        if self.earlier_than.is_some() && self.later_than.is_some() {
            return Err(invalid(None, "earlier_than and later_than are mutually exclusive"));
        }
        if !opt_is_one_of(&self.walking_speed, "slow", "normal", Some("fast")) {
            proof {
                assert(!one_of(self.walking_speed, seq!["slow"@, "normal"@, "fast"@]));
            }
            return Err(invalid(Some("walking_speed"), "must be one of slow, normal, fast"));
        }
        if !opt_is_one_of(&self.accessibility, "partial", "complete", None) {
            proof {
                assert(!one_of(self.accessibility, seq!["partial"@, "complete"@]));
            }
            return Err(invalid(Some("accessibility"), "must be 'partial' or 'complete'"));
        }
        proof {
            assert(one_of(self.walking_speed, seq!["slow"@, "normal"@, "fast"@])) by {
                if let Some(s) = self.walking_speed {
                    let w = seq!["slow"@, "normal"@, "fast"@];
                    assert(s@ == w[0] || s@ == w[1] || s@ == w[2]);
                }
            }
            assert(one_of(self.accessibility, seq!["partial"@, "complete"@])) by {
                if let Some(s) = self.accessibility {
                    let w = seq!["partial"@, "complete"@];
                    assert(s@ == w[0] || s@ == w[1]);
                }
            }
        }
        // -- serialization --------------------------------------------------
        let mut q = Query::new();
        self.from.encode("from", &mut q);
        self.to.encode("to", &mut q);
        if let Some(via) = &self.via {
            via.encode("via", &mut q);
        }
        q.opt_time("departure", self.departure);
        q.opt_time("arrival", self.arrival);
        q.opt_str("earlierThan", clone_opt(&self.earlier_than));
        q.opt_str("laterThan", clone_opt(&self.later_than));
        q.opt_int("results", self.results);
        q.opt_bool("stopovers", self.stopovers);
        q.opt_int("transfers", self.transfers);
        q.opt_int("transferTime", self.transfer_time);
        q.opt_str("accessibility", clone_opt(&self.accessibility));
        q.opt_bool("bike", self.bike);
        q.opt_bool("startWithWalking", self.start_with_walking);
        q.opt_str("walkingSpeed", clone_opt(&self.walking_speed));
        q.opt_bool("tickets", self.tickets);
        q.opt_bool("polylines", self.polylines);
        q.opt_bool("subStops", self.sub_stops);
        q.opt_bool("entrances", self.entrances);
        q.opt_bool("remarks", self.remarks);
        q.opt_bool("scheduledDays", self.scheduled_days);
        q.opt_bool("notOnlyFastRoutes", self.not_only_fast_routes);
        q.opt_bool("bestprice", self.bestprice);
        q.opt_bool("deutschlandTicketConnectionsOnly", self.deutschland_ticket_connections_only);
        q.opt_str("loyaltyCard", clone_opt(&self.loyalty_card));
        q.opt_bool("firstClass", self.first_class);
        q.opt_int("age", self.age);
        q.opt_str("ageGroup", clone_opt(&self.age_group));
        q.opt_str("routingMode", clone_opt(&self.routing_mode));
        ProductSelection::encode_opt(&self.products, &mut q);
        proof {
            assert(q@ =~= journeys_params(*self));
        }
        Ok(RequestPlan { path: "/journeys".to_owned(), query: q })
    }
}

/// Builder for `GET /journeys/{ref}` – refresh a computed journey.
#[derive(Debug)]
pub struct RefreshJourneyBuilder<H> {
    /// The client the request goes through.
    pub client: TransportRestClient<H>,
    /// `refreshToken` of the journey.
    pub refresh_token: String,
    /// Option `stopovers`.
    pub stopovers: Option<bool>,
    /// Option `tickets`.
    pub tickets: Option<bool>,
    /// Option `polylines`.
    pub polylines: Option<bool>,
    /// Option `sub_stops`.
    pub sub_stops: Option<bool>,
    /// Option `entrances`.
    pub entrances: Option<bool>,
    /// Option `remarks`.
    pub remarks: Option<bool>,
    /// Option `scheduled_days`.
    pub scheduled_days: Option<bool>,
    /// Option `not_only_fast_routes`.
    pub not_only_fast_routes: Option<bool>,
    /// Option `bestprice`.
    pub bestprice: Option<bool>,
    /// Option `language`.
    pub language: Option<String>,
}

/// Query parameters of a journey refresh, in wire order.
pub open spec fn refresh_params<H>(b: RefreshJourneyBuilder<H>) -> Seq<(Seq<char>, Seq<char>)> {
    opt_bool_param("stopovers"@, b.stopovers) + opt_bool_param("tickets"@, b.tickets)
        + opt_bool_param("polylines"@, b.polylines) + opt_bool_param("subStops"@, b.sub_stops)
        + opt_bool_param("entrances"@, b.entrances) + opt_bool_param("remarks"@, b.remarks)
        + opt_bool_param("scheduledDays"@, b.scheduled_days)
        + opt_bool_param("notOnlyFastRoutes"@, b.not_only_fast_routes)
        + opt_bool_param("bestprice"@, b.bestprice) + opt_str_param("language"@, b.language)
}

impl<H> RefreshJourneyBuilder<H> {
    /// A refresh of the journey with `refresh_token`, nothing else set.
    pub open spec fn new_spec(client: TransportRestClient<H>, refresh_token: String) -> Self {
        RefreshJourneyBuilder {
                client,
                refresh_token,
                stopovers: None,
                tickets: None,
                polylines: None,
                sub_stops: None,
                entrances: None,
                remarks: None,
                scheduled_days: None,
                not_only_fast_routes: None,
                bestprice: None,
                language: None,
            }
    }

    /// A refresh of the journey with `refresh_token`, nothing else set.
    pub fn new(client: TransportRestClient<H>, refresh_token: String) -> (b: Self)
        ensures
            b == (RefreshJourneyBuilder {
                client,
                refresh_token,
                stopovers: None,
                tickets: None,
                polylines: None,
                sub_stops: None,
                entrances: None,
                remarks: None,
                scheduled_days: None,
                not_only_fast_routes: None,
                bestprice: None,
                language: None,
            }),
    {
        RefreshJourneyBuilder {
            client,
            refresh_token,
            stopovers: None,
            tickets: None,
            polylines: None,
            sub_stops: None,
            entrances: None,
            remarks: None,
            scheduled_days: None,
            not_only_fast_routes: None,
            bestprice: None,
            language: None,
        }
    }

    /// Include stopovers of each leg.
    pub fn stopovers(self, v: bool) -> (b: Self)
        ensures
            b == (RefreshJourneyBuilder { stopovers: Some(v), ..self }),
    {
        RefreshJourneyBuilder { stopovers: Some(v), ..self }
    }

    /// Return ticket information (mutually exclusive with `polylines`).
    pub fn tickets(self, v: bool) -> (b: Self)
        ensures
            b == (RefreshJourneyBuilder { tickets: Some(v), ..self }),
    {
        RefreshJourneyBuilder { tickets: Some(v), ..self }
    }

    /// Return leg shapes (mutually exclusive with `tickets`).
    pub fn polylines(self, v: bool) -> (b: Self)
        ensures
            b == (RefreshJourneyBuilder { polylines: Some(v), ..self }),
    {
        RefreshJourneyBuilder { polylines: Some(v), ..self }
    }

    /// Parse sub-stops of stations?
    pub fn sub_stops(self, v: bool) -> (b: Self)
        ensures
            b == (RefreshJourneyBuilder { sub_stops: Some(v), ..self }),
    {
        RefreshJourneyBuilder { sub_stops: Some(v), ..self }
    }

    /// Parse entrances of stops/stations?
    pub fn entrances(self, v: bool) -> (b: Self)
        ensures
            b == (RefreshJourneyBuilder { entrances: Some(v), ..self }),
    {
        RefreshJourneyBuilder { entrances: Some(v), ..self }
    }

    /// Include hints & warnings (default on).
    pub fn remarks(self, v: bool) -> (b: Self)
        ensures
            b == (RefreshJourneyBuilder { remarks: Some(v), ..self }),
    {
        RefreshJourneyBuilder { remarks: Some(v), ..self }
    }

    /// Include the days the journey is served.
    pub fn scheduled_days(self, v: bool) -> (b: Self)
        ensures
            b == (RefreshJourneyBuilder { scheduled_days: Some(v), ..self }),
    {
        RefreshJourneyBuilder { scheduled_days: Some(v), ..self }
    }

    /// Also show non-optimal journeys (DB only).
    pub fn not_only_fast_routes(self, v: bool) -> (b: Self)
        ensures
            b == (RefreshJourneyBuilder { not_only_fast_routes: Some(v), ..self }),
    {
        RefreshJourneyBuilder { not_only_fast_routes: Some(v), ..self }
    }

    /// Search lowest prices across the day (DB only).
    pub fn bestprice(self, v: bool) -> (b: Self)
        ensures
            b == (RefreshJourneyBuilder { bestprice: Some(v), ..self }),
    {
        RefreshJourneyBuilder { bestprice: Some(v), ..self }
    }

    /// Language of result texts.
    pub fn language(self, v: String) -> (b: Self)
        ensures
            b == (RefreshJourneyBuilder { language: Some(v), ..self }),
    {
        RefreshJourneyBuilder { language: Some(v), ..self }
    }

    /// Validate and plan `GET /journeys/{ref}`: the token must not be blank
    /// and `tickets` and `polylines` must not both be on.
    pub fn plan(&self) -> (r: Result<RequestPlan, TransportRestError>)
        ensures
            if is_blank_spec(self.refresh_token@) {
                r matches Err(e) && is_invalid_param(e, Some("refresh_token"@), "must not be empty"@)
            } else if self.tickets == Some(true) && self.polylines == Some(true) {
                r matches Err(e) && is_invalid_param(
                    e,
                    None,
                    "tickets and polylines are mutually exclusive"@,
                )
            } else {
                plans(
                    r,
                    "/journeys/"@ + encode_path_segment_spec(self.refresh_token@),
                    refresh_params(*self),
                )
            },
    {
        if is_blank(self.refresh_token.as_str()) {
            return Err(invalid(Some("refresh_token"), "must not be empty"));
        }
        if self.tickets.unwrap_or(false) && self.polylines.unwrap_or(false) {
            return Err(invalid(None, "tickets and polylines are mutually exclusive"));
        }
        let mut q = Query::new();
        q.opt_bool("stopovers", self.stopovers);
        q.opt_bool("tickets", self.tickets);
        q.opt_bool("polylines", self.polylines);
        q.opt_bool("subStops", self.sub_stops);
        q.opt_bool("entrances", self.entrances);
        q.opt_bool("remarks", self.remarks);
        q.opt_bool("scheduledDays", self.scheduled_days);
        q.opt_bool("notOnlyFastRoutes", self.not_only_fast_routes);
        q.opt_bool("bestprice", self.bestprice);
        q.opt_str("language", clone_opt(&self.language));
        proof {
            assert(q@ =~= refresh_params(*self));
        }
        let path = concat("/journeys/", encode_path_segment(self.refresh_token.as_str()).as_str());
        Ok(RequestPlan { path, query: q })
    }
}


/// A journey search that passes validation sets at most one time anchor:
/// `departure`, `arrival`, `earlier_than` or `later_than`; and only the
/// known walking speeds and accessibility levels.
pub proof fn law_journey_time_options_exclusive<H>(b: JourneysBuilder<H>)
    requires
        journeys_problem(b) is None,
    ensures
        !(b.departure is Some && b.arrival is Some),
        !(b.earlier_than is Some && b.later_than is Some),
        (b.earlier_than is Some || b.later_than is Some) ==> (b.departure is None && b.arrival is None),
        one_of(b.walking_speed, seq!["slow"@, "normal"@, "fast"@]),
        one_of(b.accessibility, seq!["partial"@, "complete"@]),
{
}

/// The keys of a journey search's parameters, spelled out far enough to
/// tell them apart.
proof fn journey_key_facts()
    ensures
        "departure"@.len() == 9 && "departure"@[0] == 'd' && "departure"@[1] == 'e' && "departure"@[2] == 'p',
        "arrival"@.len() == 7 && "arrival"@[0] == 'a' && "arrival"@[1] == 'r' && "arrival"@[2] == 'r',
        "earlierThan"@.len() == 11 && "earlierThan"@[0] == 'e' && "earlierThan"@[1] == 'a' && "earlierThan"@[2] == 'r',
        "laterThan"@.len() == 9 && "laterThan"@[0] == 'l' && "laterThan"@[1] == 'a' && "laterThan"@[2] == 't',
        "results"@.len() == 7 && "results"@[0] == 'r' && "results"@[1] == 'e' && "results"@[2] == 's',
        "stopovers"@.len() == 9 && "stopovers"@[0] == 's' && "stopovers"@[1] == 't' && "stopovers"@[2] == 'o',
        "transfers"@.len() == 9 && "transfers"@[0] == 't' && "transfers"@[1] == 'r' && "transfers"@[2] == 'a',
        "transferTime"@.len() == 12 && "transferTime"@[0] == 't' && "transferTime"@[1] == 'r' && "transferTime"@[2] == 'a',
        "accessibility"@.len() == 13 && "accessibility"@[0] == 'a' && "accessibility"@[1] == 'c' && "accessibility"@[2] == 'c',
        "bike"@.len() == 4 && "bike"@[0] == 'b' && "bike"@[1] == 'i' && "bike"@[2] == 'k',
        "startWithWalking"@.len() == 16 && "startWithWalking"@[0] == 's' && "startWithWalking"@[1] == 't' && "startWithWalking"@[2] == 'a',
        "walkingSpeed"@.len() == 12 && "walkingSpeed"@[0] == 'w' && "walkingSpeed"@[1] == 'a' && "walkingSpeed"@[2] == 'l',
        "tickets"@.len() == 7 && "tickets"@[0] == 't' && "tickets"@[1] == 'i' && "tickets"@[2] == 'c',
        "polylines"@.len() == 9 && "polylines"@[0] == 'p' && "polylines"@[1] == 'o' && "polylines"@[2] == 'l',
        "subStops"@.len() == 8 && "subStops"@[0] == 's' && "subStops"@[1] == 'u' && "subStops"@[2] == 'b',
        "entrances"@.len() == 9 && "entrances"@[0] == 'e' && "entrances"@[1] == 'n' && "entrances"@[2] == 't',
        "remarks"@.len() == 7 && "remarks"@[0] == 'r' && "remarks"@[1] == 'e' && "remarks"@[2] == 'm',
        "scheduledDays"@.len() == 13 && "scheduledDays"@[0] == 's' && "scheduledDays"@[1] == 'c' && "scheduledDays"@[2] == 'h',
        "notOnlyFastRoutes"@.len() == 17 && "notOnlyFastRoutes"@[0] == 'n' && "notOnlyFastRoutes"@[1] == 'o' && "notOnlyFastRoutes"@[2] == 't',
        "bestprice"@.len() == 9 && "bestprice"@[0] == 'b' && "bestprice"@[1] == 'e' && "bestprice"@[2] == 's',
        "deutschlandTicketConnectionsOnly"@.len() == 32 && "deutschlandTicketConnectionsOnly"@[0] == 'd' && "deutschlandTicketConnectionsOnly"@[1] == 'e' && "deutschlandTicketConnectionsOnly"@[2] == 'u',
        "loyaltyCard"@.len() == 11 && "loyaltyCard"@[0] == 'l' && "loyaltyCard"@[1] == 'o' && "loyaltyCard"@[2] == 'y',
        "firstClass"@.len() == 10 && "firstClass"@[0] == 'f' && "firstClass"@[1] == 'i' && "firstClass"@[2] == 'r',
        "age"@.len() == 3 && "age"@[0] == 'a' && "age"@[1] == 'g' && "age"@[2] == 'e',
        "ageGroup"@.len() == 8 && "ageGroup"@[0] == 'a' && "ageGroup"@[1] == 'g' && "ageGroup"@[2] == 'e',
        "routingMode"@.len() == 11 && "routingMode"@[0] == 'r' && "routingMode"@[1] == 'o' && "routingMode"@[2] == 'u',
        "from"@.len() == 4 && "from"@[0] == 'f' && "from"@[1] == 'r',
        "to"@.len() == 2 && "to"@[0] == 't' && "to"@[1] == 'o',
        "via"@.len() == 3 && "via"@[0] == 'v' && "via"@[1] == 'i',
{
    reveal_strlit("departure");
    reveal_strlit("arrival");
    reveal_strlit("earlierThan");
    reveal_strlit("laterThan");
    reveal_strlit("results");
    reveal_strlit("stopovers");
    reveal_strlit("transfers");
    reveal_strlit("transferTime");
    reveal_strlit("accessibility");
    reveal_strlit("bike");
    reveal_strlit("startWithWalking");
    reveal_strlit("walkingSpeed");
    reveal_strlit("tickets");
    reveal_strlit("polylines");
    reveal_strlit("subStops");
    reveal_strlit("entrances");
    reveal_strlit("remarks");
    reveal_strlit("scheduledDays");
    reveal_strlit("notOnlyFastRoutes");
    reveal_strlit("bestprice");
    reveal_strlit("deutschlandTicketConnectionsOnly");
    reveal_strlit("loyaltyCard");
    reveal_strlit("firstClass");
    reveal_strlit("age");
    reveal_strlit("ageGroup");
    reveal_strlit("routingMode");
    reveal_strlit("from");
    reveal_strlit("to");
    reveal_strlit("via");
}

#[verifier::rlimit(40)]
proof fn lemma_journey_sends_departure<H>(b: JourneysBuilder<H>)
    ensures
        (b.departure is Some || b.products is None) ==> param_value(journeys_params(b), "departure"@) == sent_time(b.departure),
{
    journey_key_facts();
    lemma_param_value_concat_all();
    lemma_param_value_options("departure"@);
    lemma_place_params_other_key(b.from, "from"@, "departure"@);
    lemma_place_params_other_key(b.to, "to"@, "departure"@);
    if let Some(v) = b.via {
        lemma_place_params_other_key(v, "via"@, "departure"@);
    } else {
        assert(param_value(Seq::<(Seq<char>, Seq<char>)>::empty(), "departure"@) is None);
    }
    if b.products is None {
        assert(param_value(Seq::<(Seq<char>, Seq<char>)>::empty(), "departure"@) is None);
    }
}

#[verifier::rlimit(40)]
proof fn lemma_journey_sends_arrival<H>(b: JourneysBuilder<H>)
    ensures
        (b.arrival is Some || b.products is None) ==> param_value(journeys_params(b), "arrival"@) == sent_time(b.arrival),
{
    journey_key_facts();
    lemma_param_value_concat_all();
    lemma_param_value_options("arrival"@);
    lemma_place_params_other_key(b.from, "from"@, "arrival"@);
    lemma_place_params_other_key(b.to, "to"@, "arrival"@);
    if let Some(v) = b.via {
        lemma_place_params_other_key(v, "via"@, "arrival"@);
    } else {
        assert(param_value(Seq::<(Seq<char>, Seq<char>)>::empty(), "arrival"@) is None);
    }
    if b.products is None {
        assert(param_value(Seq::<(Seq<char>, Seq<char>)>::empty(), "arrival"@) is None);
    }
}

#[verifier::rlimit(40)]
proof fn lemma_journey_sends_earlier_than<H>(b: JourneysBuilder<H>)
    ensures
        (b.earlier_than is Some || b.products is None) ==> param_value(journeys_params(b), "earlierThan"@) == sent_str(b.earlier_than),
{
    journey_key_facts();
    lemma_param_value_concat_all();
    lemma_param_value_options("earlierThan"@);
    lemma_place_params_other_key(b.from, "from"@, "earlierThan"@);
    lemma_place_params_other_key(b.to, "to"@, "earlierThan"@);
    if let Some(v) = b.via {
        lemma_place_params_other_key(v, "via"@, "earlierThan"@);
    } else {
        assert(param_value(Seq::<(Seq<char>, Seq<char>)>::empty(), "earlierThan"@) is None);
    }
    if b.products is None {
        assert(param_value(Seq::<(Seq<char>, Seq<char>)>::empty(), "earlierThan"@) is None);
    }
}

#[verifier::rlimit(40)]
proof fn lemma_journey_sends_later_than<H>(b: JourneysBuilder<H>)
    ensures
        (b.later_than is Some || b.products is None) ==> param_value(journeys_params(b), "laterThan"@) == sent_str(b.later_than),
{
    journey_key_facts();
    lemma_param_value_concat_all();
    lemma_param_value_options("laterThan"@);
    lemma_place_params_other_key(b.from, "from"@, "laterThan"@);
    lemma_place_params_other_key(b.to, "to"@, "laterThan"@);
    if let Some(v) = b.via {
        lemma_place_params_other_key(v, "via"@, "laterThan"@);
    } else {
        assert(param_value(Seq::<(Seq<char>, Seq<char>)>::empty(), "laterThan"@) is None);
    }
    if b.products is None {
        assert(param_value(Seq::<(Seq<char>, Seq<char>)>::empty(), "laterThan"@) is None);
    }
}

#[verifier::rlimit(40)]
proof fn lemma_journey_sends_results<H>(b: JourneysBuilder<H>)
    ensures
        (b.results is Some || b.products is None) ==> param_value(journeys_params(b), "results"@) == sent_int(b.results),
{
    journey_key_facts();
    lemma_param_value_concat_all();
    lemma_param_value_options("results"@);
    lemma_place_params_other_key(b.from, "from"@, "results"@);
    lemma_place_params_other_key(b.to, "to"@, "results"@);
    if let Some(v) = b.via {
        lemma_place_params_other_key(v, "via"@, "results"@);
    } else {
        assert(param_value(Seq::<(Seq<char>, Seq<char>)>::empty(), "results"@) is None);
    }
    if b.products is None {
        assert(param_value(Seq::<(Seq<char>, Seq<char>)>::empty(), "results"@) is None);
    }
}

#[verifier::rlimit(40)]
proof fn lemma_journey_sends_stopovers<H>(b: JourneysBuilder<H>)
    ensures
        (b.stopovers is Some || b.products is None) ==> param_value(journeys_params(b), "stopovers"@) == sent_bool(b.stopovers),
{
    journey_key_facts();
    lemma_param_value_concat_all();
    lemma_param_value_options("stopovers"@);
    lemma_place_params_other_key(b.from, "from"@, "stopovers"@);
    lemma_place_params_other_key(b.to, "to"@, "stopovers"@);
    if let Some(v) = b.via {
        lemma_place_params_other_key(v, "via"@, "stopovers"@);
    } else {
        assert(param_value(Seq::<(Seq<char>, Seq<char>)>::empty(), "stopovers"@) is None);
    }
    if b.products is None {
        assert(param_value(Seq::<(Seq<char>, Seq<char>)>::empty(), "stopovers"@) is None);
    }
}

#[verifier::rlimit(40)]
proof fn lemma_journey_sends_transfers<H>(b: JourneysBuilder<H>)
    ensures
        (b.transfers is Some || b.products is None) ==> param_value(journeys_params(b), "transfers"@) == sent_int(b.transfers),
{
    journey_key_facts();
    lemma_param_value_concat_all();
    lemma_param_value_options("transfers"@);
    lemma_place_params_other_key(b.from, "from"@, "transfers"@);
    lemma_place_params_other_key(b.to, "to"@, "transfers"@);
    if let Some(v) = b.via {
        lemma_place_params_other_key(v, "via"@, "transfers"@);
    } else {
        assert(param_value(Seq::<(Seq<char>, Seq<char>)>::empty(), "transfers"@) is None);
    }
    if b.products is None {
        assert(param_value(Seq::<(Seq<char>, Seq<char>)>::empty(), "transfers"@) is None);
    }
}

#[verifier::rlimit(40)]
proof fn lemma_journey_sends_transfer_time<H>(b: JourneysBuilder<H>)
    ensures
        (b.transfer_time is Some || b.products is None) ==> param_value(journeys_params(b), "transferTime"@) == sent_int(b.transfer_time),
{
    journey_key_facts();
    lemma_param_value_concat_all();
    lemma_param_value_options("transferTime"@);
    lemma_place_params_other_key(b.from, "from"@, "transferTime"@);
    lemma_place_params_other_key(b.to, "to"@, "transferTime"@);
    if let Some(v) = b.via {
        lemma_place_params_other_key(v, "via"@, "transferTime"@);
    } else {
        assert(param_value(Seq::<(Seq<char>, Seq<char>)>::empty(), "transferTime"@) is None);
    }
    if b.products is None {
        assert(param_value(Seq::<(Seq<char>, Seq<char>)>::empty(), "transferTime"@) is None);
    }
}

#[verifier::rlimit(40)]
proof fn lemma_journey_sends_accessibility<H>(b: JourneysBuilder<H>)
    ensures
        (b.accessibility is Some || b.products is None) ==> param_value(journeys_params(b), "accessibility"@) == sent_str(b.accessibility),
{
    journey_key_facts();
    lemma_param_value_concat_all();
    lemma_param_value_options("accessibility"@);
    lemma_place_params_other_key(b.from, "from"@, "accessibility"@);
    lemma_place_params_other_key(b.to, "to"@, "accessibility"@);
    if let Some(v) = b.via {
        lemma_place_params_other_key(v, "via"@, "accessibility"@);
    } else {
        assert(param_value(Seq::<(Seq<char>, Seq<char>)>::empty(), "accessibility"@) is None);
    }
    if b.products is None {
        assert(param_value(Seq::<(Seq<char>, Seq<char>)>::empty(), "accessibility"@) is None);
    }
}

#[verifier::rlimit(40)]
proof fn lemma_journey_sends_bike<H>(b: JourneysBuilder<H>)
    ensures
        (b.bike is Some || b.products is None) ==> param_value(journeys_params(b), "bike"@) == sent_bool(b.bike),
{
    journey_key_facts();
    lemma_param_value_concat_all();
    lemma_param_value_options("bike"@);
    lemma_place_params_other_key(b.from, "from"@, "bike"@);
    lemma_place_params_other_key(b.to, "to"@, "bike"@);
    if let Some(v) = b.via {
        lemma_place_params_other_key(v, "via"@, "bike"@);
    } else {
        assert(param_value(Seq::<(Seq<char>, Seq<char>)>::empty(), "bike"@) is None);
    }
    if b.products is None {
        assert(param_value(Seq::<(Seq<char>, Seq<char>)>::empty(), "bike"@) is None);
    }
}

#[verifier::rlimit(40)]
proof fn lemma_journey_sends_start_with_walking<H>(b: JourneysBuilder<H>)
    ensures
        (b.start_with_walking is Some || b.products is None) ==> param_value(journeys_params(b), "startWithWalking"@) == sent_bool(b.start_with_walking),
{
    journey_key_facts();
    lemma_param_value_concat_all();
    lemma_param_value_options("startWithWalking"@);
    lemma_place_params_other_key(b.from, "from"@, "startWithWalking"@);
    lemma_place_params_other_key(b.to, "to"@, "startWithWalking"@);
    if let Some(v) = b.via {
        lemma_place_params_other_key(v, "via"@, "startWithWalking"@);
    } else {
        assert(param_value(Seq::<(Seq<char>, Seq<char>)>::empty(), "startWithWalking"@) is None);
    }
    if b.products is None {
        assert(param_value(Seq::<(Seq<char>, Seq<char>)>::empty(), "startWithWalking"@) is None);
    }
}

#[verifier::rlimit(40)]
proof fn lemma_journey_sends_walking_speed<H>(b: JourneysBuilder<H>)
    ensures
        (b.walking_speed is Some || b.products is None) ==> param_value(journeys_params(b), "walkingSpeed"@) == sent_str(b.walking_speed),
{
    journey_key_facts();
    lemma_param_value_concat_all();
    lemma_param_value_options("walkingSpeed"@);
    lemma_place_params_other_key(b.from, "from"@, "walkingSpeed"@);
    lemma_place_params_other_key(b.to, "to"@, "walkingSpeed"@);
    if let Some(v) = b.via {
        lemma_place_params_other_key(v, "via"@, "walkingSpeed"@);
    } else {
        assert(param_value(Seq::<(Seq<char>, Seq<char>)>::empty(), "walkingSpeed"@) is None);
    }
    if b.products is None {
        assert(param_value(Seq::<(Seq<char>, Seq<char>)>::empty(), "walkingSpeed"@) is None);
    }
}

#[verifier::rlimit(40)]
proof fn lemma_journey_sends_tickets<H>(b: JourneysBuilder<H>)
    ensures
        (b.tickets is Some || b.products is None) ==> param_value(journeys_params(b), "tickets"@) == sent_bool(b.tickets),
{
    journey_key_facts();
    lemma_param_value_concat_all();
    lemma_param_value_options("tickets"@);
    lemma_place_params_other_key(b.from, "from"@, "tickets"@);
    lemma_place_params_other_key(b.to, "to"@, "tickets"@);
    if let Some(v) = b.via {
        lemma_place_params_other_key(v, "via"@, "tickets"@);
    } else {
        assert(param_value(Seq::<(Seq<char>, Seq<char>)>::empty(), "tickets"@) is None);
    }
    if b.products is None {
        assert(param_value(Seq::<(Seq<char>, Seq<char>)>::empty(), "tickets"@) is None);
    }
}

#[verifier::rlimit(40)]
proof fn lemma_journey_sends_polylines<H>(b: JourneysBuilder<H>)
    ensures
        (b.polylines is Some || b.products is None) ==> param_value(journeys_params(b), "polylines"@) == sent_bool(b.polylines),
{
    journey_key_facts();
    lemma_param_value_concat_all();
    lemma_param_value_options("polylines"@);
    lemma_place_params_other_key(b.from, "from"@, "polylines"@);
    lemma_place_params_other_key(b.to, "to"@, "polylines"@);
    if let Some(v) = b.via {
        lemma_place_params_other_key(v, "via"@, "polylines"@);
    } else {
        assert(param_value(Seq::<(Seq<char>, Seq<char>)>::empty(), "polylines"@) is None);
    }
    if b.products is None {
        assert(param_value(Seq::<(Seq<char>, Seq<char>)>::empty(), "polylines"@) is None);
    }
}

#[verifier::rlimit(40)]
proof fn lemma_journey_sends_sub_stops<H>(b: JourneysBuilder<H>)
    ensures
        (b.sub_stops is Some || b.products is None) ==> param_value(journeys_params(b), "subStops"@) == sent_bool(b.sub_stops),
{
    journey_key_facts();
    lemma_param_value_concat_all();
    lemma_param_value_options("subStops"@);
    lemma_place_params_other_key(b.from, "from"@, "subStops"@);
    lemma_place_params_other_key(b.to, "to"@, "subStops"@);
    if let Some(v) = b.via {
        lemma_place_params_other_key(v, "via"@, "subStops"@);
    } else {
        assert(param_value(Seq::<(Seq<char>, Seq<char>)>::empty(), "subStops"@) is None);
    }
    if b.products is None {
        assert(param_value(Seq::<(Seq<char>, Seq<char>)>::empty(), "subStops"@) is None);
    }
}

#[verifier::rlimit(40)]
proof fn lemma_journey_sends_entrances<H>(b: JourneysBuilder<H>)
    ensures
        (b.entrances is Some || b.products is None) ==> param_value(journeys_params(b), "entrances"@) == sent_bool(b.entrances),
{
    journey_key_facts();
    lemma_param_value_concat_all();
    lemma_param_value_options("entrances"@);
    lemma_place_params_other_key(b.from, "from"@, "entrances"@);
    lemma_place_params_other_key(b.to, "to"@, "entrances"@);
    if let Some(v) = b.via {
        lemma_place_params_other_key(v, "via"@, "entrances"@);
    } else {
        assert(param_value(Seq::<(Seq<char>, Seq<char>)>::empty(), "entrances"@) is None);
    }
    if b.products is None {
        assert(param_value(Seq::<(Seq<char>, Seq<char>)>::empty(), "entrances"@) is None);
    }
}

#[verifier::rlimit(40)]
proof fn lemma_journey_sends_remarks<H>(b: JourneysBuilder<H>)
    ensures
        (b.remarks is Some || b.products is None) ==> param_value(journeys_params(b), "remarks"@) == sent_bool(b.remarks),
{
    journey_key_facts();
    lemma_param_value_concat_all();
    lemma_param_value_options("remarks"@);
    lemma_place_params_other_key(b.from, "from"@, "remarks"@);
    lemma_place_params_other_key(b.to, "to"@, "remarks"@);
    if let Some(v) = b.via {
        lemma_place_params_other_key(v, "via"@, "remarks"@);
    } else {
        assert(param_value(Seq::<(Seq<char>, Seq<char>)>::empty(), "remarks"@) is None);
    }
    if b.products is None {
        assert(param_value(Seq::<(Seq<char>, Seq<char>)>::empty(), "remarks"@) is None);
    }
}

#[verifier::rlimit(40)]
proof fn lemma_journey_sends_scheduled_days<H>(b: JourneysBuilder<H>)
    ensures
        (b.scheduled_days is Some || b.products is None) ==> param_value(journeys_params(b), "scheduledDays"@) == sent_bool(b.scheduled_days),
{
    journey_key_facts();
    lemma_param_value_concat_all();
    lemma_param_value_options("scheduledDays"@);
    lemma_place_params_other_key(b.from, "from"@, "scheduledDays"@);
    lemma_place_params_other_key(b.to, "to"@, "scheduledDays"@);
    if let Some(v) = b.via {
        lemma_place_params_other_key(v, "via"@, "scheduledDays"@);
    } else {
        assert(param_value(Seq::<(Seq<char>, Seq<char>)>::empty(), "scheduledDays"@) is None);
    }
    if b.products is None {
        assert(param_value(Seq::<(Seq<char>, Seq<char>)>::empty(), "scheduledDays"@) is None);
    }
}

#[verifier::rlimit(40)]
proof fn lemma_journey_sends_not_only_fast_routes<H>(b: JourneysBuilder<H>)
    ensures
        (b.not_only_fast_routes is Some || b.products is None) ==> param_value(journeys_params(b), "notOnlyFastRoutes"@) == sent_bool(b.not_only_fast_routes),
{
    journey_key_facts();
    lemma_param_value_concat_all();
    lemma_param_value_options("notOnlyFastRoutes"@);
    lemma_place_params_other_key(b.from, "from"@, "notOnlyFastRoutes"@);
    lemma_place_params_other_key(b.to, "to"@, "notOnlyFastRoutes"@);
    if let Some(v) = b.via {
        lemma_place_params_other_key(v, "via"@, "notOnlyFastRoutes"@);
    } else {
        assert(param_value(Seq::<(Seq<char>, Seq<char>)>::empty(), "notOnlyFastRoutes"@) is None);
    }
    if b.products is None {
        assert(param_value(Seq::<(Seq<char>, Seq<char>)>::empty(), "notOnlyFastRoutes"@) is None);
    }
}

#[verifier::rlimit(40)]
proof fn lemma_journey_sends_bestprice<H>(b: JourneysBuilder<H>)
    ensures
        (b.bestprice is Some || b.products is None) ==> param_value(journeys_params(b), "bestprice"@) == sent_bool(b.bestprice),
{
    journey_key_facts();
    lemma_param_value_concat_all();
    lemma_param_value_options("bestprice"@);
    lemma_place_params_other_key(b.from, "from"@, "bestprice"@);
    lemma_place_params_other_key(b.to, "to"@, "bestprice"@);
    if let Some(v) = b.via {
        lemma_place_params_other_key(v, "via"@, "bestprice"@);
    } else {
        assert(param_value(Seq::<(Seq<char>, Seq<char>)>::empty(), "bestprice"@) is None);
    }
    if b.products is None {
        assert(param_value(Seq::<(Seq<char>, Seq<char>)>::empty(), "bestprice"@) is None);
    }
}

#[verifier::rlimit(40)]
proof fn lemma_journey_sends_deutschland_ticket_connections_only<H>(b: JourneysBuilder<H>)
    ensures
        (b.deutschland_ticket_connections_only is Some || b.products is None) ==> param_value(journeys_params(b), "deutschlandTicketConnectionsOnly"@) == sent_bool(b.deutschland_ticket_connections_only),
{
    journey_key_facts();
    lemma_param_value_concat_all();
    lemma_param_value_options("deutschlandTicketConnectionsOnly"@);
    lemma_place_params_other_key(b.from, "from"@, "deutschlandTicketConnectionsOnly"@);
    lemma_place_params_other_key(b.to, "to"@, "deutschlandTicketConnectionsOnly"@);
    if let Some(v) = b.via {
        lemma_place_params_other_key(v, "via"@, "deutschlandTicketConnectionsOnly"@);
    } else {
        assert(param_value(Seq::<(Seq<char>, Seq<char>)>::empty(), "deutschlandTicketConnectionsOnly"@) is None);
    }
    if b.products is None {
        assert(param_value(Seq::<(Seq<char>, Seq<char>)>::empty(), "deutschlandTicketConnectionsOnly"@) is None);
    }
}

#[verifier::rlimit(40)]
proof fn lemma_journey_sends_loyalty_card<H>(b: JourneysBuilder<H>)
    ensures
        (b.loyalty_card is Some || b.products is None) ==> param_value(journeys_params(b), "loyaltyCard"@) == sent_str(b.loyalty_card),
{
    journey_key_facts();
    lemma_param_value_concat_all();
    lemma_param_value_options("loyaltyCard"@);
    lemma_place_params_other_key(b.from, "from"@, "loyaltyCard"@);
    lemma_place_params_other_key(b.to, "to"@, "loyaltyCard"@);
    if let Some(v) = b.via {
        lemma_place_params_other_key(v, "via"@, "loyaltyCard"@);
    } else {
        assert(param_value(Seq::<(Seq<char>, Seq<char>)>::empty(), "loyaltyCard"@) is None);
    }
    if b.products is None {
        assert(param_value(Seq::<(Seq<char>, Seq<char>)>::empty(), "loyaltyCard"@) is None);
    }
}

#[verifier::rlimit(40)]
proof fn lemma_journey_sends_first_class<H>(b: JourneysBuilder<H>)
    ensures
        (b.first_class is Some || b.products is None) ==> param_value(journeys_params(b), "firstClass"@) == sent_bool(b.first_class),
{
    journey_key_facts();
    lemma_param_value_concat_all();
    lemma_param_value_options("firstClass"@);
    lemma_place_params_other_key(b.from, "from"@, "firstClass"@);
    lemma_place_params_other_key(b.to, "to"@, "firstClass"@);
    if let Some(v) = b.via {
        lemma_place_params_other_key(v, "via"@, "firstClass"@);
    } else {
        assert(param_value(Seq::<(Seq<char>, Seq<char>)>::empty(), "firstClass"@) is None);
    }
    if b.products is None {
        assert(param_value(Seq::<(Seq<char>, Seq<char>)>::empty(), "firstClass"@) is None);
    }
}

#[verifier::rlimit(40)]
proof fn lemma_journey_sends_age<H>(b: JourneysBuilder<H>)
    ensures
        (b.age is Some || b.products is None) ==> param_value(journeys_params(b), "age"@) == sent_int(b.age),
{
    journey_key_facts();
    lemma_param_value_concat_all();
    lemma_param_value_options("age"@);
    lemma_place_params_other_key(b.from, "from"@, "age"@);
    lemma_place_params_other_key(b.to, "to"@, "age"@);
    if let Some(v) = b.via {
        lemma_place_params_other_key(v, "via"@, "age"@);
    } else {
        assert(param_value(Seq::<(Seq<char>, Seq<char>)>::empty(), "age"@) is None);
    }
    if b.products is None {
        assert(param_value(Seq::<(Seq<char>, Seq<char>)>::empty(), "age"@) is None);
    }
}

#[verifier::rlimit(40)]
proof fn lemma_journey_sends_age_group<H>(b: JourneysBuilder<H>)
    ensures
        (b.age_group is Some || b.products is None) ==> param_value(journeys_params(b), "ageGroup"@) == sent_str(b.age_group),
{
    journey_key_facts();
    lemma_param_value_concat_all();
    lemma_param_value_options("ageGroup"@);
    lemma_place_params_other_key(b.from, "from"@, "ageGroup"@);
    lemma_place_params_other_key(b.to, "to"@, "ageGroup"@);
    if let Some(v) = b.via {
        lemma_place_params_other_key(v, "via"@, "ageGroup"@);
    } else {
        assert(param_value(Seq::<(Seq<char>, Seq<char>)>::empty(), "ageGroup"@) is None);
    }
    if b.products is None {
        assert(param_value(Seq::<(Seq<char>, Seq<char>)>::empty(), "ageGroup"@) is None);
    }
}

#[verifier::rlimit(40)]
proof fn lemma_journey_sends_routing_mode<H>(b: JourneysBuilder<H>)
    ensures
        (b.routing_mode is Some || b.products is None) ==> param_value(journeys_params(b), "routingMode"@) == sent_str(b.routing_mode),
{
    journey_key_facts();
    lemma_param_value_concat_all();
    lemma_param_value_options("routingMode"@);
    lemma_place_params_other_key(b.from, "from"@, "routingMode"@);
    lemma_place_params_other_key(b.to, "to"@, "routingMode"@);
    if let Some(v) = b.via {
        lemma_place_params_other_key(v, "via"@, "routingMode"@);
    } else {
        assert(param_value(Seq::<(Seq<char>, Seq<char>)>::empty(), "routingMode"@) is None);
    }
    if b.products is None {
        assert(param_value(Seq::<(Seq<char>, Seq<char>)>::empty(), "routingMode"@) is None);
    }
}

/// A journey search sends the time it was given under the option's own
/// key: a departure time as `departure`, an arrival time as `arrival`, the
/// pagination references as `earlierThan` and `laterThan`; an option that
/// was not set sends nothing under its key (unless a product selection uses
/// that key, which is sent as it stands).
pub proof fn law_journey_time_options_under_their_keys<H>(b: JourneysBuilder<H>)
    ensures
        (b.departure is Some || b.products is None) ==> param_value(journeys_params(b), "departure"@) == sent_time(b.departure),
        (b.arrival is Some || b.products is None) ==> param_value(journeys_params(b), "arrival"@) == sent_time(b.arrival),
        (b.earlier_than is Some || b.products is None) ==> param_value(journeys_params(b), "earlierThan"@) == sent_str(b.earlier_than),
        (b.later_than is Some || b.products is None) ==> param_value(journeys_params(b), "laterThan"@) == sent_str(b.later_than),
{
    lemma_journey_sends_departure(b);
    lemma_journey_sends_arrival(b);
    lemma_journey_sends_earlier_than(b);
    lemma_journey_sends_later_than(b);
}

/// A journey search sends each of its other options that was set under its
/// own key with its value, and nothing under the key of one that was not
/// set (unless a product selection uses that key).
pub proof fn law_journey_options_under_their_keys<H>(b: JourneysBuilder<H>)
    ensures
        (b.results is Some || b.products is None) ==> param_value(journeys_params(b), "results"@) == sent_int(b.results),
        (b.stopovers is Some || b.products is None) ==> param_value(journeys_params(b), "stopovers"@) == sent_bool(b.stopovers),
        (b.transfers is Some || b.products is None) ==> param_value(journeys_params(b), "transfers"@) == sent_int(b.transfers),
        (b.transfer_time is Some || b.products is None) ==> param_value(journeys_params(b), "transferTime"@) == sent_int(b.transfer_time),
        (b.accessibility is Some || b.products is None) ==> param_value(journeys_params(b), "accessibility"@) == sent_str(b.accessibility),
        (b.bike is Some || b.products is None) ==> param_value(journeys_params(b), "bike"@) == sent_bool(b.bike),
        (b.start_with_walking is Some || b.products is None) ==> param_value(journeys_params(b), "startWithWalking"@) == sent_bool(b.start_with_walking),
        (b.walking_speed is Some || b.products is None) ==> param_value(journeys_params(b), "walkingSpeed"@) == sent_str(b.walking_speed),
        (b.tickets is Some || b.products is None) ==> param_value(journeys_params(b), "tickets"@) == sent_bool(b.tickets),
        (b.polylines is Some || b.products is None) ==> param_value(journeys_params(b), "polylines"@) == sent_bool(b.polylines),
        (b.sub_stops is Some || b.products is None) ==> param_value(journeys_params(b), "subStops"@) == sent_bool(b.sub_stops),
        (b.entrances is Some || b.products is None) ==> param_value(journeys_params(b), "entrances"@) == sent_bool(b.entrances),
        (b.remarks is Some || b.products is None) ==> param_value(journeys_params(b), "remarks"@) == sent_bool(b.remarks),
        (b.scheduled_days is Some || b.products is None) ==> param_value(journeys_params(b), "scheduledDays"@) == sent_bool(b.scheduled_days),
        (b.not_only_fast_routes is Some || b.products is None) ==> param_value(journeys_params(b), "notOnlyFastRoutes"@) == sent_bool(b.not_only_fast_routes),
        (b.bestprice is Some || b.products is None) ==> param_value(journeys_params(b), "bestprice"@) == sent_bool(b.bestprice),
        (b.deutschland_ticket_connections_only is Some || b.products is None) ==> param_value(journeys_params(b), "deutschlandTicketConnectionsOnly"@) == sent_bool(b.deutschland_ticket_connections_only),
        (b.loyalty_card is Some || b.products is None) ==> param_value(journeys_params(b), "loyaltyCard"@) == sent_str(b.loyalty_card),
        (b.first_class is Some || b.products is None) ==> param_value(journeys_params(b), "firstClass"@) == sent_bool(b.first_class),
        (b.age is Some || b.products is None) ==> param_value(journeys_params(b), "age"@) == sent_int(b.age),
        (b.age_group is Some || b.products is None) ==> param_value(journeys_params(b), "ageGroup"@) == sent_str(b.age_group),
        (b.routing_mode is Some || b.products is None) ==> param_value(journeys_params(b), "routingMode"@) == sent_str(b.routing_mode),
{
    lemma_journey_sends_results(b);
    lemma_journey_sends_stopovers(b);
    lemma_journey_sends_transfers(b);
    lemma_journey_sends_transfer_time(b);
    lemma_journey_sends_accessibility(b);
    lemma_journey_sends_bike(b);
    lemma_journey_sends_start_with_walking(b);
    lemma_journey_sends_walking_speed(b);
    lemma_journey_sends_tickets(b);
    lemma_journey_sends_polylines(b);
    lemma_journey_sends_sub_stops(b);
    lemma_journey_sends_entrances(b);
    lemma_journey_sends_remarks(b);
    lemma_journey_sends_scheduled_days(b);
    lemma_journey_sends_not_only_fast_routes(b);
    lemma_journey_sends_bestprice(b);
    lemma_journey_sends_deutschland_ticket_connections_only(b);
    lemma_journey_sends_loyalty_card(b);
    lemma_journey_sends_first_class(b);
    lemma_journey_sends_age(b);
    lemma_journey_sends_age_group(b);
    lemma_journey_sends_routing_mode(b);
}

/// The keys of the parameters, spelled out far enough to tell them apart.
proof fn refresh_key_facts()
    ensures
        "stopovers"@.len() == 9 && "stopovers"@[0] == 's' && "stopovers"@[1] == 't' && "stopovers"@[2] == 'o',
        "tickets"@.len() == 7 && "tickets"@[0] == 't' && "tickets"@[1] == 'i' && "tickets"@[2] == 'c',
        "polylines"@.len() == 9 && "polylines"@[0] == 'p' && "polylines"@[1] == 'o' && "polylines"@[2] == 'l',
        "subStops"@.len() == 8 && "subStops"@[0] == 's' && "subStops"@[1] == 'u' && "subStops"@[2] == 'b',
        "entrances"@.len() == 9 && "entrances"@[0] == 'e' && "entrances"@[1] == 'n' && "entrances"@[2] == 't',
        "remarks"@.len() == 7 && "remarks"@[0] == 'r' && "remarks"@[1] == 'e' && "remarks"@[2] == 'm',
        "scheduledDays"@.len() == 13 && "scheduledDays"@[0] == 's' && "scheduledDays"@[1] == 'c' && "scheduledDays"@[2] == 'h',
        "notOnlyFastRoutes"@.len() == 17 && "notOnlyFastRoutes"@[0] == 'n' && "notOnlyFastRoutes"@[1] == 'o' && "notOnlyFastRoutes"@[2] == 't',
        "bestprice"@.len() == 9 && "bestprice"@[0] == 'b' && "bestprice"@[1] == 'e' && "bestprice"@[2] == 's',
        "language"@.len() == 8 && "language"@[0] == 'l' && "language"@[1] == 'a' && "language"@[2] == 'n',
{
    reveal_strlit("stopovers");
    reveal_strlit("tickets");
    reveal_strlit("polylines");
    reveal_strlit("subStops");
    reveal_strlit("entrances");
    reveal_strlit("remarks");
    reveal_strlit("scheduledDays");
    reveal_strlit("notOnlyFastRoutes");
    reveal_strlit("bestprice");
    reveal_strlit("language");
}

proof fn lemma_refresh_sends_stopovers<H>(b: RefreshJourneyBuilder<H>)
    ensures
        param_value(refresh_params(b), "stopovers"@) == sent_bool(b.stopovers),
{
    refresh_key_facts();
    lemma_param_value_concat_all();
    lemma_param_value_options("stopovers"@);
}

proof fn lemma_refresh_sends_tickets<H>(b: RefreshJourneyBuilder<H>)
    ensures
        param_value(refresh_params(b), "tickets"@) == sent_bool(b.tickets),
{
    refresh_key_facts();
    lemma_param_value_concat_all();
    lemma_param_value_options("tickets"@);
}

proof fn lemma_refresh_sends_polylines<H>(b: RefreshJourneyBuilder<H>)
    ensures
        param_value(refresh_params(b), "polylines"@) == sent_bool(b.polylines),
{
    refresh_key_facts();
    lemma_param_value_concat_all();
    lemma_param_value_options("polylines"@);
}

proof fn lemma_refresh_sends_sub_stops<H>(b: RefreshJourneyBuilder<H>)
    ensures
        param_value(refresh_params(b), "subStops"@) == sent_bool(b.sub_stops),
{
    refresh_key_facts();
    lemma_param_value_concat_all();
    lemma_param_value_options("subStops"@);
}

proof fn lemma_refresh_sends_entrances<H>(b: RefreshJourneyBuilder<H>)
    ensures
        param_value(refresh_params(b), "entrances"@) == sent_bool(b.entrances),
{
    refresh_key_facts();
    lemma_param_value_concat_all();
    lemma_param_value_options("entrances"@);
}

proof fn lemma_refresh_sends_remarks<H>(b: RefreshJourneyBuilder<H>)
    ensures
        param_value(refresh_params(b), "remarks"@) == sent_bool(b.remarks),
{
    refresh_key_facts();
    lemma_param_value_concat_all();
    lemma_param_value_options("remarks"@);
}

proof fn lemma_refresh_sends_scheduled_days<H>(b: RefreshJourneyBuilder<H>)
    ensures
        param_value(refresh_params(b), "scheduledDays"@) == sent_bool(b.scheduled_days),
{
    refresh_key_facts();
    lemma_param_value_concat_all();
    lemma_param_value_options("scheduledDays"@);
}

proof fn lemma_refresh_sends_not_only_fast_routes<H>(b: RefreshJourneyBuilder<H>)
    ensures
        param_value(refresh_params(b), "notOnlyFastRoutes"@) == sent_bool(b.not_only_fast_routes),
{
    refresh_key_facts();
    lemma_param_value_concat_all();
    lemma_param_value_options("notOnlyFastRoutes"@);
}

proof fn lemma_refresh_sends_bestprice<H>(b: RefreshJourneyBuilder<H>)
    ensures
        param_value(refresh_params(b), "bestprice"@) == sent_bool(b.bestprice),
{
    refresh_key_facts();
    lemma_param_value_concat_all();
    lemma_param_value_options("bestprice"@);
}

proof fn lemma_refresh_sends_language<H>(b: RefreshJourneyBuilder<H>)
    ensures
        param_value(refresh_params(b), "language"@) == sent_str(b.language),
{
    refresh_key_facts();
    lemma_param_value_concat_all();
    lemma_param_value_options("language"@);
}

/// A journey refresh sends each option that was set under its own key
/// with its value, and nothing under the key of an option that was not set.
pub proof fn law_refresh_options_under_their_keys<H>(b: RefreshJourneyBuilder<H>)
    ensures
        param_value(refresh_params(b), "stopovers"@) == sent_bool(b.stopovers),
        param_value(refresh_params(b), "tickets"@) == sent_bool(b.tickets),
        param_value(refresh_params(b), "polylines"@) == sent_bool(b.polylines),
        param_value(refresh_params(b), "subStops"@) == sent_bool(b.sub_stops),
        param_value(refresh_params(b), "entrances"@) == sent_bool(b.entrances),
        param_value(refresh_params(b), "remarks"@) == sent_bool(b.remarks),
        param_value(refresh_params(b), "scheduledDays"@) == sent_bool(b.scheduled_days),
        param_value(refresh_params(b), "notOnlyFastRoutes"@) == sent_bool(b.not_only_fast_routes),
        param_value(refresh_params(b), "bestprice"@) == sent_bool(b.bestprice),
        param_value(refresh_params(b), "language"@) == sent_str(b.language),
{
    lemma_refresh_sends_stopovers(b);
    lemma_refresh_sends_tickets(b);
    lemma_refresh_sends_polylines(b);
    lemma_refresh_sends_sub_stops(b);
    lemma_refresh_sends_entrances(b);
    lemma_refresh_sends_remarks(b);
    lemma_refresh_sends_scheduled_days(b);
    lemma_refresh_sends_not_only_fast_routes(b);
    lemma_refresh_sends_bestprice(b);
    lemma_refresh_sends_language(b);
}

proof fn place_prefix_facts()
    ensures
        "from"@.len() == 4 && "from"@[0] == 'f' && "from"@[1] == 'r',
        "to"@.len() == 2 && "to"@[0] == 't' && "to"@[1] == 'o',
        "via"@.len() == 3 && "via"@[0] == 'v' && "via"@[1] == 'i',
{
    reveal_strlit("from");
    reveal_strlit("to");
    reveal_strlit("via");
}

/// A journey search sends its origin under keys that begin with `from`
/// (see [`sends_place`]).
#[verifier::rlimit(50)]
pub proof fn law_journey_origin_under_its_keys<H>(b: JourneysBuilder<H>)
    ensures
        sends_place(journeys_params(b), b.from, "from"@),
{
    lemma_param_value_concat_all();
    lemma_place_params_values(b.from, "from"@);
    let q = journeys_params(b);
    match b.from {
        JourneyPlace::StopId(id) => {
            assert(param_value(q, "from"@) == Some(id@));
        },
        JourneyPlace::Name(n) => {
            assert(param_value(q, "from"@ + ".name"@) == Some(n@));
        },
        JourneyPlace::Poi { id, latitude, longitude } => {
            assert(param_value(q, "from"@ + ".id"@) == Some(id@));
            assert(param_value(q, "from"@ + ".latitude"@) == Some(latitude.text@));
            assert(param_value(q, "from"@ + ".longitude"@) == Some(longitude.text@));
        },
        JourneyPlace::Address { latitude, longitude, address } => {
            assert(param_value(q, "from"@ + ".latitude"@) == Some(latitude.text@));
            assert(param_value(q, "from"@ + ".longitude"@) == Some(longitude.text@));
            assert(param_value(q, "from"@ + ".address"@) == Some(address@));
        },
    }
}

/// A journey search sends its destination under keys that begin with `to`
/// (see [`sends_place`]).
#[verifier::rlimit(50)]
pub proof fn law_journey_destination_under_its_keys<H>(b: JourneysBuilder<H>)
    ensures
        sends_place(journeys_params(b), b.to, "to"@),
{
    place_prefix_facts();
    lemma_param_value_concat_all();
    let fp = place_params(b.from, "from"@);
    let tp = place_params(b.to, "to"@);
    lemma_place_params_values(b.to, "to"@);
    lemma_place_params_other_prefix(b.from, "from"@, "to"@);
    lemma_sends_place_after(fp, tp, b.to, "to"@);
    let q = journeys_params(b);
    match b.to {
        JourneyPlace::StopId(id) => {
            assert(param_value(q, "to"@) == Some(id@));
        },
        JourneyPlace::Name(n) => {
            assert(param_value(q, "to"@ + ".name"@) == Some(n@));
        },
        JourneyPlace::Poi { id, latitude, longitude } => {
            assert(param_value(q, "to"@ + ".id"@) == Some(id@));
            assert(param_value(q, "to"@ + ".latitude"@) == Some(latitude.text@));
            assert(param_value(q, "to"@ + ".longitude"@) == Some(longitude.text@));
        },
        JourneyPlace::Address { latitude, longitude, address } => {
            assert(param_value(q, "to"@ + ".latitude"@) == Some(latitude.text@));
            assert(param_value(q, "to"@ + ".longitude"@) == Some(longitude.text@));
            assert(param_value(q, "to"@ + ".address"@) == Some(address@));
        },
    }
}

/// A journey search with a stopover place sends it under keys that begin
/// with `via` (see [`sends_place`]).
#[verifier::rlimit(50)]
pub proof fn law_journey_stopover_under_its_keys<H>(b: JourneysBuilder<H>)
    ensures
        b.via matches Some(v) ==> sends_place(journeys_params(b), v, "via"@),
{
    place_prefix_facts();
    lemma_param_value_concat_all();
    if let Some(v) = b.via {
        let fp = place_params(b.from, "from"@);
        let tp = place_params(b.to, "to"@);
        let vp = place_params(v, "via"@);
        lemma_place_params_values(v, "via"@);
        lemma_place_params_other_prefix(b.from, "from"@, "via"@);
        lemma_place_params_other_prefix(b.to, "to"@, "via"@);
        assert(opt_place_params(b.via, "via"@) == vp);
        lemma_sends_place_after(fp + tp, vp, v, "via"@);
        let q = journeys_params(b);
        match v {
            JourneyPlace::StopId(id) => {
                assert(param_value(q, "via"@) == Some(id@));
            },
            JourneyPlace::Name(n) => {
                assert(param_value(q, "via"@ + ".name"@) == Some(n@));
            },
            JourneyPlace::Poi { id, latitude, longitude } => {
                assert(param_value(q, "via"@ + ".id"@) == Some(id@));
                assert(param_value(q, "via"@ + ".latitude"@) == Some(latitude.text@));
                assert(param_value(q, "via"@ + ".longitude"@) == Some(longitude.text@));
            },
            JourneyPlace::Address { latitude, longitude, address } => {
                assert(param_value(q, "via"@ + ".latitude"@) == Some(latitude.text@));
                assert(param_value(q, "via"@ + ".longitude"@) == Some(longitude.text@));
                assert(param_value(q, "via"@ + ".address"@) == Some(address@));
            },
        }
    }
}

} // verus!
