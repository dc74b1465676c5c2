//! `GET /trips/{id}` & `GET /trips` – trip lookups.

use vstd::prelude::*;
use crate::client::{clone_opt, is_capability_error, plans, RequestPlan, TransportRestClient};
use crate::datetime::DateTimeOffset;
use crate::encoding::{encode_path_segment, encode_path_segment_spec};
use crate::error::{InvalidParameterError, TransportRestError};
use crate::products::{products_params, ProductSelection};
use crate::request::{
    concat, is_invalid_param, lemma_param_value_concat_all, lemma_param_value_options,
    lemma_param_value_single, opt_bool_param, opt_str_param, opt_time_param, param_value, sent_bool,
    sent_str, sent_time, Query,
};
use crate::text::{is_blank, is_blank_spec, join, join_spec, push_char, texts};
use crate::Capability;

verus! {

/// Builder for `GET /trips/{id}`.
#[derive(Debug)]
pub struct TripBuilder<H> {
    /// The client the request goes through.
    pub client: TransportRestClient<H>,
    /// Trip ID.
    pub id: String,
    /// Include all stopovers.
    pub stopovers: Option<bool>,
    /// Include hints & warnings.
    pub remarks: Option<bool>,
    /// Include the geographic shape of the trip.
    pub polyline: Option<bool>,
    /// Language of result texts.
    pub language: Option<String>,
}

/// Query parameters of a trip lookup.
pub open spec fn trip_params<H>(b: TripBuilder<H>) -> Seq<(Seq<char>, Seq<char>)> {
    opt_bool_param("stopovers"@, b.stopovers) + opt_bool_param("remarks"@, b.remarks)
        + opt_bool_param("polyline"@, b.polyline) + opt_str_param("language"@, b.language)
}

impl<H> TripBuilder<H> {
    /// A lookup of trip `id`, nothing else set.
    pub fn new(client: TransportRestClient<H>, id: String) -> (b: Self)
        ensures
            b == (TripBuilder { client, id, stopovers: None, remarks: None, polyline: None, language: None }),
    {
        TripBuilder { client, id, stopovers: None, remarks: None, polyline: None, language: None }
    }

    /// Include all stopovers (default on).
    pub fn stopovers(self, v: bool) -> (b: Self)
        ensures
            b == (TripBuilder { stopovers: Some(v), ..self }),
    {
        TripBuilder { stopovers: Some(v), ..self }
    }

    /// Include hints & warnings (default on).
    pub fn remarks(self, v: bool) -> (b: Self)
        ensures
            b == (TripBuilder { remarks: Some(v), ..self }),
    {
        TripBuilder { remarks: Some(v), ..self }
    }

    /// Include the geographic shape of the trip.
    pub fn polyline(self, v: bool) -> (b: Self)
        ensures
            b == (TripBuilder { polyline: Some(v), ..self }),
    {
        TripBuilder { polyline: Some(v), ..self }
    }

    /// Language of result texts.
    pub fn language(self, v: String) -> (b: Self)
        ensures
            b == (TripBuilder { language: Some(v), ..self }),
    {
        TripBuilder { language: Some(v), ..self }
    }

    /// Validate and plan `GET /trips/{id}`; the ID must not be blank.
    pub fn plan(&self) -> (r: Result<RequestPlan, TransportRestError>)
        ensures
            if is_blank_spec(self.id@) {
                r matches Err(e) && is_invalid_param(e, Some("id"@), "trip ID must not be empty"@)
            } else {
                plans(r, "/trips/"@ + encode_path_segment_spec(self.id@), trip_params(*self))
            },
    {
        if is_blank(self.id.as_str()) {
            return Err(
                TransportRestError::InvalidParameter(
                    InvalidParameterError::new("id", "trip ID must not be empty".to_owned()),
                ),
            );
        }
        let mut q = Query::new();
        q.opt_bool("stopovers", self.stopovers);
        q.opt_bool("remarks", self.remarks);
        q.opt_bool("polyline", self.polyline);
        q.opt_str("language", clone_opt(&self.language));
        proof {
            assert(q@ =~= trip_params(*self));
        }
        let path = concat("/trips/", encode_path_segment(self.id.as_str()).as_str());
        Ok(RequestPlan { path, query: q })
    }
}

/// Builder for `GET /trips` – find trips by name (capability-gated).
#[derive(Debug)]
pub struct TripsByNameBuilder<H> {
    /// The client the request goes through.
    pub client: TransportRestClient<H>,
    /// Trip name to search for.
    pub query: Option<String>,
    /// Only trips around this time.
    pub when: Option<DateTimeOffset>,
    /// Earliest departure of matched trips.
    pub from_when: Option<DateTimeOffset>,
    /// Latest departure of matched trips.
    pub until_when: Option<DateTimeOffset>,
    /// Restrict to trips currently running.
    pub only_currently_running: Option<bool>,
    /// Only trips currently stopping at this stop ID.
    pub currently_stopping_at: Option<String>,
    /// Filter by line name.
    pub line_name: Option<String>,
    /// Filter by operator names.
    pub operator_names: Option<Vec<String>>,
    /// Filter included transport products.
    pub products: Option<ProductSelection>,
}

/// The `operatorNames` parameter: the names in brackets, comma separated,
/// when there are any.
pub open spec fn operator_names_param(v: Option<Vec<String>>) -> Seq<(Seq<char>, Seq<char>)> {
    match v {
        Some(names) => if names@.len() > 0 {
            seq![("operatorNames"@, seq!['['] + join_spec(texts(names@), ","@) + seq![']'])]
        } else {
            seq![]
        },
        None => seq![],
    }
}

/// Query parameters of a trips-by-name search, in wire order.
pub open spec fn trips_by_name_params<H>(b: TripsByNameBuilder<H>) -> Seq<(Seq<char>, Seq<char>)> {
    opt_str_param("query"@, b.query) + opt_time_param("when"@, b.when) + opt_time_param(
        "fromWhen"@,
        b.from_when,
    ) + opt_time_param("untilWhen"@, b.until_when) + opt_bool_param(
        "onlyCurrentlyRunning"@,
        b.only_currently_running,
    ) + opt_str_param("currentlyStoppingAt"@, b.currently_stopping_at) + opt_str_param(
        "lineName"@,
        b.line_name,
    ) + operator_names_param(b.operator_names) + products_params(b.products)
}

impl<H> TripsByNameBuilder<H> {
    /// A search for trips named `query`, nothing else set.
    pub fn new(client: TransportRestClient<H>, query: String) -> (b: Self)
        ensures
            b == (TripsByNameBuilder {
                client,
                query: Some(query),
                when: None,
                from_when: None,
                until_when: None,
                only_currently_running: None,
                currently_stopping_at: None,
                line_name: None,
                operator_names: None,
                products: None,
            }),
    {
        TripsByNameBuilder {
            client,
            query: Some(query),
            when: None,
            from_when: None,
            until_when: None,
            only_currently_running: None,
            currently_stopping_at: None,
            line_name: None,
            operator_names: None,
            products: None,
        }
    }

    /// Trip name to search for (`*` matches everything).
    pub fn query(self, v: String) -> (b: Self)
        ensures
            b == (TripsByNameBuilder { query: Some(v), ..self }),
    {
        TripsByNameBuilder { query: Some(v), ..self }
    }

    /// Only trips around this time.
    pub fn when(self, v: DateTimeOffset) -> (b: Self)
        ensures
            b == (TripsByNameBuilder { when: Some(v), ..self }),
    {
        TripsByNameBuilder { when: Some(v), ..self }
    }

    /// Earliest departure of matched trips.
    pub fn from_when(self, v: DateTimeOffset) -> (b: Self)
        ensures
            b == (TripsByNameBuilder { from_when: Some(v), ..self }),
    {
        TripsByNameBuilder { from_when: Some(v), ..self }
    }

    /// Latest departure of matched trips.
    pub fn until_when(self, v: DateTimeOffset) -> (b: Self)
        ensures
            b == (TripsByNameBuilder { until_when: Some(v), ..self }),
    {
        TripsByNameBuilder { until_when: Some(v), ..self }
    }

    /// Restrict to trips currently running (default on).
    pub fn only_currently_running(self, v: bool) -> (b: Self)
        ensures
            b == (TripsByNameBuilder { only_currently_running: Some(v), ..self }),
    {
        TripsByNameBuilder { only_currently_running: Some(v), ..self }
    }

    /// Only trips currently stopping at this stop ID.
    pub fn currently_stopping_at(self, v: String) -> (b: Self)
        ensures
            b == (TripsByNameBuilder { currently_stopping_at: Some(v), ..self }),
    {
        TripsByNameBuilder { currently_stopping_at: Some(v), ..self }
    }

    /// Filter by line name.
    pub fn line_name(self, v: String) -> (b: Self)
        ensures
            b == (TripsByNameBuilder { line_name: Some(v), ..self }),
    {
        TripsByNameBuilder { line_name: Some(v), ..self }
    }

    /// Filter by operator names.
    pub fn operator_names(self, v: Vec<String>) -> (b: Self)
        ensures
            b == (TripsByNameBuilder { operator_names: Some(v), ..self }),
    {
        TripsByNameBuilder { operator_names: Some(v), ..self }
    }

    /// Filter included transport products.
    pub fn products<F: FnOnce(ProductSelection) -> ProductSelection>(self, f: F) -> (b: Self)
        requires
            forall|p: ProductSelection| p@.len() == 0 ==> f.requires((p,)),
        ensures
            b.products matches Some(q) && exists|p: ProductSelection| p@.len() == 0 && f.ensures((p,), q),
            b == (TripsByNameBuilder { products: b.products, ..self }),
    {
        let p = f(ProductSelection::new());
        TripsByNameBuilder { products: Some(p), ..self }
    }

    /// Plan `GET /trips` when the provider has the capability.
    pub fn plan(&self) -> (r: Result<RequestPlan, TransportRestError>)
        ensures
            if self.client.config.capabilities@.contains(Capability::TripsByName) {
                plans(r, "/trips"@, trips_by_name_params(*self))
            } else {
                r matches Err(e) && is_capability_error(
                    e,
                    Capability::TripsByName,
                    self.client.config.provider@,
                )
            },
    {
        self.client.check_capability(Capability::TripsByName)?;
        let mut q = Query::new();
        q.opt_str("query", clone_opt(&self.query));
        q.opt_time("when", self.when);
        q.opt_time("fromWhen", self.from_when);
        q.opt_time("untilWhen", self.until_when);
        q.opt_bool("onlyCurrentlyRunning", self.only_currently_running);
        q.opt_str("currentlyStoppingAt", clone_opt(&self.currently_stopping_at));
        q.opt_str("lineName", clone_opt(&self.line_name));
        let ghost before = q@;
        if let Some(names) = &self.operator_names {
            if names.len() > 0 {
                // hafas-rest-api expects cli-native array encoding.
                let mut v = String::new();
                push_char(&mut v, '[');
                let joined = join(names, ",");
                let mut v = concat(v.as_str(), joined.as_str());
                push_char(&mut v, ']');
                assert(v@ =~= seq!['['] + join_spec(texts(names@), ","@) + seq![']']);
                q.push("operatorNames", v);
            }
        }
        assert(q@ =~= before + operator_names_param(self.operator_names));
        ProductSelection::encode_opt(&self.products, &mut q);
        proof {
            assert(q@ =~= trips_by_name_params(*self));
        }
        Ok(RequestPlan { path: "/trips".to_owned(), query: q })
    }
}

/// The keys of the parameters, spelled out far enough to tell them apart.
proof fn trip_key_facts()
    ensures
        "stopovers"@.len() == 9 && "stopovers"@[0] == 's' && "stopovers"@[1] == 't' && "stopovers"@[2] == 'o',
        "remarks"@.len() == 7 && "remarks"@[0] == 'r' && "remarks"@[1] == 'e' && "remarks"@[2] == 'm',
        "polyline"@.len() == 8 && "polyline"@[0] == 'p' && "polyline"@[1] == 'o' && "polyline"@[2] == 'l',
        "language"@.len() == 8 && "language"@[0] == 'l' && "language"@[1] == 'a' && "language"@[2] == 'n',
{
    reveal_strlit("stopovers");
    reveal_strlit("remarks");
    reveal_strlit("polyline");
    reveal_strlit("language");
}

/// A trip lookup sends each option that was set under its own key with its value,
/// and nothing under the key of an option that was not set.
pub proof fn law_trip_options_under_their_keys<H>(b: TripBuilder<H>)
    ensures
        param_value(trip_params(b), "stopovers"@) == sent_bool(b.stopovers),
        param_value(trip_params(b), "remarks"@) == sent_bool(b.remarks),
        param_value(trip_params(b), "polyline"@) == sent_bool(b.polyline),
        param_value(trip_params(b), "language"@) == sent_str(b.language),
{
    trip_key_facts();
    lemma_param_value_concat_all();
    lemma_param_value_options("stopovers"@);
    lemma_param_value_options("remarks"@);
    lemma_param_value_options("polyline"@);
    lemma_param_value_options("language"@);
    assert(param_value(Seq::<(Seq<char>, Seq<char>)>::empty(), "stopovers"@) is None);
}

proof fn lemma_operator_names_value(v: Option<Vec<String>>, k: Seq<char>)
    requires
        k != "operatorNames"@,
    ensures
        param_value(operator_names_param(v), k) is None,
{
    if let Some(names) = v {
        if names@.len() > 0 {
            lemma_param_value_single(
                "operatorNames"@,
                seq!['['] + join_spec(texts(names@), ","@) + seq![']'],
                k,
            );
        } else {
            assert(param_value(Seq::<(Seq<char>, Seq<char>)>::empty(), k) is None);
        }
    } else {
        assert(param_value(Seq::<(Seq<char>, Seq<char>)>::empty(), k) is None);
    }
}

/// The keys of the parameters, spelled out far enough to tell them apart.
proof fn trips_by_name_key_facts()
    ensures
        "query"@.len() == 5 && "query"@[0] == 'q' && "query"@[1] == 'u' && "query"@[2] == 'e',
        "when"@.len() == 4 && "when"@[0] == 'w' && "when"@[1] == 'h' && "when"@[2] == 'e',
        "fromWhen"@.len() == 8 && "fromWhen"@[0] == 'f' && "fromWhen"@[1] == 'r' && "fromWhen"@[2] == 'o',
        "untilWhen"@.len() == 9 && "untilWhen"@[0] == 'u' && "untilWhen"@[1] == 'n' && "untilWhen"@[2] == 't',
        "onlyCurrentlyRunning"@.len() == 20 && "onlyCurrentlyRunning"@[0] == 'o' && "onlyCurrentlyRunning"@[1] == 'n' && "onlyCurrentlyRunning"@[2] == 'l',
        "currentlyStoppingAt"@.len() == 19 && "currentlyStoppingAt"@[0] == 'c' && "currentlyStoppingAt"@[1] == 'u' && "currentlyStoppingAt"@[2] == 'r',
        "lineName"@.len() == 8 && "lineName"@[0] == 'l' && "lineName"@[1] == 'i' && "lineName"@[2] == 'n',
        "operatorNames"@.len() == 13 && "operatorNames"@[0] == 'o' && "operatorNames"@[1] == 'p' && "operatorNames"@[2] == 'e',
{
    reveal_strlit("query");
    reveal_strlit("when");
    reveal_strlit("fromWhen");
    reveal_strlit("untilWhen");
    reveal_strlit("onlyCurrentlyRunning");
    reveal_strlit("currentlyStoppingAt");
    reveal_strlit("lineName");
    reveal_strlit("operatorNames");
}

/// A trip search by name sends each option that was set under its own key with its value,
/// and nothing under the key of an option that was not set (unless a product selection uses
/// that key).
pub proof fn law_trips_by_name_options_under_their_keys<H>(b: TripsByNameBuilder<H>)
    ensures
        (b.query is Some || b.products is None) ==> param_value(trips_by_name_params(b), "query"@) == sent_str(b.query),
        (b.when is Some || b.products is None) ==> param_value(trips_by_name_params(b), "when"@) == sent_time(b.when),
        (b.from_when is Some || b.products is None) ==> param_value(trips_by_name_params(b), "fromWhen"@) == sent_time(b.from_when),
        (b.until_when is Some || b.products is None) ==> param_value(trips_by_name_params(b), "untilWhen"@) == sent_time(b.until_when),
        (b.only_currently_running is Some || b.products is None) ==> param_value(trips_by_name_params(b), "onlyCurrentlyRunning"@) == sent_bool(b.only_currently_running),
        (b.currently_stopping_at is Some || b.products is None) ==> param_value(trips_by_name_params(b), "currentlyStoppingAt"@) == sent_str(b.currently_stopping_at),
        (b.line_name is Some || b.products is None) ==> param_value(trips_by_name_params(b), "lineName"@) == sent_str(b.line_name),
{
    trips_by_name_key_facts();
    lemma_param_value_concat_all();
    lemma_param_value_options("query"@);
    lemma_param_value_options("when"@);
    lemma_param_value_options("fromWhen"@);
    lemma_param_value_options("untilWhen"@);
    lemma_param_value_options("onlyCurrentlyRunning"@);
    lemma_param_value_options("currentlyStoppingAt"@);
    lemma_param_value_options("lineName"@);
    lemma_operator_names_value(b.operator_names, "query"@);
    lemma_operator_names_value(b.operator_names, "when"@);
    lemma_operator_names_value(b.operator_names, "fromWhen"@);
    lemma_operator_names_value(b.operator_names, "untilWhen"@);
    lemma_operator_names_value(b.operator_names, "onlyCurrentlyRunning"@);
    lemma_operator_names_value(b.operator_names, "currentlyStoppingAt"@);
    lemma_operator_names_value(b.operator_names, "lineName"@);
    assert(param_value(Seq::<(Seq<char>, Seq<char>)>::empty(), "query"@) is None);
}

} // verus!
