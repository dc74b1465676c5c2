//! `GET /locations` – search stops/stations, POIs and addresses.

use vstd::prelude::*;
use crate::client::{clone_opt, plans, RequestPlan, TransportRestClient};
use crate::error::{InvalidParameterError, TransportRestError};
use crate::request::{
    is_invalid_param, lemma_param_value_concat_all, lemma_param_value_options, lemma_param_value_single,
    opt_bool_param, opt_int_param, opt_str_param, param_value, sent_bool, sent_int, sent_str, Query,
};
use crate::text::{is_blank, is_blank_spec};

verus! {

/// Builder for the locations search endpoint.
#[derive(Debug)]
pub struct LocationsBuilder<H> {
    /// The client the request goes through.
    pub client: TransportRestClient<H>,
    /// Required search term.
    pub query: Option<String>,
    /// Find more than exact matches?
    pub fuzzy: Option<bool>,
    /// Maximum number of results.
    pub results: Option<i64>,
    /// Include stops/stations?
    pub stops: Option<bool>,
    /// Include addresses?
    pub addresses: Option<bool>,
    /// Include points of interest?
    pub poi: Option<bool>,
    /// Include the lines serving each returned stop.
    pub lines_of_stops: Option<bool>,
    /// Language of result names.
    pub language: Option<String>,
}

/// Query parameters of a locations search with search term `query`.
pub open spec fn locations_params<H>(b: LocationsBuilder<H>, query: Seq<char>) -> Seq<(Seq<char>, Seq<char>)> {
    seq![("query"@, query)] + opt_bool_param("fuzzy"@, b.fuzzy) + opt_int_param("results"@, b.results)
        + opt_bool_param("stops"@, b.stops) + opt_bool_param("addresses"@, b.addresses)
        + opt_bool_param("poi"@, b.poi) + opt_bool_param("linesOfStops"@, b.lines_of_stops)
        + opt_str_param("language"@, b.language)
}

impl<H> LocationsBuilder<H> {
    /// A search with nothing set.
    pub fn new(client: TransportRestClient<H>) -> (b: Self)
        ensures
            b == (LocationsBuilder {
                client,
                query: None,
                fuzzy: None,
                results: None,
                stops: None,
                addresses: None,
                poi: None,
                lines_of_stops: None,
                language: None,
            }),
    {
        LocationsBuilder {
            client,
            query: None,
            fuzzy: None,
            results: None,
            stops: None,
            addresses: None,
            poi: None,
            lines_of_stops: None,
            language: None,
        }
    }

    /// Set the required search term.
    pub fn query(self, query: String) -> (b: Self)
        ensures
            b == (LocationsBuilder { query: Some(query), ..self }),
    {
        LocationsBuilder { query: Some(query), ..self }
    }

    /// Find more than exact matches? (default: server-defined)
    pub fn fuzzy(self, fuzzy: bool) -> (b: Self)
        ensures
            b == (LocationsBuilder { fuzzy: Some(fuzzy), ..self }),
    {
        LocationsBuilder { fuzzy: Some(fuzzy), ..self }
    }

    /// Maximum number of results.
    pub fn results(self, results: i64) -> (b: Self)
        ensures
            b == (LocationsBuilder { results: Some(results), ..self }),
    {
        LocationsBuilder { results: Some(results), ..self }
    }

    /// Include stops/stations?
    pub fn stops(self, stops: bool) -> (b: Self)
        ensures
            b == (LocationsBuilder { stops: Some(stops), ..self }),
    {
        LocationsBuilder { stops: Some(stops), ..self }
    }

    /// Include addresses?
    pub fn addresses(self, addresses: bool) -> (b: Self)
        ensures
            b == (LocationsBuilder { addresses: Some(addresses), ..self }),
    {
        LocationsBuilder { addresses: Some(addresses), ..self }
    }

    /// Include points of interest?
    pub fn poi(self, poi: bool) -> (b: Self)
        ensures
            b == (LocationsBuilder { poi: Some(poi), ..self }),
    {
        LocationsBuilder { poi: Some(poi), ..self }
    }

    /// Include the lines serving each returned stop.
    pub fn lines_of_stops(self, lines_of_stops: bool) -> (b: Self)
        ensures
            b == (LocationsBuilder { lines_of_stops: Some(lines_of_stops), ..self }),
    {
        LocationsBuilder { lines_of_stops: Some(lines_of_stops), ..self }
    }

    /// Language of result names.
    pub fn language(self, language: String) -> (b: Self)
        ensures
            b == (LocationsBuilder { language: Some(language), ..self }),
    {
        LocationsBuilder { language: Some(language), ..self }
    }

    /// Validate and plan `GET /locations`: a non-blank search term is
    /// required and is sent unchanged, followed by the set options.
    pub fn plan(&self) -> (r: Result<RequestPlan, TransportRestError>)
        ensures
            match self.query {
                Some(q) if !is_blank_spec(q@) => plans(r, "/locations"@, locations_params(*self, q@)),
                _ => r matches Err(e) && is_invalid_param(
                    e,
                    Some("query"@),
                    "a non-empty search term is required"@,
                ),
            },
    {
        let query = match &self.query {
            Some(q) => {
                if is_blank(q.as_str()) {
                    return Err(missing_query());
                }
                q.clone()
            },
            None => {
                return Err(missing_query());
            },
        };
        let mut q = Query::new();
        q.push("query", query);
        q.opt_bool("fuzzy", self.fuzzy);
        q.opt_int("results", self.results);
        q.opt_bool("stops", self.stops);
        q.opt_bool("addresses", self.addresses);
        q.opt_bool("poi", self.poi);
        q.opt_bool("linesOfStops", self.lines_of_stops);
        q.opt_str("language", clone_opt(&self.language));
        Ok(RequestPlan { path: "/locations".to_owned(), query: q })
    }
}

fn missing_query() -> (e: TransportRestError)
    ensures
        is_invalid_param(e, Some("query"@), "a non-empty search term is required"@),
{
    TransportRestError::InvalidParameter(
        InvalidParameterError::new("query", "a non-empty search term is required".to_owned()),
    )
}

/// A locations search sends the search term under `query` and each option
/// under its own key, with the value that was set, and nothing under the
/// key of an option that was not set.
pub proof fn law_locations_options_under_their_keys<H>(b: LocationsBuilder<H>, query: Seq<char>)
    ensures
        param_value(locations_params(b, query), "query"@) == Some(query),
        param_value(locations_params(b, query), "fuzzy"@) == sent_bool(b.fuzzy),
        param_value(locations_params(b, query), "results"@) == sent_int(b.results),
        param_value(locations_params(b, query), "stops"@) == sent_bool(b.stops),
        param_value(locations_params(b, query), "addresses"@) == sent_bool(b.addresses),
        param_value(locations_params(b, query), "poi"@) == sent_bool(b.poi),
        param_value(locations_params(b, query), "linesOfStops"@) == sent_bool(b.lines_of_stops),
        param_value(locations_params(b, query), "language"@) == sent_str(b.language),
{
    reveal_strlit("query");
    reveal_strlit("fuzzy");
    reveal_strlit("results");
    reveal_strlit("stops");
    reveal_strlit("addresses");
    reveal_strlit("poi");
    reveal_strlit("linesOfStops");
    reveal_strlit("language");
    assert("query"@.len() == 5 && "query"@[0] == 'q');
    assert("fuzzy"@.len() == 5 && "fuzzy"@[0] == 'f');
    assert("results"@.len() == 7 && "results"@[0] == 'r');
    assert("stops"@.len() == 5 && "stops"@[0] == 's');
    assert("addresses"@.len() == 9 && "addresses"@[0] == 'a');
    assert("poi"@.len() == 3 && "poi"@[0] == 'p');
    assert("linesOfStops"@.len() == 12 && "linesOfStops"@[0] == 'l');
    assert("language"@.len() == 8 && "language"@[0] == 'l');
    lemma_param_value_concat_all();
    lemma_param_value_options("query"@);
    lemma_param_value_options("fuzzy"@);
    lemma_param_value_options("results"@);
    lemma_param_value_options("stops"@);
    lemma_param_value_options("addresses"@);
    lemma_param_value_options("poi"@);
    lemma_param_value_options("linesOfStops"@);
    lemma_param_value_options("language"@);
    lemma_param_value_single("query"@, query, "query"@);
    lemma_param_value_single("query"@, query, "fuzzy"@);
    lemma_param_value_single("query"@, query, "results"@);
    lemma_param_value_single("query"@, query, "stops"@);
    lemma_param_value_single("query"@, query, "addresses"@);
    lemma_param_value_single("query"@, query, "poi"@);
    lemma_param_value_single("query"@, query, "linesOfStops"@);
    lemma_param_value_single("query"@, query, "language"@);
}

} // verus!
