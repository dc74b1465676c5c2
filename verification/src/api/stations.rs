//! Static station directory endpoints (`/stations`, `/stations/{id}`, `/stops`).

use vstd::prelude::*;
use crate::client::{clone_opt, is_capability_error, plans, RequestPlan, TransportRestClient};
use crate::encoding::{encode_path_segment, encode_path_segment_spec};
use crate::error::{InvalidParameterError, TransportRestError};
use crate::request::{
    concat, is_invalid_param, lemma_param_value_concat_all, lemma_param_value_options,
    opt_bool_param, opt_int_param, opt_str_param, param_value, sent_bool, sent_int, sent_str, Query,
};
use crate::text::{is_blank, is_blank_spec};
use crate::Capability;

verus! {

/// Builder for `GET /stations` – static station search (DB instance).
#[derive(Debug)]
pub struct StationsBuilder<H> {
    /// The client the request goes through.
    pub client: TransportRestClient<H>,
    /// Search term.
    pub query: Option<String>,
    /// Maximum number of results.
    pub results: Option<i64>,
    /// Allow fuzzy matching?
    pub fuzzy: Option<bool>,
    /// Match by prefix?
    pub completion: Option<bool>,
}

/// Query parameters of a station search.
pub open spec fn stations_params<H>(b: StationsBuilder<H>) -> Seq<(Seq<char>, Seq<char>)> {
    opt_str_param("query"@, b.query) + opt_int_param("results"@, b.results) + opt_bool_param(
        "fuzzy"@,
        b.fuzzy,
    ) + opt_bool_param("completion"@, b.completion)
}

impl<H> StationsBuilder<H> {
    /// A station search with nothing set.
    pub fn new(client: TransportRestClient<H>) -> (b: Self)
        ensures
            b == (StationsBuilder { client, query: None, results: None, fuzzy: None, completion: None }),
    {
        StationsBuilder { client, query: None, results: None, fuzzy: None, completion: None }
    }

    /// Search term; without it all stations are returned.
    pub fn query(self, v: String) -> (b: Self)
        ensures
            b == (StationsBuilder { query: Some(v), ..self }),
    {
        StationsBuilder { query: Some(v), ..self }
    }

    /// Maximum number of results (only with `query`; default 3).
    pub fn results(self, v: i64) -> (b: Self)
        ensures
            b == (StationsBuilder { results: Some(v), ..self }),
    {
        StationsBuilder { results: Some(v), ..self }
    }

    /// Allow fuzzy matching?
    pub fn fuzzy(self, v: bool) -> (b: Self)
        ensures
            b == (StationsBuilder { fuzzy: Some(v), ..self }),
    {
        StationsBuilder { fuzzy: Some(v), ..self }
    }

    /// Match by prefix instead of full name?
    pub fn completion(self, v: bool) -> (b: Self)
        ensures
            b == (StationsBuilder { completion: Some(v), ..self }),
    {
        StationsBuilder { completion: Some(v), ..self }
    }

    /// Plan `GET /stations` when the provider has the capability.
    pub fn plan(&self) -> (r: Result<RequestPlan, TransportRestError>)
        ensures
            if self.client.config.capabilities@.contains(Capability::Stations) {
                plans(r, "/stations"@, stations_params(*self))
            } else {
                r matches Err(e) && is_capability_error(
                    e,
                    Capability::Stations,
                    self.client.config.provider@,
                )
            },
    {
        self.client.check_capability(Capability::Stations)?;
        let mut q = Query::new();
        q.opt_str("query", clone_opt(&self.query));
        q.opt_int("results", self.results);
        q.opt_bool("fuzzy", self.fuzzy);
        q.opt_bool("completion", self.completion);
        proof {
            assert(q@ =~= stations_params(*self));
        }
        Ok(RequestPlan { path: "/stations".to_owned(), query: q })
    }
}

/// Builder for `GET /stations/{id}` (DB instance).
#[derive(Debug)]
pub struct StationBuilder<H> {
    /// The client the request goes through.
    pub client: TransportRestClient<H>,
    /// Station ID.
    pub id: String,
}

impl<H> StationBuilder<H> {
    /// A lookup of station `id`.
    pub fn new(client: TransportRestClient<H>, id: String) -> (b: Self)
        ensures
            b == (StationBuilder { client, id }),
    {
        StationBuilder { client, id }
    }

    /// Plan `GET /stations/{id}`: the capability is checked first, then the
    /// ID must not be blank.
    pub fn plan(&self) -> (r: Result<RequestPlan, TransportRestError>)
        ensures
            if !self.client.config.capabilities@.contains(Capability::Stations) {
                r matches Err(e) && is_capability_error(
                    e,
                    Capability::Stations,
                    self.client.config.provider@,
                )
            } else if is_blank_spec(self.id@) {
                r matches Err(e) && is_invalid_param(
                    e,
                    Some("id"@),
                    "station ID must not be empty"@,
                )
            } else {
                plans(r, "/stations/"@ + encode_path_segment_spec(self.id@), seq![])
            },
    {
        self.client.check_capability(Capability::Stations)?;
        if is_blank(self.id.as_str()) {
            return Err(
                TransportRestError::InvalidParameter(
                    InvalidParameterError::new("id", "station ID must not be empty".to_owned()),
                ),
            );
        }
        let path = concat("/stations/", encode_path_segment(self.id.as_str()).as_str());
        Ok(RequestPlan { path, query: Query::new() })
    }
}

/// Builder for `GET /stops` – static stop name search (BVG/VBB instances).
#[derive(Debug)]
pub struct StopsSearchBuilder<H> {
    /// The client the request goes through.
    pub client: TransportRestClient<H>,
    /// Name filter.
    pub query: Option<String>,
    /// Maximum number of results.
    pub limit: Option<i64>,
    /// Find other than exact matches?
    pub fuzzy: Option<bool>,
    /// Search by prefix?
    pub completion: Option<bool>,
}

/// Query parameters of a stop name search.
pub open spec fn stops_search_params<H>(b: StopsSearchBuilder<H>) -> Seq<(Seq<char>, Seq<char>)> {
    opt_str_param("query"@, b.query) + opt_int_param("limit"@, b.limit) + opt_bool_param(
        "fuzzy"@,
        b.fuzzy,
    ) + opt_bool_param("completion"@, b.completion)
}

impl<H> StopsSearchBuilder<H> {
    /// A stop name search with nothing set.
    pub fn new(client: TransportRestClient<H>) -> (b: Self)
        ensures
            b == (StopsSearchBuilder { client, query: None, limit: None, fuzzy: None, completion: None }),
    {
        StopsSearchBuilder { client, query: None, limit: None, fuzzy: None, completion: None }
    }

    /// Name filter.
    pub fn query(self, v: String) -> (b: Self)
        ensures
            b == (StopsSearchBuilder { query: Some(v), ..self }),
    {
        StopsSearchBuilder { query: Some(v), ..self }
    }

    /// Maximum number of results (default 5).
    pub fn limit(self, v: i64) -> (b: Self)
        ensures
            b == (StopsSearchBuilder { limit: Some(v), ..self }),
    {
        StopsSearchBuilder { limit: Some(v), ..self }
    }

    /// Find other than exact matches?
    pub fn fuzzy(self, v: bool) -> (b: Self)
        ensures
            b == (StopsSearchBuilder { fuzzy: Some(v), ..self }),
    {
        StopsSearchBuilder { fuzzy: Some(v), ..self }
    }

    /// Search by prefix? (default on)
    pub fn completion(self, v: bool) -> (b: Self)
        ensures
            b == (StopsSearchBuilder { completion: Some(v), ..self }),
    {
        StopsSearchBuilder { completion: Some(v), ..self }
    }

    /// Plan `GET /stops` when the provider has the capability.
    pub fn plan(&self) -> (r: Result<RequestPlan, TransportRestError>)
        ensures
            if self.client.config.capabilities@.contains(Capability::StopsSearch) {
                plans(r, "/stops"@, stops_search_params(*self))
            } else {
                r matches Err(e) && is_capability_error(
                    e,
                    Capability::StopsSearch,
                    self.client.config.provider@,
                )
            },
    {
        self.client.check_capability(Capability::StopsSearch)?;
        let mut q = Query::new();
        q.opt_str("query", clone_opt(&self.query));
        q.opt_int("limit", self.limit);
        q.opt_bool("fuzzy", self.fuzzy);
        q.opt_bool("completion", self.completion);
        proof {
            assert(q@ =~= stops_search_params(*self));
        }
        Ok(RequestPlan { path: "/stops".to_owned(), query: q })
    }
}

/// The keys of the parameters, spelled out far enough to tell them apart.
proof fn stations_key_facts()
    ensures
        "query"@.len() == 5 && "query"@[0] == 'q' && "query"@[1] == 'u' && "query"@[2] == 'e',
        "results"@.len() == 7 && "results"@[0] == 'r' && "results"@[1] == 'e' && "results"@[2] == 's',
        "fuzzy"@.len() == 5 && "fuzzy"@[0] == 'f' && "fuzzy"@[1] == 'u' && "fuzzy"@[2] == 'z',
        "completion"@.len() == 10 && "completion"@[0] == 'c' && "completion"@[1] == 'o' && "completion"@[2] == 'm',
{
    reveal_strlit("query");
    reveal_strlit("results");
    reveal_strlit("fuzzy");
    reveal_strlit("completion");
}

/// A station search sends each option that was set under its own key with its value,
/// and nothing under the key of an option that was not set.
pub proof fn law_stations_options_under_their_keys<H>(b: StationsBuilder<H>)
    ensures
        param_value(stations_params(b), "query"@) == sent_str(b.query),
        param_value(stations_params(b), "results"@) == sent_int(b.results),
        param_value(stations_params(b), "fuzzy"@) == sent_bool(b.fuzzy),
        param_value(stations_params(b), "completion"@) == sent_bool(b.completion),
{
    stations_key_facts();
    lemma_param_value_concat_all();
    lemma_param_value_options("query"@);
    lemma_param_value_options("results"@);
    lemma_param_value_options("fuzzy"@);
    lemma_param_value_options("completion"@);
    assert(param_value(Seq::<(Seq<char>, Seq<char>)>::empty(), "query"@) is None);
}

/// The keys of the parameters, spelled out far enough to tell them apart.
proof fn stops_search_key_facts()
    ensures
        "query"@.len() == 5 && "query"@[0] == 'q' && "query"@[1] == 'u' && "query"@[2] == 'e',
        "limit"@.len() == 5 && "limit"@[0] == 'l' && "limit"@[1] == 'i' && "limit"@[2] == 'm',
        "fuzzy"@.len() == 5 && "fuzzy"@[0] == 'f' && "fuzzy"@[1] == 'u' && "fuzzy"@[2] == 'z',
        "completion"@.len() == 10 && "completion"@[0] == 'c' && "completion"@[1] == 'o' && "completion"@[2] == 'm',
{
    reveal_strlit("query");
    reveal_strlit("limit");
    reveal_strlit("fuzzy");
    reveal_strlit("completion");
}

/// A stop search sends each option that was set under its own key with its value,
/// and nothing under the key of an option that was not set.
pub proof fn law_stops_search_options_under_their_keys<H>(b: StopsSearchBuilder<H>)
    ensures
        param_value(stops_search_params(b), "query"@) == sent_str(b.query),
        param_value(stops_search_params(b), "limit"@) == sent_int(b.limit),
        param_value(stops_search_params(b), "fuzzy"@) == sent_bool(b.fuzzy),
        param_value(stops_search_params(b), "completion"@) == sent_bool(b.completion),
{
    stops_search_key_facts();
    lemma_param_value_concat_all();
    lemma_param_value_options("query"@);
    lemma_param_value_options("limit"@);
    lemma_param_value_options("fuzzy"@);
    lemma_param_value_options("completion"@);
    assert(param_value(Seq::<(Seq<char>, Seq<char>)>::empty(), "query"@) is None);
}

} // verus!
