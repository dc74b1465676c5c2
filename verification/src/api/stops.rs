//! `GET /stops/{id}` – fetch one stop/station.

use vstd::prelude::*;
use crate::client::{clone_opt, plans, RequestPlan, TransportRestClient};
use crate::encoding::{encode_path_segment, encode_path_segment_spec};
use crate::error::{InvalidParameterError, TransportRestError};
use crate::request::{concat, is_invalid_param, opt_bool_param, opt_str_param, Query};
use crate::text::{is_blank, is_blank_spec};

verus! {

/// Builder for the stop-by-ID endpoint.
#[derive(Debug)]
pub struct StopBuilder<H> {
    /// The client the request goes through.
    pub client: TransportRestClient<H>,
    /// Stop/station ID.
    pub id: String,
    /// Include the lines serving this stop.
    pub lines_of_stops: Option<bool>,
    /// Language of result names.
    pub language: Option<String>,
}

impl<H> StopBuilder<H> {
    /// A lookup of stop `id`, nothing else set.
    pub fn new(client: TransportRestClient<H>, id: String) -> (b: Self)
        ensures
            b == (StopBuilder { client, id, lines_of_stops: None, language: None }),
    {
        StopBuilder { client, id, lines_of_stops: None, language: None }
    }

    /// Include the lines serving this stop.
    pub fn lines_of_stops(self, v: bool) -> (b: Self)
        ensures
            b == (StopBuilder { lines_of_stops: Some(v), ..self }),
    {
        StopBuilder { lines_of_stops: Some(v), ..self }
    }

    /// Language of result names.
    pub fn language(self, v: String) -> (b: Self)
        ensures
            b == (StopBuilder { language: Some(v), ..self }),
    {
        StopBuilder { language: Some(v), ..self }
    }

    /// Validate and plan `GET /stops/{id}`; the ID must not be blank.
    pub fn plan(&self) -> (r: Result<RequestPlan, TransportRestError>)
        ensures
            if is_blank_spec(self.id@) {
                r matches Err(e) && is_invalid_param(e, Some("id"@), "stop ID must not be empty"@)
            } else {
                plans(
                    r,
                    "/stops/"@ + encode_path_segment_spec(self.id@),
                    opt_bool_param("linesOfStops"@, self.lines_of_stops) + opt_str_param(
                        "language"@,
                        self.language,
                    ),
                )
            },
    {
        if is_blank(self.id.as_str()) {
            return Err(
                TransportRestError::InvalidParameter(
                    InvalidParameterError::new("id", "stop ID must not be empty".to_owned()),
                ),
            );
        }
        let mut q = Query::new();
        q.opt_bool("linesOfStops", self.lines_of_stops);
        q.opt_str("language", clone_opt(&self.language));
        let path = concat("/stops/", encode_path_segment(self.id.as_str()).as_str());
        Ok(RequestPlan { path, query: q })
    }
}

} // verus!
