//! `GET /stops/{id}/departures` & `GET /stops/{id}/arrivals` – boards.

use vstd::prelude::*;
use crate::client::{clone_opt, plans, RequestPlan, TransportRestClient};
use crate::datetime::DateTimeOffset;
use crate::encoding::{encode_path_segment, encode_path_segment_spec};
use crate::error::{InvalidParameterError, TransportRestError};
use crate::products::{products_params, ProductSelection};
use crate::request::{
    concat, is_invalid_param, lemma_param_value_concat_all, lemma_param_value_options,
    lemma_param_value_single,
    opt_bool_param, opt_int_param, opt_str_param, opt_time_param, param_value, sent_bool, sent_int,
    sent_str, sent_time, Query,
};
use crate::text::{is_blank, is_blank_spec, join, join_spec, texts};

verus! {

/// Reject a blank stop id.
pub fn validate_id(id: &str) -> (r: Result<(), TransportRestError>)
    ensures
        is_blank_spec(id@) ==> (r matches Err(e) && is_invalid_param(
            e,
            Some("stop_id"@),
            "must not be empty"@,
        )),
        !is_blank_spec(id@) ==> r is Ok,
{
    if is_blank(id) {
        Err(
            TransportRestError::InvalidParameter(
                InvalidParameterError::new("stop_id", "must not be empty".to_owned()),
            ),
        )
    } else {
        Ok(())
    }
}

/// Options shared by departure and arrival boards.
#[derive(Debug)]
pub struct BoardBase<H> {
    /// The client the request goes through.
    pub client: TransportRestClient<H>,
    /// Stop/station ID.
    pub stop_id: String,
    /// Query the board at this date/time instead of now.
    pub when: Option<DateTimeOffset>,
    /// Only vehicles heading towards this stop.
    pub direction: Option<String>,
    /// Minutes to cover.
    pub duration: Option<i64>,
    /// Maximum number of entries.
    pub results: Option<i64>,
    /// Include previous/next stopovers.
    pub stopovers: Option<bool>,
    /// Include related stations.
    pub include_related_stations: Option<bool>,
    /// Include lines serving each stop.
    pub lines_of_stops: Option<bool>,
    /// Include hints & warnings.
    pub remarks: Option<bool>,
    /// Language of result texts.
    pub language: Option<String>,
    /// Additional stop IDs (DB instance).
    pub more_stops: Option<Vec<String>>,
    /// Filter included transport products.
    pub products: Option<ProductSelection>,
}

/// Builder for departure board queries.
#[derive(Debug)]
pub struct DeparturesBuilder<H> {
    /// The board options.
    pub base: BoardBase<H>,
}

/// Builder for arrival board queries.
#[derive(Debug)]
pub struct ArrivalsBuilder<H> {
    /// The board options.
    pub base: BoardBase<H>,
}

/// The `moreStops` parameter: the IDs comma separated, when there are any.
pub open spec fn more_stops_param(v: Option<Vec<String>>) -> Seq<(Seq<char>, Seq<char>)> {
    match v {
        Some(ids) => if ids@.len() > 0 {
            seq![("moreStops"@, join_spec(texts(ids@), ","@))]
        } else {
            seq![]
        },
        None => seq![],
    }
}

/// Query parameters of a board, in wire order.
pub open spec fn board_params<H>(b: BoardBase<H>) -> Seq<(Seq<char>, Seq<char>)> {
    opt_time_param("when"@, b.when) + opt_str_param("direction"@, b.direction) + opt_int_param(
        "duration"@,
        b.duration,
    ) + opt_int_param("results"@, b.results) + opt_bool_param("stopovers"@, b.stopovers)
        + opt_bool_param("includeRelatedStations"@, b.include_related_stations) + opt_bool_param(
        "linesOfStops"@,
        b.lines_of_stops,
    ) + opt_bool_param("remarks"@, b.remarks) + opt_str_param("language"@, b.language)
        + more_stops_param(b.more_stops) + products_params(b.products)
}

impl<H> BoardBase<H> {
    /// A board of `stop_id` with nothing set.
    pub open spec fn empty(client: TransportRestClient<H>, stop_id: String) -> Self {
        BoardBase {
            client,
            stop_id,
            when: None,
            direction: None,
            duration: None,
            results: None,
            stopovers: None,
            include_related_stations: None,
            lines_of_stops: None,
            remarks: None,
            language: None,
            more_stops: None,
            products: None,
        }
    }

    /// A board of `stop_id` with nothing set.
    pub fn new(client: TransportRestClient<H>, stop_id: String) -> (b: Self)
        ensures
            b == Self::empty(client, stop_id),
    {
        BoardBase {
            client,
            stop_id,
            when: None,
            direction: None,
            duration: None,
            results: None,
            stopovers: None,
            include_related_stations: None,
            lines_of_stops: None,
            remarks: None,
            language: None,
            more_stops: None,
            products: None,
        }
    }

    /// The query parameters of the board.
    pub fn to_query(&self) -> (q: Query)
        ensures
            q@ == board_params(*self),
    {
        let mut q = Query::new();
        q.opt_time("when", self.when);
        q.opt_str("direction", clone_opt(&self.direction));
        q.opt_int("duration", self.duration);
        q.opt_int("results", self.results);
        q.opt_bool("stopovers", self.stopovers);
        q.opt_bool("includeRelatedStations", self.include_related_stations);
        q.opt_bool("linesOfStops", self.lines_of_stops);
        q.opt_bool("remarks", self.remarks);
        q.opt_str("language", clone_opt(&self.language));
        let ghost before = q@;
        if let Some(stops) = &self.more_stops {
            if stops.len() > 0 {
                q.push("moreStops", join(stops, ","));
            }
        }
        assert(q@ =~= before + more_stops_param(self.more_stops));
        ProductSelection::encode_opt(&self.products, &mut q);
        proof {
            assert(q@ =~= board_params(*self));
        }
        q
    }
}

impl<H> DeparturesBuilder<H> {
    /// The departures board of `stop_id`, nothing else set.
    pub fn departures(client: TransportRestClient<H>, stop_id: String) -> (b: Self)
        ensures
            b.base == BoardBase::empty(client, stop_id),
    {
        DeparturesBuilder { base: BoardBase::new(client, stop_id) }
    }

    /// Query the board at this date/time instead of now.
    pub fn when(self, v: DateTimeOffset) -> (b: Self)
        ensures
            b == (DeparturesBuilder { base: BoardBase { when: Some(v), ..self.base }, ..self }),
    {
        DeparturesBuilder { base: BoardBase { when: Some(v), ..self.base }, ..self }
    }

    /// Only show vehicles heading towards this stop (ID or name); only honored by some provider profiles.
    pub fn direction(self, v: String) -> (b: Self)
        ensures
            b == (DeparturesBuilder { base: BoardBase { direction: Some(v), ..self.base }, ..self }),
    {
        DeparturesBuilder { base: BoardBase { direction: Some(v), ..self.base }, ..self }
    }

    /// Show departures/arrivals for the next n minutes.
    pub fn duration(self, v: i64) -> (b: Self)
        ensures
            b == (DeparturesBuilder { base: BoardBase { duration: Some(v), ..self.base }, ..self }),
    {
        DeparturesBuilder { base: BoardBase { duration: Some(v), ..self.base }, ..self }
    }

    /// Maximum number of entries.
    pub fn results(self, v: i64) -> (b: Self)
        ensures
            b == (DeparturesBuilder { base: BoardBase { results: Some(v), ..self.base }, ..self }),
    {
        DeparturesBuilder { base: BoardBase { results: Some(v), ..self.base }, ..self }
    }

    /// Include previous/next stopovers of each vehicle.
    pub fn stopovers(self, v: bool) -> (b: Self)
        ensures
            b == (DeparturesBuilder { base: BoardBase { stopovers: Some(v), ..self.base }, ..self }),
    {
        DeparturesBuilder { base: BoardBase { stopovers: Some(v), ..self.base }, ..self }
    }

    /// Include departures/arrivals of related stations (default on).
    pub fn include_related_stations(self, v: bool) -> (b: Self)
        ensures
            b == (DeparturesBuilder { base: BoardBase { include_related_stations: Some(v), ..self.base }, ..self }),
    {
        DeparturesBuilder { base: BoardBase { include_related_stations: Some(v), ..self.base }, ..self }
    }

    /// Include lines serving each entry's stop.
    pub fn lines_of_stops(self, v: bool) -> (b: Self)
        ensures
            b == (DeparturesBuilder { base: BoardBase { lines_of_stops: Some(v), ..self.base }, ..self }),
    {
        DeparturesBuilder { base: BoardBase { lines_of_stops: Some(v), ..self.base }, ..self }
    }

    /// Include hints & warnings (default on).
    pub fn remarks(self, v: bool) -> (b: Self)
        ensures
            b == (DeparturesBuilder { base: BoardBase { remarks: Some(v), ..self.base }, ..self }),
    {
        DeparturesBuilder { base: BoardBase { remarks: Some(v), ..self.base }, ..self }
    }

    /// Language of result texts.
    pub fn language(self, v: String) -> (b: Self)
        ensures
            b == (DeparturesBuilder { base: BoardBase { language: Some(v), ..self.base }, ..self }),
    {
        DeparturesBuilder { base: BoardBase { language: Some(v), ..self.base }, ..self }
    }

    /// Also fetch boards for these additional stop IDs (DB instance; up to nine EVA numbers).
    pub fn more_stops(self, v: Vec<String>) -> (b: Self)
        ensures
            b == (DeparturesBuilder { base: BoardBase { more_stops: Some(v), ..self.base }, ..self }),
    {
        DeparturesBuilder { base: BoardBase { more_stops: Some(v), ..self.base }, ..self }
    }

    /// Filter included transport products.
    pub fn products<F: FnOnce(ProductSelection) -> ProductSelection>(self, f: F) -> (b: Self)
        requires
            forall|p: ProductSelection| p@.len() == 0 ==> f.requires((p,)),
        ensures
            b.base.products matches Some(q) && exists|p: ProductSelection| p@.len() == 0 && f.ensures((p,), q),
            b.base == (BoardBase { products: b.base.products, ..self.base }),
    {
        let p = f(ProductSelection::new());
        DeparturesBuilder { base: BoardBase { products: Some(p), ..self.base }, ..self }
    }

    /// Validate and plan `GET /stops/{id}/departures`; the stop ID must not be blank.
    pub fn plan(&self) -> (r: Result<RequestPlan, TransportRestError>)
        ensures
            if is_blank_spec(self.base.stop_id@) {
                r matches Err(e) && is_invalid_param(e, Some("stop_id"@), "must not be empty"@)
            } else {
                plans(
                    r,
                    "/stops/"@ + encode_path_segment_spec(self.base.stop_id@) + "/departures"@,
                    board_params(self.base),
                )
            },
    {
        validate_id(self.base.stop_id.as_str())?;
        let seg = encode_path_segment(self.base.stop_id.as_str());
        let path = concat(concat("/stops/", seg.as_str()).as_str(), "/departures");
        Ok(RequestPlan { path, query: self.base.to_query() })
    }
}


impl<H> ArrivalsBuilder<H> {
    /// The arrivals board of `stop_id`, nothing else set.
    pub fn arrivals(client: TransportRestClient<H>, stop_id: String) -> (b: Self)
        ensures
            b.base == BoardBase::empty(client, stop_id),
    {
        ArrivalsBuilder { base: BoardBase::new(client, stop_id) }
    }

    /// Query the board at this date/time instead of now.
    pub fn when(self, v: DateTimeOffset) -> (b: Self)
        ensures
            b == (ArrivalsBuilder { base: BoardBase { when: Some(v), ..self.base }, ..self }),
    {
        ArrivalsBuilder { base: BoardBase { when: Some(v), ..self.base }, ..self }
    }

    /// Only show vehicles heading towards this stop (ID or name); only honored by some provider profiles.
    pub fn direction(self, v: String) -> (b: Self)
        ensures
            b == (ArrivalsBuilder { base: BoardBase { direction: Some(v), ..self.base }, ..self }),
    {
        ArrivalsBuilder { base: BoardBase { direction: Some(v), ..self.base }, ..self }
    }

    /// Show departures/arrivals for the next n minutes.
    pub fn duration(self, v: i64) -> (b: Self)
        ensures
            b == (ArrivalsBuilder { base: BoardBase { duration: Some(v), ..self.base }, ..self }),
    {
        ArrivalsBuilder { base: BoardBase { duration: Some(v), ..self.base }, ..self }
    }

    /// Maximum number of entries.
    pub fn results(self, v: i64) -> (b: Self)
        ensures
            b == (ArrivalsBuilder { base: BoardBase { results: Some(v), ..self.base }, ..self }),
    {
        ArrivalsBuilder { base: BoardBase { results: Some(v), ..self.base }, ..self }
    }

    /// Include previous/next stopovers of each vehicle.
    pub fn stopovers(self, v: bool) -> (b: Self)
        ensures
            b == (ArrivalsBuilder { base: BoardBase { stopovers: Some(v), ..self.base }, ..self }),
    {
        ArrivalsBuilder { base: BoardBase { stopovers: Some(v), ..self.base }, ..self }
    }

    /// Include departures/arrivals of related stations (default on).
    pub fn include_related_stations(self, v: bool) -> (b: Self)
        ensures
            b == (ArrivalsBuilder { base: BoardBase { include_related_stations: Some(v), ..self.base }, ..self }),
    {
        ArrivalsBuilder { base: BoardBase { include_related_stations: Some(v), ..self.base }, ..self }
    }

    /// Include lines serving each entry's stop.
    pub fn lines_of_stops(self, v: bool) -> (b: Self)
        ensures
            b == (ArrivalsBuilder { base: BoardBase { lines_of_stops: Some(v), ..self.base }, ..self }),
    {
        ArrivalsBuilder { base: BoardBase { lines_of_stops: Some(v), ..self.base }, ..self }
    }

    /// Include hints & warnings (default on).
    pub fn remarks(self, v: bool) -> (b: Self)
        ensures
            b == (ArrivalsBuilder { base: BoardBase { remarks: Some(v), ..self.base }, ..self }),
    {
        ArrivalsBuilder { base: BoardBase { remarks: Some(v), ..self.base }, ..self }
    }

    /// Language of result texts.
    pub fn language(self, v: String) -> (b: Self)
        ensures
            b == (ArrivalsBuilder { base: BoardBase { language: Some(v), ..self.base }, ..self }),
    {
        ArrivalsBuilder { base: BoardBase { language: Some(v), ..self.base }, ..self }
    }

    /// Also fetch boards for these additional stop IDs (DB instance; up to nine EVA numbers).
    pub fn more_stops(self, v: Vec<String>) -> (b: Self)
        ensures
            b == (ArrivalsBuilder { base: BoardBase { more_stops: Some(v), ..self.base }, ..self }),
    {
        ArrivalsBuilder { base: BoardBase { more_stops: Some(v), ..self.base }, ..self }
    }

    /// Filter included transport products.
    pub fn products<F: FnOnce(ProductSelection) -> ProductSelection>(self, f: F) -> (b: Self)
        requires
            forall|p: ProductSelection| p@.len() == 0 ==> f.requires((p,)),
        ensures
            b.base.products matches Some(q) && exists|p: ProductSelection| p@.len() == 0 && f.ensures((p,), q),
            b.base == (BoardBase { products: b.base.products, ..self.base }),
    {
        let p = f(ProductSelection::new());
        ArrivalsBuilder { base: BoardBase { products: Some(p), ..self.base }, ..self }
    }

    /// Validate and plan `GET /stops/{id}/arrivals`; the stop ID must not be blank.
    pub fn plan(&self) -> (r: Result<RequestPlan, TransportRestError>)
        ensures
            if is_blank_spec(self.base.stop_id@) {
                r matches Err(e) && is_invalid_param(e, Some("stop_id"@), "must not be empty"@)
            } else {
                plans(
                    r,
                    "/stops/"@ + encode_path_segment_spec(self.base.stop_id@) + "/arrivals"@,
                    board_params(self.base),
                )
            },
    {
        validate_id(self.base.stop_id.as_str())?;
        let seg = encode_path_segment(self.base.stop_id.as_str());
        let path = concat(concat("/stops/", seg.as_str()).as_str(), "/arrivals");
        Ok(RequestPlan { path, query: self.base.to_query() })
    }
}

proof fn lemma_more_stops_value(v: Option<Vec<String>>, k: Seq<char>)
    requires
        k != "moreStops"@,
    ensures
        param_value(more_stops_param(v), k) is None,
{
    if let Some(ids) = v {
        if ids@.len() > 0 {
            lemma_param_value_single("moreStops"@, join_spec(texts(ids@), ","@), k);
        } else {
            assert(param_value(Seq::<(Seq<char>, Seq<char>)>::empty(), k) is None);
        }
    } else {
        assert(param_value(Seq::<(Seq<char>, Seq<char>)>::empty(), k) is None);
    }
}

/// A board sends each option that was set under its own key with its
/// value; an option that was not set sends nothing under its key (unless a
/// product selection uses that key, which is sent as it stands).
pub proof fn law_board_options_under_their_keys<H>(b: BoardBase<H>)
    ensures
        (b.when is Some || b.products is None) ==> param_value(board_params(b), "when"@) == sent_time(b.when),
        (b.direction is Some || b.products is None) ==> param_value(board_params(b), "direction"@) == sent_str(b.direction),
        (b.duration is Some || b.products is None) ==> param_value(board_params(b), "duration"@) == sent_int(b.duration),
        (b.results is Some || b.products is None) ==> param_value(board_params(b), "results"@) == sent_int(b.results),
        (b.stopovers is Some || b.products is None) ==> param_value(board_params(b), "stopovers"@) == sent_bool(b.stopovers),
        (b.include_related_stations is Some || b.products is None) ==> param_value(board_params(b), "includeRelatedStations"@) == sent_bool(b.include_related_stations),
        (b.lines_of_stops is Some || b.products is None) ==> param_value(board_params(b), "linesOfStops"@) == sent_bool(b.lines_of_stops),
        (b.remarks is Some || b.products is None) ==> param_value(board_params(b), "remarks"@) == sent_bool(b.remarks),
        (b.language is Some || b.products is None) ==> param_value(board_params(b), "language"@) == sent_str(b.language),
{
    reveal_strlit("when");
    reveal_strlit("direction");
    reveal_strlit("duration");
    reveal_strlit("results");
    reveal_strlit("stopovers");
    reveal_strlit("includeRelatedStations");
    reveal_strlit("linesOfStops");
    reveal_strlit("remarks");
    reveal_strlit("language");
    reveal_strlit("moreStops");
    assert("when"@.len() == 4 && "when"@[0] == 'w' && "when"@[2] == 'e');
    assert("direction"@.len() == 9 && "direction"@[0] == 'd' && "direction"@[2] == 'r');
    assert("duration"@.len() == 8 && "duration"@[0] == 'd' && "duration"@[2] == 'r');
    assert("results"@.len() == 7 && "results"@[0] == 'r' && "results"@[2] == 's');
    assert("stopovers"@.len() == 9 && "stopovers"@[0] == 's' && "stopovers"@[2] == 'o');
    assert("includeRelatedStations"@.len() == 22 && "includeRelatedStations"@[0] == 'i' && "includeRelatedStations"@[2] == 'c');
    assert("linesOfStops"@.len() == 12 && "linesOfStops"@[0] == 'l' && "linesOfStops"@[2] == 'n');
    assert("remarks"@.len() == 7 && "remarks"@[0] == 'r' && "remarks"@[2] == 'm');
    assert("language"@.len() == 8 && "language"@[0] == 'l' && "language"@[2] == 'n');
    assert("moreStops"@.len() == 9 && "moreStops"@[0] == 'm' && "moreStops"@[2] == 'r');
    lemma_param_value_concat_all();
    lemma_param_value_options("when"@);
    lemma_param_value_options("direction"@);
    lemma_param_value_options("duration"@);
    lemma_param_value_options("results"@);
    lemma_param_value_options("stopovers"@);
    lemma_param_value_options("includeRelatedStations"@);
    lemma_param_value_options("linesOfStops"@);
    lemma_param_value_options("remarks"@);
    lemma_param_value_options("language"@);
    lemma_param_value_options("moreStops"@);
    lemma_more_stops_value(b.more_stops, "when"@);
    lemma_more_stops_value(b.more_stops, "direction"@);
    lemma_more_stops_value(b.more_stops, "duration"@);
    lemma_more_stops_value(b.more_stops, "results"@);
    lemma_more_stops_value(b.more_stops, "stopovers"@);
    lemma_more_stops_value(b.more_stops, "includeRelatedStations"@);
    lemma_more_stops_value(b.more_stops, "linesOfStops"@);
    lemma_more_stops_value(b.more_stops, "remarks"@);
    lemma_more_stops_value(b.more_stops, "language"@);
    if b.products is None {
        assert(param_value(Seq::<(Seq<char>, Seq<char>)>::empty(), "when"@) is None);
        assert(param_value(Seq::<(Seq<char>, Seq<char>)>::empty(), "direction"@) is None);
    }
}

} // verus!
