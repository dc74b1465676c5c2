//! `GET /radar` – vehicles inside a bounding box (capability-gated).

use vstd::prelude::*;
use crate::client::{clone_opt, is_capability_error, plans, RequestPlan, TransportRestClient};
use crate::datetime::DateTimeOffset;
use crate::decimal::{coord_le, coordinate_le, parse_coord};
use crate::error::TransportRestError;
use crate::products::{products_params, ProductSelection};
use crate::request::{
    invalid, is_invalid_param, lemma_param_value_concat_all, lemma_param_value_single, opt_bool_param,
    opt_int_param, opt_str_param, opt_time_param, param_value, Coordinate, Query,
};
use crate::Capability;

verus! {

/// Builder for radar queries.
#[derive(Debug)]
pub struct RadarBuilder<H> {
    /// The client the request goes through.
    pub client: TransportRestClient<H>,
    /// Required: northern edge latitude.
    pub north: Option<Coordinate>,
    /// Required: western edge longitude.
    pub west: Option<Coordinate>,
    /// Required: southern edge latitude.
    pub south: Option<Coordinate>,
    /// Required: eastern edge longitude.
    pub east: Option<Coordinate>,
    /// Maximum number of vehicles.
    pub results: Option<i64>,
    /// Number of predicted frames.
    pub frames: Option<i64>,
    /// Compute frames for the next n seconds.
    pub duration: Option<i64>,
    /// Include shapes per frame.
    pub polylines: Option<bool>,
    /// Compute positions relative to this time.
    pub when: Option<DateTimeOffset>,
    /// Language of result texts.
    pub language: Option<String>,
    /// Included transport products.
    pub products: Option<ProductSelection>,
}

/// The error a radar query with the capability draws, if any: all four
/// edges are required and must span a box (`south <= north`,
/// `west <= east`; a `NaN` edge spans none).
pub open spec fn radar_problem<H>(b: RadarBuilder<H>) -> Option<(Option<Seq<char>>, Seq<char>)> {
    match (b.north, b.west, b.south, b.east) {
        (Some(n), Some(w), Some(s), Some(e)) => if !(coord_le(parse_coord(s.text@), parse_coord(n.text@))
            && coord_le(parse_coord(w.text@), parse_coord(e.text@))) {
            Some((None, "bounding box is invalid: require south <= north and west <= east"@))
        } else {
            None
        },
        _ => Some((None, "north, west, south and east are all required"@)),
    }
}

/// Query parameters of a valid radar query, in wire order.
pub open spec fn radar_params<H>(b: RadarBuilder<H>) -> Seq<(Seq<char>, Seq<char>)> {
    seq![
        ("north"@, (b.north->0).text@),
        ("west"@, (b.west->0).text@),
        ("south"@, (b.south->0).text@),
        ("east"@, (b.east->0).text@),
    ] + opt_int_param("results"@, b.results) + opt_int_param("frames"@, b.frames)
        + opt_int_param("duration"@, b.duration) + opt_bool_param("polylines"@, b.polylines)
        + opt_time_param("when"@, b.when) + opt_str_param("language"@, b.language)
        + products_params(b.products)
}

impl<H> RadarBuilder<H> {
    /// A radar query with nothing set.
    pub open spec fn empty(client: TransportRestClient<H>) -> Self {
        RadarBuilder {
            client,
            north: None,
            west: None,
            south: None,
            east: None,
            results: None,
            frames: None,
            duration: None,
            polylines: None,
            when: None,
            language: None,
            products: None,
        }
    }

    /// A radar query with nothing set.
    pub fn new(client: TransportRestClient<H>) -> (b: Self)
        ensures
            b == Self::empty(client),
    {
        RadarBuilder {
            client,
            north: None,
            west: None,
            south: None,
            east: None,
            results: None,
            frames: None,
            duration: None,
            polylines: None,
            when: None,
            language: None,
            products: None,
        }
    }

    /// Required: northern edge latitude.
    pub fn north(self, v: Coordinate) -> (b: Self)
        ensures
            b == (RadarBuilder { north: Some(v), ..self }),
    {
        RadarBuilder { north: Some(v), ..self }
    }

    /// Required: western edge longitude.
    pub fn west(self, v: Coordinate) -> (b: Self)
        ensures
            b == (RadarBuilder { west: Some(v), ..self }),
    {
        RadarBuilder { west: Some(v), ..self }
    }

    /// Required: southern edge latitude.
    pub fn south(self, v: Coordinate) -> (b: Self)
        ensures
            b == (RadarBuilder { south: Some(v), ..self }),
    {
        RadarBuilder { south: Some(v), ..self }
    }

    /// Required: eastern edge longitude.
    pub fn east(self, v: Coordinate) -> (b: Self)
        ensures
            b == (RadarBuilder { east: Some(v), ..self }),
    {
        RadarBuilder { east: Some(v), ..self }
    }

    /// Maximum number of vehicles (server default 256).
    pub fn results(self, v: i64) -> (b: Self)
        ensures
            b == (RadarBuilder { results: Some(v), ..self }),
    {
        RadarBuilder { results: Some(v), ..self }
    }

    /// Number of predicted frames (server default 3).
    pub fn frames(self, v: i64) -> (b: Self)
        ensures
            b == (RadarBuilder { frames: Some(v), ..self }),
    {
        RadarBuilder { frames: Some(v), ..self }
    }

    /// Compute frames for the next n seconds (server default 20).
    pub fn duration(self, v: i64) -> (b: Self)
        ensures
            b == (RadarBuilder { duration: Some(v), ..self }),
    {
        RadarBuilder { duration: Some(v), ..self }
    }

    /// Include shapes per frame.
    pub fn polylines(self, v: bool) -> (b: Self)
        ensures
            b == (RadarBuilder { polylines: Some(v), ..self }),
    {
        RadarBuilder { polylines: Some(v), ..self }
    }

    /// Compute positions relative to this time.
    pub fn when(self, v: DateTimeOffset) -> (b: Self)
        ensures
            b == (RadarBuilder { when: Some(v), ..self }),
    {
        RadarBuilder { when: Some(v), ..self }
    }

    /// Language of result texts.
    pub fn language(self, v: String) -> (b: Self)
        ensures
            b == (RadarBuilder { language: Some(v), ..self }),
    {
        RadarBuilder { language: Some(v), ..self }
    }

    /// Filter included transport products.
    pub fn products<F: FnOnce(ProductSelection) -> ProductSelection>(self, f: F) -> (b: Self)
        requires
            forall|p: ProductSelection| p@.len() == 0 ==> f.requires((p,)),
        ensures
            b.products matches Some(q) && exists|p: ProductSelection| p@.len() == 0 && f.ensures((p,), q),
            b == (RadarBuilder { products: b.products, ..self }),
    {
        let p = f(ProductSelection::new());
        RadarBuilder { products: Some(p), ..self }
    }


    /// Plan `GET /radar`: the capability is checked first, then the box.
    pub fn plan(&self) -> (r: Result<RequestPlan, TransportRestError>)
        ensures
            if !self.client.config.capabilities@.contains(Capability::Radar) {
                r matches Err(e) && is_capability_error(e, Capability::Radar, self.client.config.provider@)
            } else {
                match radar_problem(*self) {
                    None => plans(r, "/radar"@, radar_params(*self)),
                    Some((param, reason)) => r matches Err(e) && is_invalid_param(e, param, reason),
                }
            },
    {
        self.client.check_capability(Capability::Radar)?;
        let (north, west, south, east) = match (&self.north, &self.west, &self.south, &self.east) {
            (Some(n), Some(w), Some(s), Some(e)) => (n, w, s, e),
            _ => {
                return Err(invalid(None, "north, west, south and east are all required"));
            },
        };
        if !(coordinate_le(south, north) && coordinate_le(west, east)) {
            return Err(
                invalid(None, "bounding box is invalid: require south <= north and west <= east"),
            );
        }
        let mut q = Query::new();
        q.push("north", north.text.clone());
        q.push("west", west.text.clone());
        q.push("south", south.text.clone());
        q.push("east", east.text.clone());
        q.opt_int("results", self.results);
        q.opt_int("frames", self.frames);
        q.opt_int("duration", self.duration);
        q.opt_bool("polylines", self.polylines);
        q.opt_time("when", self.when);
        q.opt_str("language", clone_opt(&self.language));
        ProductSelection::encode_opt(&self.products, &mut q);
        proof {
            assert(q@ =~= radar_params(*self));
        }
        Ok(RequestPlan { path: "/radar".to_owned(), query: q })
    }
}

/// A radar query (with the capability) passes its checks exactly when all
/// four edges are given and they span a box: the south edge is not north of
/// the north edge and the west edge is not east of the east edge, as IEEE
/// 754 orders the coordinates' values (so no edge may be `NaN`). A box
/// whose south edge lies north of its north edge, or whose west edge lies
/// east of its east edge, is refused with the bounding-box error.
pub proof fn law_radar_box_must_span<H>(b: RadarBuilder<H>)
    ensures
        radar_problem(b) is None <==> (b.north is Some && b.west is Some && b.south is Some && b.east
            is Some && coord_le(parse_coord((b.south->0).text@), parse_coord((b.north->0).text@))
            && coord_le(parse_coord((b.west->0).text@), parse_coord((b.east->0).text@))),
        (b.north is Some && b.west is Some && b.south is Some && b.east is Some && (!coord_le(
            parse_coord((b.south->0).text@),
            parse_coord((b.north->0).text@),
        ) || !coord_le(parse_coord((b.west->0).text@), parse_coord((b.east->0).text@))))
            ==> radar_problem(b) == Some::<(Option<Seq<char>>, Seq<char>)>(
            (None, "bounding box is invalid: require south <= north and west <= east"@),
        ),
{
}

/// A radar query with all four edges given sends each edge's coordinate
/// text under its own key: `north`, `west`, `south` and `east`.
pub proof fn law_radar_edges_under_their_keys<H>(b: RadarBuilder<H>)
    requires
        b.north is Some && b.west is Some && b.south is Some && b.east is Some,
    ensures
        param_value(radar_params(b), "north"@) == Some((b.north->0).text@),
        param_value(radar_params(b), "west"@) == Some((b.west->0).text@),
        param_value(radar_params(b), "south"@) == Some((b.south->0).text@),
        param_value(radar_params(b), "east"@) == Some((b.east->0).text@),
{
    reveal_strlit("north");
    reveal_strlit("west");
    reveal_strlit("south");
    reveal_strlit("east");
    assert("north"@.len() == 5 && "north"@[0] == 'n');
    assert("west"@.len() == 4 && "west"@[0] == 'w');
    assert("south"@.len() == 5 && "south"@[0] == 's');
    assert("east"@.len() == 4 && "east"@[0] == 'e');
    lemma_param_value_concat_all();
    let edges = seq![
        ("north"@, (b.north->0).text@),
        ("west"@, (b.west->0).text@),
        ("south"@, (b.south->0).text@),
        ("east"@, (b.east->0).text@),
    ];
    assert(edges =~= seq![("north"@, (b.north->0).text@)] + seq![("west"@, (b.west->0).text@)] + seq![
        ("south"@, (b.south->0).text@),
    ] + seq![("east"@, (b.east->0).text@)]);
    lemma_param_value_single("north"@, (b.north->0).text@, "north"@);
    lemma_param_value_single("west"@, (b.west->0).text@, "north"@);
    lemma_param_value_single("south"@, (b.south->0).text@, "north"@);
    lemma_param_value_single("east"@, (b.east->0).text@, "north"@);
    lemma_param_value_single("north"@, (b.north->0).text@, "west"@);
    lemma_param_value_single("west"@, (b.west->0).text@, "west"@);
    lemma_param_value_single("south"@, (b.south->0).text@, "west"@);
    lemma_param_value_single("east"@, (b.east->0).text@, "west"@);
    lemma_param_value_single("north"@, (b.north->0).text@, "south"@);
    lemma_param_value_single("west"@, (b.west->0).text@, "south"@);
    lemma_param_value_single("south"@, (b.south->0).text@, "south"@);
    lemma_param_value_single("east"@, (b.east->0).text@, "south"@);
    lemma_param_value_single("north"@, (b.north->0).text@, "east"@);
    lemma_param_value_single("west"@, (b.west->0).text@, "east"@);
    lemma_param_value_single("south"@, (b.south->0).text@, "east"@);
    lemma_param_value_single("east"@, (b.east->0).text@, "east"@);
}

/// A box that passes, with its west edge strictly west of its east edge,
/// is refused once the two edges are exchanged; likewise for south and
/// north.
pub proof fn law_radar_exchanged_edges_refused<H>(b: RadarBuilder<H>)
    requires
        radar_problem(b) is None,
    ensures
        !coord_le(parse_coord((b.east->0).text@), parse_coord((b.west->0).text@)) ==> radar_problem(
            RadarBuilder { west: b.east, east: b.west, ..b },
        ) == Some::<(Option<Seq<char>>, Seq<char>)>(
            (None, "bounding box is invalid: require south <= north and west <= east"@),
        ),
        !coord_le(parse_coord((b.north->0).text@), parse_coord((b.south->0).text@)) ==> radar_problem(
            RadarBuilder { south: b.north, north: b.south, ..b },
        ) == Some::<(Option<Seq<char>>, Seq<char>)>(
            (None, "bounding box is invalid: require south <= north and west <= east"@),
        ),
{
}

} // verus!
