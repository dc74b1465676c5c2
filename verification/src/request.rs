//! Request planning: ordered query parameters and their URL encoding.

use vstd::prelude::*;
use crate::encoding::{encode_component, encode_component_spec};
use crate::text::{bool_string, bool_text, i64_text, int_text, is_blank, is_blank_spec, push_char, push_str};
use crate::error::{InvalidParameterError, TransportRestError};
use crate::datetime::DateTimeOffset;

verus! {

/// Ordered query parameter list preserving insertion order.
#[derive(Debug, Clone)]
pub struct Query {
    params: Vec<(String, String)>,
}

/// One encoded `key=value` pair.
pub open spec fn pair_text(p: (Seq<char>, Seq<char>)) -> Seq<char> {
    encode_component_spec(p.0) + seq!['='] + encode_component_spec(p.1)
}

/// `key=value` pairs joined by `&`, in order.
pub open spec fn query_text(ps: Seq<(Seq<char>, Seq<char>)>) -> Seq<char>
    decreases ps.len(),
{
    if ps.len() == 0 {
        seq![]
    } else if ps.len() == 1 {
        pair_text(ps[0])
    } else {
        query_text(ps.drop_last()) + seq!['&'] + pair_text(ps.last())
    }
}

/// The parameter a present text option adds.
pub open spec fn opt_str_param(k: Seq<char>, v: Option<String>) -> Seq<(Seq<char>, Seq<char>)> {
    match v {
        Some(s) => seq![(k, s@)],
        None => seq![],
    }
}

/// The parameter a present boolean option adds.
pub open spec fn opt_bool_param(k: Seq<char>, v: Option<bool>) -> Seq<(Seq<char>, Seq<char>)> {
    match v {
        Some(b) => seq![(k, bool_text(b))],
        None => seq![],
    }
}

/// The parameter a present integer option adds.
pub open spec fn opt_int_param(k: Seq<char>, v: Option<i64>) -> Seq<(Seq<char>, Seq<char>)> {
    match v {
        Some(n) => seq![(k, int_text(n as int))],
        None => seq![],
    }
}

/// The parameter a present date/time option adds (RFC 3339, whole seconds).
pub open spec fn opt_time_param(k: Seq<char>, v: Option<DateTimeOffset>) -> Seq<(Seq<char>, Seq<char>)> {
    match v {
        Some(t) => seq![(k, t.text())],
        None => seq![],
    }
}

impl View for Query {
    type V = Seq<(Seq<char>, Seq<char>)>;

    closed spec fn view(&self) -> Seq<(Seq<char>, Seq<char>)> {
        self.params@.map_values(|p: (String, String)| (p.0@, p.1@))
    }
}

impl Query {
    /// An empty parameter list.
    pub fn new() -> (q: Self)
        ensures
            q@ == Seq::<(Seq<char>, Seq<char>)>::empty(),
    {
        let q = Query { params: Vec::new() };
        assert(q@ =~= Seq::<(Seq<char>, Seq<char>)>::empty());
        q
    }

    /// Add a raw parameter at the end.
    pub fn push(&mut self, key: &str, value: String)
        ensures
            final(self)@ == old(self)@.push((key@, value@)),
    {
        self.params.push((key.to_owned(), value));
        assert(self@ =~= old(self)@.push((key@, value@)));
    }

    /// Add a text parameter; skips `None`.
    pub fn opt_str(&mut self, key: &str, value: Option<String>)
        ensures
            final(self)@ == old(self)@ + opt_str_param(key@, value),
    {
        if let Some(v) = value {
            self.push(key, v);
        }
        assert(self@ =~= old(self)@ + opt_str_param(key@, value));
    }

    /// Add a boolean parameter (`true`/`false`); skips `None`.
    pub fn opt_bool(&mut self, key: &str, value: Option<bool>)
        ensures
            final(self)@ == old(self)@ + opt_bool_param(key@, value),
    {
        if let Some(v) = value {
            self.push(key, bool_string(v));
        }
        assert(self@ =~= old(self)@ + opt_bool_param(key@, value));
    }

    /// Add an integer parameter in decimal; skips `None`.
    pub fn opt_int(&mut self, key: &str, value: Option<i64>)
        ensures
            final(self)@ == old(self)@ + opt_int_param(key@, value),
    {
        if let Some(v) = value {
            self.push(key, i64_text(v));
        }
        assert(self@ =~= old(self)@ + opt_int_param(key@, value));
    }

    /// Add a date/time parameter in RFC 3339 form; skips `None`.
    pub fn opt_time(&mut self, key: &str, value: Option<DateTimeOffset>)
        ensures
            final(self)@ == old(self)@ + opt_time_param(key@, value),
    {
        if let Some(t) = value {
            self.push(key, t.to_rfc3339_secs());
        }
        assert(self@ =~= old(self)@ + opt_time_param(key@, value));
    }

    /// True if no parameters were added.
    pub fn is_empty(&self) -> (r: bool)
        ensures
            r == (self@.len() == 0),
    {
        self.params.len() == 0
    }

    /// Encode into a URL query string (`key=value&...`) with percent encoding.
    pub fn encode(self) -> (r: String)
        ensures
            r@ == query_text(self@),
    {
        let ghost ps = self@;
        let mut out = String::new();
        let n = self.params.len();
        for i in 0..n
            invariant
                n == self.params@.len(),
                ps == self@,
                ps.len() == n,
                out@ == query_text(ps.take(i as int)),
        {
            let (k, v) = &self.params[i];
            assert(ps[i as int] == (k@, v@));
            assert(ps.take(i + 1).drop_last() =~= ps.take(i as int));
            assert(ps.take(i + 1).last() == ps[i as int]);
            if i > 0 {
                push_char(&mut out, '&');
            }
            let ek = encode_component(k.as_str());
            push_str(&mut out, ek.as_str());
            push_char(&mut out, '=');
            let ev = encode_component(v.as_str());
            push_str(&mut out, ev.as_str());
            assert(out@ =~= query_text(ps.take(i + 1)));
        }
        assert(ps.take(n as int) =~= ps);
        out
    }
}

/// A geographic coordinate in degrees, held as the decimal text that
/// Rust's `Display` writes for the `f64` value (e.g. `51.5`, `-0.1275`).
#[derive(Debug, Clone)]
pub struct Coordinate {
    /// The decimal text sent on the wire.
    pub text: String,
}

impl Coordinate {
    /// A coordinate written as `text`.
    pub fn new(text: String) -> (c: Self)
        ensures
            c.text == text,
    {
        Coordinate { text }
    }
}

/// A place referenced by journey queries (`from`/`to`/`via`).
///
/// Mirrors the four accepted wire forms:
/// * stop ID (`from=<id>`)
/// * stop/station name (`from.name=<name>`)
/// * POI (`from.id`, `from.latitude`, `from.longitude`)
/// * address (`from.latitude`, `from.longitude`, `from.address`)
#[derive(Debug, Clone)]
pub enum JourneyPlace {
    /// A stop/station ID (e.g. `"8011160"` for Berlin Hbf).
    StopId(String),
    /// A free-text stop/station name (e.g. `"Berlin Hbf"`).
    Name(String),
    /// A POI identified by ID plus coordinates.
    Poi {
        /// POI ID.
        id: String,
        /// Latitude.
        latitude: Coordinate,
        /// Longitude.
        longitude: Coordinate,
    },
    /// An address near the given coordinates.
    Address {
        /// Latitude.
        latitude: Coordinate,
        /// Longitude.
        longitude: Coordinate,
        /// Street address string.
        address: String,
    },
}

/// The query parameters of a place under `prefix`.
pub open spec fn place_params(p: JourneyPlace, prefix: Seq<char>) -> Seq<(Seq<char>, Seq<char>)> {
    match p {
        JourneyPlace::StopId(id) => seq![(prefix, id@)],
        JourneyPlace::Name(name) => seq![(prefix + ".name"@, name@)],
        JourneyPlace::Poi { id, latitude, longitude } => seq![
            (prefix + ".id"@, id@),
            (prefix + ".latitude"@, latitude.text@),
            (prefix + ".longitude"@, longitude.text@),
        ],
        JourneyPlace::Address { latitude, longitude, address } => seq![
            (prefix + ".latitude"@, latitude.text@),
            (prefix + ".longitude"@, longitude.text@),
            (prefix + ".address"@, address@),
        ],
    }
}

/// `e` is an invalid-parameter error naming `param` (or none) with `reason`.
pub open spec fn is_invalid_param(e: TransportRestError, param: Option<Seq<char>>, reason: Seq<char>) -> bool {
    &&& e matches TransportRestError::InvalidParameter(p)
    &&& match p.parameter {
        Some(s) => param == Some(s@),
        None => param is None,
    }
    &&& p.reason@ == reason
}

/// Which invalid-parameter error a place draws, if any: an empty POI id or
/// an empty address.
pub open spec fn place_problem(p: JourneyPlace) -> Option<(Seq<char>, Seq<char>)> {
    match p {
        JourneyPlace::Poi { id, .. } => if is_blank_spec(id@) {
            Some(("poi"@, "POI id must not be empty"@))
        } else {
            None
        },
        JourneyPlace::Address { address, .. } => if is_blank_spec(address@) {
            Some(("address"@, "address must not be empty"@))
        } else {
            None
        },
        _ => None,
    }
}

/// A `String` holding `a` followed by `b`.
pub fn concat(a: &str, b: &str) -> (r: String)
    ensures
        r@ == a@ + b@,
{
    let mut r = a.to_owned();
    push_str(&mut r, b);
    r
}

impl JourneyPlace {
    /// Serialize into query parameters under the given prefix
    /// (`"from"`, `"to"` or `"via"`).
    pub fn encode(&self, prefix: &str, q: &mut Query)
        ensures
            final(q)@ == old(q)@ + place_params(*self, prefix@),
    {
        match self {
            JourneyPlace::StopId(id) => q.push(prefix, id.clone()),
            JourneyPlace::Name(name) => q.push(concat(prefix, ".name").as_str(), name.clone()),
            JourneyPlace::Poi { id, latitude, longitude } => {
                q.push(concat(prefix, ".id").as_str(), id.clone());
                q.push(concat(prefix, ".latitude").as_str(), latitude.text.clone());
                q.push(concat(prefix, ".longitude").as_str(), longitude.text.clone());
            },
            JourneyPlace::Address { latitude, longitude, address } => {
                q.push(concat(prefix, ".latitude").as_str(), latitude.text.clone());
                q.push(concat(prefix, ".longitude").as_str(), longitude.text.clone());
                q.push(concat(prefix, ".address").as_str(), address.clone());
            },
        }
        assert(q@ =~= old(q)@ + place_params(*self, prefix@));
    }

    /// Reject a POI without id and an address without text.
    pub fn validate(&self) -> (r: Result<(), TransportRestError>)
        ensures
            match place_problem(*self) {
                None => r is Ok,
                Some((param, reason)) => r matches Err(e) && is_invalid_param(e, Some(param), reason),
            },
    {
        match self {
            JourneyPlace::Poi { id, .. } => {
                if is_blank(id.as_str()) {
                    return Err(invalid_poi());
                }
            },
            JourneyPlace::Address { address, .. } => {
                if is_blank(address.as_str()) {
                    return Err(
                        TransportRestError::InvalidParameter(
                            InvalidParameterError::new("address", "address must not be empty".to_owned()),
                        ),
                    );
                }
            },
            _ => {},
        }
        Ok(())
    }
}

/// The invalid-parameter error naming `param` (or none) with `reason`.
pub(crate) fn invalid(param: Option<&'static str>, reason: &str) -> (e: TransportRestError)
    ensures
        e matches TransportRestError::InvalidParameter(p) && p.parameter == param && p.reason@
            == reason@,
{
    TransportRestError::InvalidParameter(InvalidParameterError { parameter: param, reason: reason.to_owned() })
}

fn invalid_poi() -> (e: TransportRestError)
    ensures
        is_invalid_param(e, Some("poi"@), "POI id must not be empty"@),
{
    TransportRestError::InvalidParameter(
        InvalidParameterError::new("poi", "POI id must not be empty".to_owned()),
    )
}

/// The text a boolean option, when set, is sent as: `true` or `false`.
pub open spec fn sent_bool(v: Option<bool>) -> Option<Seq<char>> {
    match v {
        Some(true) => Some(seq!['t', 'r', 'u', 'e']),
        Some(false) => Some(seq!['f', 'a', 'l', 's', 'e']),
        None => None,
    }
}

/// The text an integer option, when set, is sent as: its decimal text.
pub open spec fn sent_int(v: Option<i64>) -> Option<Seq<char>> {
    match v {
        Some(n) => Some(int_text(n as int)),
        None => None,
    }
}

/// The text a text option, when set, is sent as: the text itself.
pub open spec fn sent_str(v: Option<String>) -> Option<Seq<char>> {
    match v {
        Some(s) => Some(s@),
        None => None,
    }
}

/// The text a date/time option, when set, is sent as: its RFC 3339 text.
pub open spec fn sent_time(v: Option<DateTimeOffset>) -> Option<Seq<char>> {
    match v {
        Some(t) => Some(t.text()),
        None => None,
    }
}

/// The value a query sends under the key `k`: that of the first parameter
/// with that key, if any.
pub open spec fn param_value(q: Seq<(Seq<char>, Seq<char>)>, k: Seq<char>) -> Option<Seq<char>>
    decreases q.len(),
{
    if q.len() == 0 {
        None
    } else if q[0].0 == k {
        Some(q[0].1)
    } else {
        param_value(q.drop_first(), k)
    }
}

/// In a query put together from two parts, a key takes its value from the
/// first part when it is there, else from the second.
pub proof fn lemma_param_value_concat(a: Seq<(Seq<char>, Seq<char>)>, b: Seq<(Seq<char>, Seq<char>)>, k: Seq<char>)
    ensures
        #[trigger] param_value(a + b, k) == match param_value(a, k) {
            Some(v) => Some(v),
            None => param_value(b, k),
        },
    decreases a.len(),
{
    if a.len() > 0 {
        assert((a + b).drop_first() =~= a.drop_first() + b);
        lemma_param_value_concat(a.drop_first(), b, k);
    } else {
        assert(a + b =~= b);
    }
}

/// A key takes its value from the first part of a query when it is there,
/// else from the second: for every split of every query.
pub proof fn lemma_param_value_concat_all()
    ensures
        forall|a: Seq<(Seq<char>, Seq<char>)>, b: Seq<(Seq<char>, Seq<char>)>, k: Seq<char>|
            #[trigger] param_value(a + b, k) == match param_value(a, k) {
                Some(v) => Some(v),
                None => param_value(b, k),
            },
{
    assert forall|a: Seq<(Seq<char>, Seq<char>)>, b: Seq<(Seq<char>, Seq<char>)>, k: Seq<char>|
        #[trigger] param_value(a + b, k) == match param_value(a, k) {
            Some(v) => Some(v),
            None => param_value(b, k),
        } by {
        lemma_param_value_concat(a, b, k);
    }
}

/// A single parameter sends its value under its own key only.
pub proof fn lemma_param_value_single(k2: Seq<char>, v: Seq<char>, k: Seq<char>)
    ensures
        #[trigger] param_value(seq![(k2, v)], k) == if k2 == k {
            Some(v)
        } else {
            None
        },
{
    if k2 != k {
        let e = Seq::<(Seq<char>, Seq<char>)>::empty();
        assert(seq![(k2, v)].drop_first() =~= e);
        assert(param_value(e, k) is None);
    }
}

/// What a present-or-absent option sends under a key.
pub proof fn lemma_param_value_options(k: Seq<char>)
    ensures
        forall|k2: Seq<char>, v: Option<String>| #[trigger] param_value(opt_str_param(k2, v), k) == if k2
            == k && v is Some {
            Some((v->0)@)
        } else {
            None
        },
        forall|k2: Seq<char>, v: Option<bool>| #[trigger] param_value(opt_bool_param(k2, v), k) == if k2
            == k && v is Some {
            Some(bool_text(v->0))
        } else {
            None
        },
        forall|k2: Seq<char>, v: Option<i64>| #[trigger] param_value(opt_int_param(k2, v), k) == if k2
            == k && v is Some {
            Some(int_text((v->0) as int))
        } else {
            None
        },
        forall|k2: Seq<char>, v: Option<DateTimeOffset>| #[trigger] param_value(opt_time_param(k2, v), k)
            == if k2 == k && v is Some {
            Some((v->0).text())
        } else {
            None
        },
{
    assert forall|k2: Seq<char>, v: Option<String>| #[trigger] param_value(opt_str_param(k2, v), k) == if k2
        == k && v is Some {
        Some((v->0)@)
    } else {
        None
    } by {
        if let Some(x) = v {
            lemma_param_value_single(k2, x@, k);
        }
    }
    assert forall|k2: Seq<char>, v: Option<bool>| #[trigger] param_value(opt_bool_param(k2, v), k) == if k2
        == k && v is Some {
        Some(bool_text(v->0))
    } else {
        None
    } by {
        if let Some(x) = v {
            lemma_param_value_single(k2, bool_text(x), k);
        }
    }
    assert forall|k2: Seq<char>, v: Option<i64>| #[trigger] param_value(opt_int_param(k2, v), k) == if k2
        == k && v is Some {
        Some(int_text((v->0) as int))
    } else {
        None
    } by {
        if let Some(x) = v {
            lemma_param_value_single(k2, int_text(x as int), k);
        }
    }
    assert forall|k2: Seq<char>, v: Option<DateTimeOffset>| #[trigger] param_value(opt_time_param(k2, v), k)
        == if k2 == k && v is Some {
        Some((v->0).text())
    } else {
        None
    } by {
        if let Some(x) = v {
            lemma_param_value_single(k2, x.text(), k);
        }
    }
}

/// A key that no parameter of a query has gets no value.
pub proof fn lemma_param_value_absent(q: Seq<(Seq<char>, Seq<char>)>, k: Seq<char>)
    requires
        forall|i: int| 0 <= i < q.len() ==> #[trigger] q[i].0 != k,
    ensures
        param_value(q, k) is None,
    decreases q.len(),
{
    if q.len() > 0 {
        assert forall|i: int| 0 <= i < q.drop_first().len() implies #[trigger] q.drop_first()[i].0 != k by {
            assert(q.drop_first()[i] == q[i + 1]);
        }
        lemma_param_value_absent(q.drop_first(), k);
    }
}

/// The parameters of a place all have keys that begin as `prefix` does, so
/// a key that begins otherwise gets no value from them.
pub proof fn lemma_place_params_other_key(p: JourneyPlace, prefix: Seq<char>, k: Seq<char>)
    requires
        prefix.len() >= 2,
        k.len() >= 2,
        k[0] != prefix[0] || k[1] != prefix[1],
    ensures
        param_value(place_params(p, prefix), k) is None,
{
    let q = place_params(p, prefix);
    assert forall|i: int| 0 <= i < q.len() implies #[trigger] q[i].0 != k by {
        assert(q[i].0[0] == prefix[0] && q[i].0[1] == prefix[1]);
    }
    lemma_param_value_absent(q, k);
}

/// The query `q` sends what identifies the place `p` under keys that begin
/// with `prefix`: a stop ID under the prefix itself, a name under `.name`, a
/// POI's ID and position under `.id`, `.latitude` and `.longitude`, an
/// address and its position under `.address`, `.latitude` and `.longitude`.
pub open spec fn sends_place(q: Seq<(Seq<char>, Seq<char>)>, p: JourneyPlace, prefix: Seq<char>) -> bool {
    match p {
        JourneyPlace::StopId(id) => param_value(q, prefix) == Some(id@),
        JourneyPlace::Name(n) => param_value(q, prefix + ".name"@) == Some(n@),
        JourneyPlace::Poi { id, latitude, longitude } => {
            &&& param_value(q, prefix + ".id"@) == Some(id@)
            &&& param_value(q, prefix + ".latitude"@) == Some(latitude.text@)
            &&& param_value(q, prefix + ".longitude"@) == Some(longitude.text@)
        },
        JourneyPlace::Address { latitude, longitude, address } => {
            &&& param_value(q, prefix + ".latitude"@) == Some(latitude.text@)
            &&& param_value(q, prefix + ".longitude"@) == Some(longitude.text@)
            &&& param_value(q, prefix + ".address"@) == Some(address@)
        },
    }
}

/// A place's own parameters send it (see [`sends_place`]).
pub proof fn lemma_place_params_values(p: JourneyPlace, prefix: Seq<char>)
    ensures
        sends_place(place_params(p, prefix), p, prefix),
{
    reveal_strlit(".id");
    reveal_strlit(".latitude");
    reveal_strlit(".longitude");
    reveal_strlit(".address");
    let q = place_params(p, prefix);
    let id_k = prefix + ".id"@;
    let lat_k = prefix + ".latitude"@;
    let lon_k = prefix + ".longitude"@;
    let adr_k = prefix + ".address"@;
    assert(id_k.len() != lat_k.len() && id_k.len() != lon_k.len() && lat_k.len() != lon_k.len());
    assert(adr_k.len() != lat_k.len() && adr_k.len() != lon_k.len());
    lemma_param_value_concat_all();
    match p {
        JourneyPlace::StopId(id) => {
            lemma_param_value_single(prefix, id@, prefix);
        },
        JourneyPlace::Name(n) => {
            lemma_param_value_single(prefix + ".name"@, n@, prefix + ".name"@);
        },
        JourneyPlace::Poi { id, latitude, longitude } => {
            assert(q =~= seq![(id_k, id@)] + seq![(lat_k, latitude.text@)] + seq![(lon_k, longitude.text@)]);
            lemma_param_value_single(id_k, id@, id_k);
            lemma_param_value_single(id_k, id@, lat_k);
            lemma_param_value_single(id_k, id@, lon_k);
            lemma_param_value_single(lat_k, latitude.text@, lat_k);
            lemma_param_value_single(lat_k, latitude.text@, lon_k);
            lemma_param_value_single(lon_k, longitude.text@, lon_k);
        },
        JourneyPlace::Address { latitude, longitude, address } => {
            assert(q =~= seq![(lat_k, latitude.text@)] + seq![(lon_k, longitude.text@)] + seq![
                (adr_k, address@),
            ]);
            lemma_param_value_single(lat_k, latitude.text@, lat_k);
            lemma_param_value_single(lat_k, latitude.text@, lon_k);
            lemma_param_value_single(lat_k, latitude.text@, adr_k);
            lemma_param_value_single(lon_k, longitude.text@, lon_k);
            lemma_param_value_single(lon_k, longitude.text@, adr_k);
            lemma_param_value_single(adr_k, address@, adr_k);
        },
    }
}

/// Parameters put in front of a place's own, under keys that begin other
/// than its prefix, leave what is sent for the place as it was.
pub proof fn lemma_sends_place_after(a: Seq<(Seq<char>, Seq<char>)>, b: Seq<(Seq<char>, Seq<char>)>, p: JourneyPlace, prefix: Seq<char>)
    requires
        sends_place(b, p, prefix),
        prefix.len() >= 2,
        forall|k: Seq<char>|
            k.len() >= 2 && k[0] == prefix[0] && k[1] == prefix[1] ==> #[trigger] param_value(a, k)
                is None,
    ensures
        sends_place(a + b, p, prefix),
{
    lemma_param_value_concat_all();
    reveal_strlit(".id");
    reveal_strlit(".name");
    reveal_strlit(".latitude");
    reveal_strlit(".longitude");
    reveal_strlit(".address");
    let ks = seq![prefix, prefix + ".name"@, prefix + ".id"@, prefix + ".latitude"@, prefix + ".longitude"@, prefix + ".address"@];
    assert forall|i: int| 0 <= i < ks.len() implies #[trigger] param_value(a, ks[i]) is None by {
        assert(ks[i].len() >= 2 && ks[i][0] == prefix[0] && ks[i][1] == prefix[1]);
    }
    assert(param_value(a, ks[0]) is None && param_value(a, ks[1]) is None && param_value(a, ks[2]) is None);
    assert(param_value(a, ks[3]) is None && param_value(a, ks[4]) is None && param_value(a, ks[5]) is None);
}

/// Every key that begins as `prefix` does gets no value from the parameters
/// of a place with another prefix.
pub proof fn lemma_place_params_other_prefix(p: JourneyPlace, other: Seq<char>, prefix: Seq<char>)
    requires
        other.len() >= 2,
        prefix.len() >= 2,
        other[0] != prefix[0] || other[1] != prefix[1],
    ensures
        forall|k: Seq<char>|
            k.len() >= 2 && k[0] == prefix[0] && k[1] == prefix[1] ==> #[trigger] param_value(
                place_params(p, other),
                k,
            ) is None,
{
    assert forall|k: Seq<char>|
        k.len() >= 2 && k[0] == prefix[0] && k[1] == prefix[1] implies #[trigger] param_value(
        place_params(p, other),
        k,
    ) is None by {
        lemma_place_params_other_key(p, other, k);
    }
}

} // verus!
