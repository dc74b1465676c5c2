//! Model types with logic of their own: open string enums, the tolerant
//! operator shape, lines and cycles, and the rules that pick the variant of
//! a tagged place.
//!
//! transport.rest instances occasionally introduce new values (e.g. new
//! transport `mode`s). Every open enum here therefore has an `Other`
//! variant that captures unknown wire values losslessly.

use vstd::prelude::*;
use crate::text::str_eq;

verus! {

/// Means of transport mode (FPTF).
#[derive(Debug, Clone, PartialEq, Eq, Hash)]
#[non_exhaustive]
pub enum Mode {
    /// Aircraft.
    Aircraft,
    /// Bicycle.
    Bicycle,
    /// Bus.
    Bus,
    /// Car.
    Car,
    /// Gondola / aerial lift.
    Gondola,
    /// Taxi.
    Taxi,
    /// Train (any kind).
    Train,
    /// Walking.
    Walking,
    /// Watercraft.
    Watercraft,
    /// A value this library does not know yet, preserved verbatim.
    Other(String),
}

/// True if `s` is one of the values [`Mode`] knows.
pub open spec fn mode_known(s: Seq<char>) -> bool {
    s == "aircraft"@ || s == "bicycle"@ || s == "bus"@ || s == "car"@ || s == "gondola"@ || s == "taxi"@ || s == "train"@ || s == "walking"@ || s == "watercraft"@
}

/// The wire text of a [`Mode`].
pub open spec fn mode_text(m: Mode) -> Seq<char> {
    match m {
        Mode::Aircraft => "aircraft"@,
        Mode::Bicycle => "bicycle"@,
        Mode::Bus => "bus"@,
        Mode::Car => "car"@,
        Mode::Gondola => "gondola"@,
        Mode::Taxi => "taxi"@,
        Mode::Train => "train"@,
        Mode::Walking => "walking"@,
        Mode::Watercraft => "watercraft"@,
        Mode::Other(s) => s@,
    }
}

impl Mode {
    /// All values known at compile time.
    pub const KNOWN: [&'static str; 9] = ["aircraft", "bicycle", "bus", "car", "gondola", "taxi", "train", "walking", "watercraft"];

    /// The canonical wire representation.
    pub fn as_str(&self) -> (r: &str)
        ensures
            r@ == mode_text(*self),
    {
        match self {
            Mode::Aircraft => "aircraft",
            Mode::Bicycle => "bicycle",
            Mode::Bus => "bus",
            Mode::Car => "car",
            Mode::Gondola => "gondola",
            Mode::Taxi => "taxi",
            Mode::Train => "train",
            Mode::Walking => "walking",
            Mode::Watercraft => "watercraft",
            Mode::Other(s) => s.as_str(),
        }
    }

    /// Parse without failing on unknown values: a known value gives its
    /// variant, anything else [`Mode::Other`] holding the text.
    pub fn from_str_lossy(s: &str) -> (r: Self)
        ensures
            mode_text(r) == s@,
            (r is Other) == !mode_known(s@),
    {
        if str_eq(s, "aircraft") {
            return Mode::Aircraft;
        }
        if str_eq(s, "bicycle") {
            return Mode::Bicycle;
        }
        if str_eq(s, "bus") {
            return Mode::Bus;
        }
        if str_eq(s, "car") {
            return Mode::Car;
        }
        if str_eq(s, "gondola") {
            return Mode::Gondola;
        }
        if str_eq(s, "taxi") {
            return Mode::Taxi;
        }
        if str_eq(s, "train") {
            return Mode::Train;
        }
        if str_eq(s, "walking") {
            return Mode::Walking;
        }
        if str_eq(s, "watercraft") {
            return Mode::Watercraft;
        }
        Mode::Other(s.to_owned())
    }

    /// True if this is the fallback for an unknown value.
    pub fn is_other(&self) -> (r: bool)
        ensures
            r == (*self is Other),
    {
        matches!(self, Mode::Other(_))
    }
}

/// Reliability class of a prognosis.
#[derive(Debug, Clone, PartialEq, Eq, Hash)]
#[non_exhaustive]
pub enum PrognosisType {
    /// The prognosis was calculated from realtime data.
    Calculated,
    /// The value is a rough prognosis.
    Prognosed,
    /// A value this library does not know yet, preserved verbatim.
    Other(String),
}

/// True if `s` is one of the values [`PrognosisType`] knows.
pub open spec fn prognosis_type_known(s: Seq<char>) -> bool {
    s == "calculated"@ || s == "prognosed"@
}

/// The wire text of a [`PrognosisType`].
pub open spec fn prognosis_type_text(m: PrognosisType) -> Seq<char> {
    match m {
        PrognosisType::Calculated => "calculated"@,
        PrognosisType::Prognosed => "prognosed"@,
        PrognosisType::Other(s) => s@,
    }
}

impl PrognosisType {
    /// All values known at compile time.
    pub const KNOWN: [&'static str; 2] = ["calculated", "prognosed"];

    /// The canonical wire representation.
    pub fn as_str(&self) -> (r: &str)
        ensures
            r@ == prognosis_type_text(*self),
    {
        match self {
            PrognosisType::Calculated => "calculated",
            PrognosisType::Prognosed => "prognosed",
            PrognosisType::Other(s) => s.as_str(),
        }
    }

    /// Parse without failing on unknown values: a known value gives its
    /// variant, anything else [`PrognosisType::Other`] holding the text.
    pub fn from_str_lossy(s: &str) -> (r: Self)
        ensures
            prognosis_type_text(r) == s@,
            (r is Other) == !prognosis_type_known(s@),
    {
        if str_eq(s, "calculated") {
            return PrognosisType::Calculated;
        }
        if str_eq(s, "prognosed") {
            return PrognosisType::Prognosed;
        }
        PrognosisType::Other(s.to_owned())
    }

    /// True if this is the fallback for an unknown value.
    pub fn is_other(&self) -> (r: bool)
        ensures
            r == (*self is Other),
    {
        matches!(self, PrognosisType::Other(_))
    }
}

/// Kind of remark (FPTF hint/status/warning merged).
#[derive(Debug, Clone, PartialEq, Eq, Hash)]
#[non_exhaustive]
pub enum RemarkKind {
    /// Generic hint shown in apps.
    Hint,
    /// Status message.
    Status,
    /// Disruption warning.
    Warning,
    /// Foreign ID metadata remark.
    ForeignId,
    /// Local fare zone information.
    LocalFareZone,
    /// DELFI Haltestellen-ID of a stop.
    StopDhid,
    /// Website of a stop.
    StopWebsite,
    /// Transit authority operating the line/stop.
    TransitAuthority,
    /// A value this library does not know yet, preserved verbatim.
    Other(String),
}

/// True if `s` is one of the values [`RemarkKind`] knows.
pub open spec fn remark_kind_known(s: Seq<char>) -> bool {
    s == "hint"@ || s == "status"@ || s == "warning"@ || s == "foreign-id"@ || s == "local-fare-zone"@ || s == "stop-dhid"@ || s == "stop-website"@ || s == "transit-authority"@
}

/// The wire text of a [`RemarkKind`].
pub open spec fn remark_kind_text(m: RemarkKind) -> Seq<char> {
    match m {
        RemarkKind::Hint => "hint"@,
        RemarkKind::Status => "status"@,
        RemarkKind::Warning => "warning"@,
        RemarkKind::ForeignId => "foreign-id"@,
        RemarkKind::LocalFareZone => "local-fare-zone"@,
        RemarkKind::StopDhid => "stop-dhid"@,
        RemarkKind::StopWebsite => "stop-website"@,
        RemarkKind::TransitAuthority => "transit-authority"@,
        RemarkKind::Other(s) => s@,
    }
}

impl RemarkKind {
    /// All values known at compile time.
    pub const KNOWN: [&'static str; 8] = ["hint", "status", "warning", "foreign-id", "local-fare-zone", "stop-dhid", "stop-website", "transit-authority"];

    /// The canonical wire representation.
    pub fn as_str(&self) -> (r: &str)
        ensures
            r@ == remark_kind_text(*self),
    {
        match self {
            RemarkKind::Hint => "hint",
            RemarkKind::Status => "status",
            RemarkKind::Warning => "warning",
            RemarkKind::ForeignId => "foreign-id",
            RemarkKind::LocalFareZone => "local-fare-zone",
            RemarkKind::StopDhid => "stop-dhid",
            RemarkKind::StopWebsite => "stop-website",
            RemarkKind::TransitAuthority => "transit-authority",
            RemarkKind::Other(s) => s.as_str(),
        }
    }

    /// Parse without failing on unknown values: a known value gives its
    /// variant, anything else [`RemarkKind::Other`] holding the text.
    pub fn from_str_lossy(s: &str) -> (r: Self)
        ensures
            remark_kind_text(r) == s@,
            (r is Other) == !remark_kind_known(s@),
    {
        if str_eq(s, "hint") {
            return RemarkKind::Hint;
        }
        if str_eq(s, "status") {
            return RemarkKind::Status;
        }
        if str_eq(s, "warning") {
            return RemarkKind::Warning;
        }
        if str_eq(s, "foreign-id") {
            return RemarkKind::ForeignId;
        }
        if str_eq(s, "local-fare-zone") {
            return RemarkKind::LocalFareZone;
        }
        if str_eq(s, "stop-dhid") {
            return RemarkKind::StopDhid;
        }
        if str_eq(s, "stop-website") {
            return RemarkKind::StopWebsite;
        }
        if str_eq(s, "transit-authority") {
            return RemarkKind::TransitAuthority;
        }
        RemarkKind::Other(s.to_owned())
    }

    /// True if this is the fallback for an unknown value.
    pub fn is_other(&self) -> (r: bool)
        ensures
            r == (*self is Other),
    {
        matches!(self, RemarkKind::Other(_))
    }
}

/// db-vendo backend profile of the DB instance.
///
/// Different profiles return different amounts of detail and have
/// different quotas.
#[derive(Debug, Clone, PartialEq, Eq, Hash)]
#[non_exhaustive]
pub enum DbProfile {
    /// Default profile (`dbnav`).
    Dbnav,
    /// Classic profile (`db`).
    Db,
    /// Web profile (`dbweb`); supports `direction` filter.
    Dbweb,
    /// A value this library does not know yet, preserved verbatim.
    Other(String),
}

/// True if `s` is one of the values [`DbProfile`] knows.
pub open spec fn db_profile_known(s: Seq<char>) -> bool {
    s == "dbnav"@ || s == "db"@ || s == "dbweb"@
}

/// The wire text of a [`DbProfile`].
pub open spec fn db_profile_text(m: DbProfile) -> Seq<char> {
    match m {
        DbProfile::Dbnav => "dbnav"@,
        DbProfile::Db => "db"@,
        DbProfile::Dbweb => "dbweb"@,
        DbProfile::Other(s) => s@,
    }
}

impl DbProfile {
    /// All values known at compile time.
    pub const KNOWN: [&'static str; 3] = ["dbnav", "db", "dbweb"];

    /// The canonical wire representation.
    pub fn as_str(&self) -> (r: &str)
        ensures
            r@ == db_profile_text(*self),
    {
        match self {
            DbProfile::Dbnav => "dbnav",
            DbProfile::Db => "db",
            DbProfile::Dbweb => "dbweb",
            DbProfile::Other(s) => s.as_str(),
        }
    }

    /// Parse without failing on unknown values: a known value gives its
    /// variant, anything else [`DbProfile::Other`] holding the text.
    pub fn from_str_lossy(s: &str) -> (r: Self)
        ensures
            db_profile_text(r) == s@,
            (r is Other) == !db_profile_known(s@),
    {
        if str_eq(s, "dbnav") {
            return DbProfile::Dbnav;
        }
        if str_eq(s, "db") {
            return DbProfile::Db;
        }
        if str_eq(s, "dbweb") {
            return DbProfile::Dbweb;
        }
        DbProfile::Other(s.to_owned())
    }

    /// True if this is the fallback for an unknown value.
    pub fn is_other(&self) -> (r: bool)
        ensures
            r == (*self is Other),
    {
        matches!(self, DbProfile::Other(_))
    }
}

/// A transit operator.
///
/// The upstream OpenAPI spec declares some `operator` fields as numbers
/// while the wire format uses objects (and occasionally bare ids); this
/// model accepts all three shapes.
#[derive(Debug, Clone, Default, PartialEq, Eq)]
pub struct Operator {
    /// Operator ID.
    pub id: Option<String>,
    /// Operator name.
    pub name: Option<String>,
}

/// The shapes an `operator` value arrives in on the wire.
#[derive(Debug, Clone)]
pub enum OperatorValue {
    /// A JSON object; `id` and `name` are its members of those names when
    /// they are strings.
    Object { id: Option<String>, name: Option<String> },
    /// A JSON number, as its decimal text.
    Number(String),
    /// A JSON string.
    Text(String),
    /// `null`, a boolean or an array.
    Other,
}

impl Operator {
    /// Normalize the tolerated wire shapes: an object gives its string `id`
    /// and `name`, a number or a string is the id, anything else is empty.
    pub fn from_lenient(v: OperatorValue) -> (o: Self)
        ensures
            match v {
                OperatorValue::Object { id, name } => o.id == id && o.name == name,
                OperatorValue::Number(n) => o.id == Some(n) && o.name is None,
                OperatorValue::Text(s) => o.id == Some(s) && o.name is None,
                OperatorValue::Other => o.id is None && o.name is None,
            },
    {
        match v {
            OperatorValue::Object { id, name } => Operator { id, name },
            OperatorValue::Number(n) => Operator { id: Some(n), name: None },
            OperatorValue::Text(s) => Operator { id: Some(s), name: None },
            OperatorValue::Other => Operator { id: None, name: None },
        }
    }
}

/// True when no operator is present (the field is then left out when
/// written).
pub fn operator_lenient_is_none(op: &Option<Operator>) -> (r: bool)
    ensures
        r == op.is_none(),
{
    op.is_none()
}

/// A public transport line.
#[derive(Debug, Clone, Default, PartialEq)]
pub struct Line {
    /// Line ID.
    pub id: Option<String>,
    /// Displayed line name (e.g. `"ICE 599"`, `"M4"`).
    pub name: Option<String>,
    /// Additional name context (e.g. route description).
    pub additional_name: Option<String>,
    /// Internal admin code of the line.
    pub admin_code: Option<String>,
    /// Trip number within the line (`Fahrtnummer`).
    pub fahrt_nr: Option<String>,
    /// Product key; profile-specific open string (`ice`, `bus`, ...).
    pub product: Option<String>,
    /// Human readable product name.
    pub product_name: Option<String>,
    /// Mode of transport on this line.
    pub mode: Option<Mode>,
    /// Operating company.
    pub operator: Option<Operator>,
    /// Express service?
    pub express: Option<bool>,
    /// Metro service?
    pub metro: Option<bool>,
    /// Night service?
    pub night: Option<bool>,
    /// Numeric line number, if any.
    pub nr: Option<i64>,
    /// Symbol shown on maps/signs.
    pub symbol: Option<String>,
    /// Publicly visible?
    pub public: Option<bool>,
    /// Terminus names for both directions.
    pub directions: Vec<String>,
    /// Route IDs served by this line.
    pub routes: Vec<String>,
}

/// Cycle times of a line/trip in minutes.
#[derive(Debug, Clone, Copy, Default, PartialEq, Eq)]
pub struct Cycle {
    /// Minimum headway.
    pub min: Option<i64>,
    /// Maximum headway.
    pub max: Option<i64>,
    /// Nominal number of trips per cycle.
    pub nr: Option<i64>,
}

/// Which variant a tagged place value becomes.
#[derive(Debug, Clone, Copy, PartialEq, Eq, Structural)]
pub enum PlaceKind {
    /// A stop (`"type": "stop"`).
    Stop,
    /// A station (`"type": "station"`).
    Station,
    /// A plain location (`"type": "location"`, or no tag).
    Location,
    /// Anything else, kept verbatim.
    Other,
}

/// The variant of a location search result or a place with wire tag `tag`
/// (the `type` member when it is a string): stops and stations by their
/// tag, plain locations by theirs or by having none, anything else kept
/// verbatim.
pub open spec fn place_kind_spec(tag: Option<Seq<char>>) -> PlaceKind {
    match tag {
        Some(t) => if t == "stop"@ {
            PlaceKind::Stop
        } else if t == "station"@ {
            PlaceKind::Station
        } else if t == "location"@ {
            PlaceKind::Location
        } else {
            PlaceKind::Other
        },
        None => PlaceKind::Location,
    }
}

/// The variant of a stop-or-station value with wire tag `tag`: there is
/// no plain-location variant, so untagged and location values are kept
/// verbatim.
pub open spec fn stop_or_station_kind_spec(tag: Option<Seq<char>>) -> PlaceKind {
    match place_kind_spec(tag) {
        PlaceKind::Location => PlaceKind::Other,
        k => k,
    }
}

/// Pick the variant of a location search result or a place from its tag.
pub fn place_kind(tag: Option<&str>) -> (k: PlaceKind)
    ensures
        k == place_kind_spec(match tag {
            Some(t) => Some(t@),
            None => None,
        }),
{
    match tag {
        Some(t) => {
            if str_eq(t, "stop") {
                PlaceKind::Stop
            } else if str_eq(t, "station") {
                PlaceKind::Station
            } else if str_eq(t, "location") {
                PlaceKind::Location
            } else {
                PlaceKind::Other
            }
        },
        None => PlaceKind::Location,
    }
}

/// Pick the variant of a stop-or-station value from its tag.
pub fn stop_or_station_kind(tag: Option<&str>) -> (k: PlaceKind)
    ensures
        k == stop_or_station_kind_spec(match tag {
            Some(t) => Some(t@),
            None => None,
        }),
{
    match place_kind(tag) {
        PlaceKind::Location => PlaceKind::Other,
        k => k,
    }
}

} // verus!
