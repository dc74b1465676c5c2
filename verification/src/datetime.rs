//! Instants with a fixed UTC offset, and their RFC 3339 text.

use vstd::prelude::*;

verus! {

/// Earliest local time `chrono` can represent, in seconds after the Unix
/// epoch: the start of year -262143.
pub const MIN_LOCAL_SECS: i64 = -8334601315200;

/// Latest whole local second `chrono` can represent, in seconds after the
/// Unix epoch: the last second of year 262142.
pub const MAX_LOCAL_SECS: i64 = 8210266876799;

/// How many digits of the seconds' fraction an RFC 3339 text carries (the
/// variants of `chrono::SecondsFormat`).
#[derive(Debug, Clone, Copy, PartialEq, Eq, Structural)]
pub enum SecondsFormat {
    /// Whole seconds.
    Secs,
    /// Three digits.
    Millis,
    /// Six digits.
    Micros,
    /// Nine digits.
    Nanos,
    /// As many as the value needs, in groups of three.
    AutoSi,
}

/// The RFC 3339 text that `chrono` writes for the instant `secs`/`nanos`
/// after the Unix epoch seen at UTC offset `offset` seconds, with the
/// fraction as `format` says and `Z` for offset 0 when `use_z`; `None` when
/// `chrono` rejects the timestamp or the offset, or the local date and time
/// lies outside the range it represents.
pub uninterp spec fn rfc3339_text(secs: i64, nanos: u32, offset: i32, format: SecondsFormat, use_z: bool) -> Option<Seq<char>>;

/// `chrono`: `DateTime::from_timestamp(secs, nanos)` moved to
/// `FixedOffset::east_opt(offset)` and written by
/// `to_rfc3339_opts(format, use_z)`; before writing,
/// `NaiveDateTime::checked_add_offset` tells whether the local date and time
/// exists (writing one that does not would panic). The contract names the
/// text and states that `east_opt` rejects offsets of a day or more and that
/// a local time outside `MIN_LOCAL_SECS..=MAX_LOCAL_SECS` gives `None`, as
/// the source shows; it does not state the calendar arithmetic.
#[verifier::external_body]
fn chrono_rfc3339(secs: i64, nanos: u32, offset: i32, format: SecondsFormat, use_z: bool) -> (r: Option<String>)
    ensures
        r matches Some(t) ==> rfc3339_text(secs, nanos, offset, format, use_z) == Some(t@),
        r is None ==> rfc3339_text(secs, nanos, offset, format, use_z) is None,
        !(-86_400 < offset < 86_400) ==> r is None,
        !(MIN_LOCAL_SECS <= secs + offset <= MAX_LOCAL_SECS) ==> r is None,
{
    let fmt = match format {
        SecondsFormat::Secs => chrono::SecondsFormat::Secs,
        SecondsFormat::Millis => chrono::SecondsFormat::Millis,
        SecondsFormat::Micros => chrono::SecondsFormat::Micros,
        SecondsFormat::Nanos => chrono::SecondsFormat::Nanos,
        SecondsFormat::AutoSi => chrono::SecondsFormat::AutoSi,
    };
    let tz = chrono::FixedOffset::east_opt(offset)?;
    let utc = chrono::DateTime::from_timestamp(secs, nanos)?;
    utc.naive_utc().checked_add_offset(tz)?;
    Some(utc.with_timezone(&tz).to_rfc3339_opts(fmt, use_z))
}

/// The RFC 3339 text with whole seconds and `Z` for UTC, the form request
/// parameters carry.
pub open spec fn rfc3339_seconds_text(secs: i64, nanos: u32, offset: i32) -> Option<Seq<char>> {
    rfc3339_text(secs, nanos, offset, SecondsFormat::Secs, true)
}

/// A date and time with a fixed offset from UTC (the plain values of a
/// `chrono::DateTime<FixedOffset>`).
#[derive(Debug, Clone, Copy)]
pub struct DateTimeOffset {
    secs: i64,
    nanos: u32,
    offset: i32,
}

impl DateTimeOffset {
    #[verifier::type_invariant]
    closed spec fn wf(self) -> bool {
        rfc3339_seconds_text(self.secs, self.nanos, self.offset) is Some
    }

    /// Seconds since the Unix epoch.
    pub closed spec fn secs(self) -> i64 {
        self.secs
    }

    /// Nanoseconds within the second.
    pub closed spec fn nanos(self) -> u32 {
        self.nanos
    }

    /// Offset from UTC in seconds, east positive.
    pub closed spec fn offset(self) -> i32 {
        self.offset
    }

    /// The RFC 3339 text of this instant, with whole seconds.
    pub open spec fn text(self) -> Seq<char> {
        rfc3339_seconds_text(self.secs(), self.nanos(), self.offset()).unwrap()
    }

    /// The instant `secs`/`nanos` after the Unix epoch at UTC offset
    /// `offset` seconds; `None` when no such date and time exists.
    pub fn new(secs: i64, nanos: u32, offset: i32) -> (r: Option<Self>)
        ensures
            r is Some <==> rfc3339_seconds_text(secs, nanos, offset) is Some,
            r matches Some(d) ==> d.secs() == secs && d.nanos() == nanos && d.offset() == offset,
            !(-86_400 < offset < 86_400) ==> r is None,
            !(MIN_LOCAL_SECS <= secs + offset <= MAX_LOCAL_SECS) ==> r is None,
    {
        match chrono_rfc3339(secs, nanos, offset, SecondsFormat::Secs, true) {
            Some(_) => Some(DateTimeOffset { secs, nanos, offset }),
            None => None,
        }
    }

    /// RFC 3339 text with whole seconds, `Z` for UTC.
    pub fn to_rfc3339_secs(&self) -> (r: String)
        ensures
            r@ == self.text(),
    {
        proof {
            use_type_invariant(self);
        }
        match chrono_rfc3339(self.secs, self.nanos, self.offset, SecondsFormat::Secs, true) {
            Some(t) => t,
            None => {
                proof {
                    assert(false);
                }
                String::new()
            },
        }
    }
}

} // verus!
