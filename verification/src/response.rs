//! Response handling: the size cap on bodies, the classification of
//! non-success responses and the `Retry-After` header.

use vstd::prelude::*;
use crate::decimal::{
    all_digit_chars, all_digits, digit_values, digits_of, dval, lemma_digit_values,
    lemma_dval_prefix_le,
};
use crate::error::{
    ApiError, HttpError, RateLimitedError, RetryDelay, SerializationError, TransportRestError,
    ERROR_BODY_SNIPPET_LEN,
};
use crate::json::{member_str, member_str_spec, JsonValue, JsonView};
use crate::json_text::{json_parse, parse_json_text};
use crate::text::{chars_of, push_char, push_str, trim, trim_spec, u64_text, nat_text};

verus! {

// ---------------------------------------------------------------------------
// Outside functions
// ---------------------------------------------------------------------------

/// What `String::from_utf8_lossy` decodes `bytes` to.
pub uninterp spec fn utf8_lossy(bytes: Seq<u8>) -> Seq<char>;

/// `String::from_utf8_lossy`: the text of `bytes`, each invalid sequence
/// replaced by U+FFFD. The contract names the result; it does not state
/// the decoding.
#[verifier::external_body]
fn decode_lossy(bytes: &[u8]) -> (r: String)
    ensures
        r@ == utf8_lossy(bytes@),
{
    String::from_utf8_lossy(bytes).into_owned()
}

/// The instant an RFC 2822 date names, as `chrono` reads it: Unix seconds
/// and the nanoseconds within the second (at or above one second for a
/// leap second).
pub uninterp spec fn rfc2822_instant(text: Seq<char>) -> Option<(i64, u32)>;

/// `chrono::DateTime::parse_from_rfc2822`, read back through `timestamp`
/// and `timestamp_subsec_nanos`. The contract names the result; it does not
/// state the date grammar or the calendar.
#[verifier::external_body]
fn rfc2822_unix(text: &str) -> (r: Option<(i64, u32)>)
    ensures
        r == rfc2822_instant(text@),
{
    let d = chrono::DateTime::parse_from_rfc2822(text).ok()?;
    Some((d.timestamp(), d.timestamp_subsec_nanos()))
}

/// `SystemTime::now().duration_since(UNIX_EPOCH)`, as whole seconds and
/// nanoseconds; `None` when the clock reads before the epoch. Of the result
/// only what `Duration` keeps is stated: the nanoseconds stay below one
/// second. It is the time of the call.
#[verifier::external_body]
fn unix_now() -> (r: Option<(u64, u32)>)
    ensures
        r matches Some((_, n)) ==> n < 1_000_000_000,
{
    let d = std::time::SystemTime::now().duration_since(std::time::UNIX_EPOCH).ok()?;
    Some((d.as_secs(), d.subsec_nanos()))
}

// ---------------------------------------------------------------------------
// Body size cap
// ---------------------------------------------------------------------------

/// `e` is the schema error with `message` for the response at `url`.
pub open spec fn is_schema_error(e: TransportRestError, url: Option<Seq<char>>, message: Seq<char>) -> bool {
    &&& e matches TransportRestError::Serialization(s)
    &&& match s.url {
        Some(u) => url == Some(u@),
        None => url is None,
    }
    &&& s.source matches crate::error::SerializationErrorKind::Schema(m) && m@ == message
}

/// The view of an optional text.
pub open spec fn opt_text(o: Option<String>) -> Option<Seq<char>> {
    match o {
        Some(s) => Some(s@),
        None => None,
    }
}

/// Message for a body announced larger than the cap.
pub open spec fn announced_too_large(len: u64, max: usize) -> Seq<char> {
    "response of "@ + nat_text(len as nat) + " bytes exceeds configured maximum of "@ + nat_text(
        max as nat,
    ) + " bytes"@
}

/// Message for a body that grew larger than the cap while read.
pub open spec fn read_too_large(max: usize) -> Seq<char> {
    "response exceeds configured maximum of "@ + nat_text(max as nat) + " bytes"@
}

/// Reject a response whose announced `Content-Length` exceeds `max`
/// (compared after conversion to `usize`, as the length is used).
pub fn check_content_length(len: Option<u64>, max: usize, url: &Option<String>) -> (r: Result<(), TransportRestError>)
    ensures
        match len {
            Some(n) if (n as usize) > max => r matches Err(e) && is_schema_error(
                e,
                opt_text(*url),
                announced_too_large(n, max),
            ),
            _ => r is Ok,
        },
{
    if let Some(n) = len {
        if (n as usize) > max {
            let mut m = "response of ".to_owned();
            push_str(&mut m, u64_text(n).as_str());
            push_str(&mut m, " bytes exceeds configured maximum of ");
            push_str(&mut m, u64_text(max as u64).as_str());
            push_str(&mut m, " bytes");
            return Err(
                TransportRestError::Serialization(SerializationError::schema(m, clone_url(url))),
            );
        }
    }
    Ok(())
}

fn clone_url(url: &Option<String>) -> (r: Option<String>)
    ensures
        opt_text(r) == opt_text(*url),
{
    match url {
        Some(u) => Some(u.clone()),
        None => None,
    }
}

/// Append a received chunk to the body, unless the body would then exceed
/// `max` bytes; then the body is left as it was and the error says so.
pub fn accept_chunk(buf: &mut Vec<u8>, chunk: &[u8], max: usize, url: &Option<String>) -> (r: Result<(), TransportRestError>)
    ensures
        old(buf)@.len() + chunk@.len() > max ==> (r matches Err(e) && is_schema_error(
            e,
            opt_text(*url),
            read_too_large(max),
        )) && final(buf)@ == old(buf)@,
        old(buf)@.len() + chunk@.len() <= max ==> r is Ok && final(buf)@ == old(buf)@ + chunk@,
        r is Ok ==> final(buf)@.len() <= max,
{
    if chunk.len() > max || buf.len() > max - chunk.len() {
        let mut m = "response exceeds configured maximum of ".to_owned();
        push_str(&mut m, u64_text(max as u64).as_str());
        push_str(&mut m, " bytes");
        return Err(TransportRestError::Serialization(SerializationError::schema(m, clone_url(url))));
    }
    let ghost start = buf@;
    for i in 0..chunk.len()
        invariant
            buf@ == start + chunk@.take(i as int),
    {
        buf.push(chunk[i]);
        assert(chunk@.take(i + 1) =~= chunk@.take(i as int).push(chunk@[i as int]));
        assert(buf@ =~= start + chunk@.take(i + 1));
    }
    assert(chunk@.take(chunk@.len() as int) =~= chunk@);
    Ok(())
}

// ---------------------------------------------------------------------------
// Error body snippets
// ---------------------------------------------------------------------------

/// Number of bytes UTF-8 takes for `c`.
pub open spec fn utf8_len(c: char) -> nat {
    let u = c as u32;
    if u < 0x80 {
        1
    } else if u < 0x800 {
        2
    } else if u < 0x10000 {
        3
    } else {
        4
    }
}

/// Number of bytes UTF-8 takes for `s`.
pub open spec fn utf8_size(s: Seq<char>) -> nat
    decreases s.len(),
{
    if s.len() == 0 {
        0
    } else {
        utf8_size(s.drop_last()) + utf8_len(s.last())
    }
}

/// Characters of `s` from index `k` on that still fit into `limit` bytes
/// when `used` are taken: the index where the longest fitting prefix ends.
pub open spec fn fit_end(s: Seq<char>, k: nat, used: nat, limit: nat) -> nat
    decreases s.len() - k,
{
    if k >= s.len() || used + utf8_len(s[k as int]) > limit {
        k
    } else {
        fit_end(s, k + 1, used + utf8_len(s[k as int]), limit)
    }
}

/// An error body cut for display: whole when its UTF-8 encoding fits
/// [`ERROR_BODY_SNIPPET_LEN`] bytes, else the longest prefix on a character
/// boundary that fits, followed by `…`.
pub open spec fn snippet_spec(s: Seq<char>) -> Seq<char> {
    if utf8_size(s) <= ERROR_BODY_SNIPPET_LEN {
        s
    } else {
        s.take(fit_end(s, 0, 0, ERROR_BODY_SNIPPET_LEN as nat) as int) + seq!['\u{2026}']
    }
}

proof fn lemma_utf8_size_prefix(s: Seq<char>, k: int)
    requires
        0 <= k < s.len(),
    ensures
        utf8_size(s.take(k + 1)) == utf8_size(s.take(k)) + utf8_len(s[k]),
{
    assert(s.take(k + 1).drop_last() =~= s.take(k));
}

proof fn lemma_utf8_size_mono(s: Seq<char>, k: int)
    requires
        0 <= k <= s.len(),
    ensures
        utf8_size(s.take(k)) <= utf8_size(s),
    decreases s.len() - k,
{
    if k < s.len() {
        lemma_utf8_size_prefix(s, k);
        lemma_utf8_size_mono(s, k + 1);
    } else {
        assert(s.take(k) =~= s);
    }
}

/// Number of bytes UTF-8 takes for `c`.
fn char_utf8_len(c: char) -> (n: usize)
    ensures
        n == utf8_len(c),
{
    let u = c as u32;
    if u < 0x80 {
        1
    } else if u < 0x800 {
        2
    } else if u < 0x10000 {
        3
    } else {
        4
    }
}

/// Cut an error body for display (see [`snippet_spec`]).
pub fn truncate_snippet(text: &str) -> (r: String)
    ensures
        r@ == snippet_spec(text@),
{
    let v = chars_of(text);
    let ghost s = v@;
    let limit = ERROR_BODY_SNIPPET_LEN;
    let mut size: usize = 0;
    let mut k: usize = 0;
    while k < v.len()
        invariant_except_break
            limit == ERROR_BODY_SNIPPET_LEN,
            k <= v@.len(),
            s == v@,
            size == utf8_size(s.take(k as int)),
            size <= limit,
            fit_end(s, k as nat, size as nat, limit as nat) == fit_end(s, 0, 0, limit as nat),
        ensures
            limit == ERROR_BODY_SNIPPET_LEN,
            k <= v@.len(),
            s == v@,
            size == utf8_size(s.take(k as int)),
            size <= limit,
            fit_end(s, 0, 0, limit as nat) == k,
            k < v@.len() ==> size + utf8_len(s[k as int]) > limit,
        decreases v.len() - k,
    {
        let l = char_utf8_len(v[k]);
        if size + l > limit {
            break;
        }
        proof {
            lemma_utf8_size_prefix(s, k as int);
        }
        size = size + l;
        k = k + 1;
    }
    if k == v.len() {
        assert(s.take(k as int) =~= s);
        return text.to_owned();
    }
    proof {
        lemma_utf8_size_prefix(s, k as int);
        lemma_utf8_size_mono(s, k + 1);
    }
    let mut out = String::new();
    for i in 0..k
        invariant
            k < v@.len(),
            s == v@,
            out@ == s.take(i as int),
    {
        push_char(&mut out, v[i]);
        assert(s.take(i + 1) =~= s.take(i as int).push(s[i as int]));
    }
    push_char(&mut out, '\u{2026}');
    out
}

proof fn lemma_fit_end(s: Seq<char>, k: nat, used: nat, limit: nat)
    requires
        k <= s.len(),
        used == utf8_size(s.take(k as int)),
        used <= limit,
    ensures
        k <= fit_end(s, k, used, limit) <= s.len(),
        utf8_size(s.take(fit_end(s, k, used, limit) as int)) <= limit,
    decreases s.len() - k,
{
    if k < s.len() && used + utf8_len(s[k as int]) <= limit {
        lemma_utf8_size_prefix(s, k as int);
        lemma_fit_end(s, k + 1, used + utf8_len(s[k as int]), limit);
    }
}

/// An error body snippet never takes more than
/// [`ERROR_BODY_SNIPPET_LEN`] bytes plus the three of `…`.
pub proof fn law_snippet_is_bounded(s: Seq<char>)
    ensures
        utf8_size(snippet_spec(s)) <= ERROR_BODY_SNIPPET_LEN + 3,
{
    if utf8_size(s) > ERROR_BODY_SNIPPET_LEN {
        assert(s.take(0) =~= Seq::<char>::empty());
        lemma_fit_end(s, 0, 0, ERROR_BODY_SNIPPET_LEN as nat);
        let t = s.take(fit_end(s, 0, 0, ERROR_BODY_SNIPPET_LEN as nat) as int);
        let r = t + seq!['\u{2026}'];
        assert(r.drop_last() =~= t);
        assert(r.last() == '\u{2026}');
    }
}

// ---------------------------------------------------------------------------
// Retry-After
// ---------------------------------------------------------------------------

/// `str::parse::<u64>`: an optional `+`, then one or more ASCII digits
/// whose value fits a `u64`.
pub open spec fn parse_u64_spec(s: Seq<char>) -> Option<u64> {
    let d = if s.len() > 0 && s[0] == '+' {
        s.drop_first()
    } else {
        s
    };
    if d.len() > 0 && all_digit_chars(d) && dval(digit_values(d)) <= u64::MAX {
        Some(dval(digit_values(d)) as u64)
    } else {
        None
    }
}

/// Parse a decimal `u64` as `str::parse` does (see [`parse_u64_spec`]).
pub fn parse_u64(s: &str) -> (r: Option<u64>)
    ensures
        r == parse_u64_spec(s@),
{
    let v = chars_of(s);
    let n = v.len();
    let start: usize = if n > 0 && v[0] == '+' {
        1
    } else {
        0
    };
    let ghost d = v@.subrange(start as int, n as int);
    assert(d =~= if s@.len() > 0 && s@[0] == '+' {
        s@.drop_first()
    } else {
        s@
    });
    if start == n {
        return None;
    }
    let mut digits: Vec<u8> = Vec::new();
    if !digits_of(&v, start, n, &mut digits) {
        return None;
    }
    proof {
        lemma_digit_values(d);
        assert(digits@ =~= digit_values(d));
    }
    let mut acc: u64 = 0;
    for i in 0..digits.len()
        invariant
            digits@ == digit_values(d),
            all_digits(digits@),
            d == (if s@.len() > 0 && s@[0] == '+' {
                s@.drop_first()
            } else {
                s@
            }),
            d.len() > 0,
            all_digit_chars(d),
            acc == dval(digits@.take(i as int)),
    {
        let dg = digits[i] as u64;
        assert(dg < 10) by {
            assert(digits@[i as int] < 10);
        }
        proof {
            assert(digits@.take(i + 1).drop_last() =~= digits@.take(i as int));
        }
        if acc > (u64::MAX - dg) / 10 {
            proof {
                assert(digits@.take(i + 1).last() == dg);
                assert(dval(digits@.take(i + 1)) == acc * 10 + dg);
                let q = (u64::MAX - dg) / 10;
                assert(acc * 10 + dg > u64::MAX) by (nonlinear_arith)
                    requires
                        acc > q,
                        q == (u64::MAX - dg) / 10,
                        dg < 10,
                ;
                lemma_dval_prefix_le(digits@, i + 1);
                assert(dval(digit_values(d)) > u64::MAX);
            }
            return None;
        }
        acc = acc * 10 + dg;
    }
    assert(digits@.take(digits@.len() as int) =~= digits@);
    Some(acc)
}

/// The time from the instant `now_secs`/`now_nanos` until the instant
/// `secs`/`nanos` (both Unix time), as `chrono`'s `signed_duration_since`
/// measures it between two UTC date-times (a leap second, nanoseconds at or
/// above one second, counts against a later time of day), when it is
/// positive: whole seconds and nanoseconds below one second.
pub open spec fn wait_until(secs: i64, nanos: u32, now_secs: u64, now_nanos: u32) -> Option<RetryDelay> {
    let ts = (secs as int) % 86400;
    let tr = (now_secs as int) % 86400;
    let adj: int = if ts > tr && now_nanos >= 1_000_000_000 {
        1_000_000_000
    } else if ts < tr && nanos >= 1_000_000_000 {
        -1_000_000_000
    } else {
        0
    };
    let total: int = (secs - now_secs) * 1_000_000_000 + nanos - now_nanos + adj;
    if total > 0 {
        Some(RetryDelay { secs: (total / 1_000_000_000) as u64, nanos: (total % 1_000_000_000) as u32 })
    } else {
        None
    }
}

/// The wait until the instant an HTTP date names, measured from `now`:
/// `date` is what the date parser made of the header value (see
/// [`wait_until`]); `None` when it did not parse or the date is not in the
/// future.
pub fn wait_from_date(date: Option<(i64, u32)>, now_secs: u64, now_nanos: u32) -> (r: Option<RetryDelay>)
    ensures
        r == match date {
            Some((s, n)) => wait_until(s, n, now_secs, now_nanos),
            None => None,
        },
        r matches Some(d) ==> d.nanos < 1_000_000_000,
{
    match date {
        None => None,
        Some((s, n)) => {
            let shift: i128 = 86400 * 107374182400000;
            let ts: u128 = ((s as i128 + shift) as u128) % 86400;
            let tr: u128 = (now_secs as u128) % 86400;
            proof {
                vstd::arithmetic::div_mod::lemma_mod_multiples_vanish(107374182400000, s as int, 86400);
                assert(86400 * 107374182400000 + s == s + shift);
            }
            let adj: i128 = if ts > tr && now_nanos >= 1_000_000_000 {
                1_000_000_000
            } else if ts < tr && n >= 1_000_000_000 {
                -1_000_000_000
            } else {
                0
            };
            let total: i128 = (s as i128 - now_secs as i128) * 1_000_000_000 + n as i128 - now_nanos as i128
                + adj;
            if total > 0 {
                let t = total as u128;
                let q = t / 1_000_000_000;
                let rem = t % 1_000_000_000;
                assert(q <= u64::MAX);
                Some(RetryDelay { secs: q as u64, nanos: rem as u32 })
            } else {
                None
            }
        },
    }
}

/// The wait a `Retry-After` value asks for, measured from `now`: whole
/// seconds, or the time until an HTTP date when it is in the future.
pub open spec fn retry_after_spec(value: Seq<char>, now_secs: u64, now_nanos: u32) -> Option<RetryDelay> {
    match parse_u64_spec(value) {
        Some(n) => Some(RetryDelay { secs: n, nanos: 0 }),
        None => match rfc2822_instant(value) {
            Some((s, n)) => wait_until(s, n, now_secs, now_nanos),
            None => None,
        },
    }
}

/// Parse a `Retry-After` header value, measuring HTTP dates from `now`.
pub fn parse_retry_after_at(value: &str, now_secs: u64, now_nanos: u32) -> (r: Option<RetryDelay>)
    ensures
        r == retry_after_spec(value@, now_secs, now_nanos),
        r matches Some(d) ==> d.nanos < 1_000_000_000,
{
    if let Some(secs) = parse_u64(value) {
        return Some(RetryDelay { secs, nanos: 0 });
    }
    wait_from_date(rfc2822_unix(value), now_secs, now_nanos)
}

/// Parse a `Retry-After` header value: delay-seconds, or an HTTP date
/// measured from the current time. The clock is read only for a date; a
/// clock that reads before 1970 gives no wait.
pub fn parse_retry_after(value: &str) -> (r: Option<RetryDelay>)
    ensures
        exists|s: u64, n: u32| n < 1_000_000_000 && r == #[trigger] retry_after_spec(value@, s, n),
        r matches Some(d) ==> d.nanos < 1_000_000_000,
{
    if let Some(secs) = parse_u64(value) {
        assert(Some(RetryDelay { secs, nanos: 0 }) == retry_after_spec(value@, 0, 0));
        return Some(RetryDelay { secs, nanos: 0 });
    }
    let date = rfc2822_unix(value);
    match date {
        None => {
            assert(retry_after_spec(value@, 0, 0) is None);
            None
        },
        Some((ds, dn)) => match unix_now() {
            Some((s, n)) => {
                let r = wait_from_date(date, s, n);
                assert(r == retry_after_spec(value@, s, n));
                r
            },
            None => {
                assert(wait_until(ds, dn, u64::MAX, 0) is None);
                assert(retry_after_spec(value@, u64::MAX, 0) is None);
                None
            },
        },
    }
}

// ---------------------------------------------------------------------------
// Non-success responses
// ---------------------------------------------------------------------------

/// The parsed value, when the text parsed.
pub open spec fn parsed_value(r: Result<JsonView, Seq<char>>) -> Option<JsonView> {
    match r {
        Ok(v) => Some(v),
        Err(_) => None,
    }
}

/// The plain value of an optional JSON value.
pub open spec fn opt_json(o: Option<JsonValue>) -> Option<JsonView> {
    match o {
        Some(v) => Some(v@),
        None => None,
    }
}

/// The `message` string a parsed body carries, empty when there is none.
pub open spec fn body_message(p: Option<JsonView>) -> Seq<char> {
    match p {
        Some(v) => match member_str_spec(v, "message"@) {
            Some(m) => m,
            None => seq![],
        },
        None => seq![],
    }
}

/// The JSON body kept with an API error: the text when it parsed to
/// something other than `null`.
pub open spec fn body_kept(p: Option<JsonView>, text: Seq<char>) -> Option<Seq<char>> {
    match p {
        Some(v) => if v is Null {
            None
        } else {
            Some(text)
        },
        None => None,
    }
}

/// `a` is the API error for `status` at `url` with `message` and `body`.
pub open spec fn is_api_error(a: ApiError, status: u16, url: Seq<char>, message: Seq<char>, body: Option<Seq<char>>) -> bool {
    a.status == status && a.url@ == url && a.message@ == message && opt_text(a.body) == body
}

/// The error a non-success response maps to, given its trimmed body text
/// `t` and the JSON value it parsed to, if any (`p`). HTTP 429 is rate
/// limiting (with `retry_after`); a body with a `message` string or a JSON
/// object is a structured API error; anything else is an HTTP error with a
/// snippet of the body.
pub open spec fn classified_error(e: TransportRestError, status: u16, url: Seq<char>, t: Seq<char>, p: Option<JsonView>, retry_after: Option<RetryDelay>) -> bool {
    let m = body_message(p);
    if status == 429 {
        e matches TransportRestError::RateLimited(r) && is_api_error(
            r.api,
            status,
            url,
            if m.len() == 0 {
                "rate limited"@
            } else {
                m
            },
            body_kept(p, t),
        ) && r.retry_after == retry_after
    } else if m.len() > 0 || p matches Some(JsonView::Object(_)) {
        e matches TransportRestError::Api(a) && is_api_error(
            a,
            status,
            url,
            if m.len() == 0 {
                "unspecified API error"@
            } else {
                m
            },
            body_kept(p, t),
        )
    } else {
        e matches TransportRestError::Http(h) && h.status == status && h.method@ == "GET"@
            && h.url@ == url && h.body_snippet@ == snippet_spec(t)
    }
}

/// The error a non-success response maps to: `text` is the decoded body,
/// which is trimmed and parsed as JSON (see [`classified_error`]).
pub open spec fn response_error(e: TransportRestError, status: u16, url: Seq<char>, text: Seq<char>, retry_after: Option<RetryDelay>) -> bool {
    classified_error(e, status, url, trim_spec(text), parsed_value(json_parse(trim_spec(text))), retry_after)
}

/// Map a non-success response onto the error taxonomy, given its trimmed
/// body text `t`, the JSON value that text parsed to (`None` when it did
/// not parse) and the `Retry-After` wait already determined.
pub fn classify_parsed(status: u16, url: String, t: &str, parsed: Option<JsonValue>, retry_after: Option<RetryDelay>) -> (e: TransportRestError)
    ensures
        classified_error(e, status, url@, t@, opt_json(parsed), retry_after),
{
    let ghost p = opt_json(parsed);
    let (message, is_object, body): (String, bool, Option<String>) = match &parsed {
        Some(v) => (
            match member_str(v, "message") {
                Some(m) => m,
                None => String::new(),
            },
            match v {
                JsonValue::Object(_) => true,
                _ => false,
            },
            match v {
                JsonValue::Null => None,
                _ => Some(t.to_owned()),
            },
        ),
        None => (String::new(), false, None),
    };
    assert(message@ == body_message(p));
    assert(opt_text(body) == body_kept(p, t@));
    assert(is_object == (p matches Some(JsonView::Object(_))));
    if status == 429 {
        let msg = if message.as_str().is_empty() {
            "rate limited".to_owned()
        } else {
            message
        };
        return TransportRestError::RateLimited(
            RateLimitedError { api: ApiError { status, url, message: msg, body }, retry_after },
        );
    }
    if !message.as_str().is_empty() || is_object {
        let msg = if message.as_str().is_empty() {
            "unspecified API error".to_owned()
        } else {
            message
        };
        return TransportRestError::Api(ApiError { status, url, message: msg, body });
    }
    TransportRestError::Http(
        HttpError { status, method: "GET".to_owned(), url, body_snippet: truncate_snippet(t) },
    )
}

/// Map a decoded non-success response onto the error taxonomy, with the
/// `Retry-After` wait already determined: the body is trimmed, parsed with
/// `serde_json` and classified (see [`classify_parsed`]).
pub fn classify_response(status: u16, url: String, text: &str, retry_after: Option<RetryDelay>) -> (e: TransportRestError)
    ensures
        response_error(e, status, url@, text@, retry_after),
{
    let t = trim(text);
    let parsed = match parse_json_text(t.as_str()) {
        Ok(v) => Some(v),
        Err(_) => None,
    };
    classify_parsed(status, url, t.as_str(), parsed, retry_after)
}

/// The view of an optional string slice.
pub open spec fn opt_str(o: Option<&str>) -> Option<Seq<char>> {
    match o {
        Some(s) => Some(s@),
        None => None,
    }
}

/// `w` is a wait the response's `Retry-After` value can give: read for
/// HTTP 429 only, an HTTP date measured from some reading of the clock.
pub open spec fn header_wait(status: u16, value: Option<Seq<char>>, w: Option<RetryDelay>) -> bool {
    if status == 429 {
        match value {
            Some(v) => exists|s: u64, n: u32| n < 1_000_000_000 && w == #[trigger] retry_after_spec(v, s, n),
            None => w is None,
        }
    } else {
        w is None
    }
}

/// Map a non-success response (status, request URL, `Retry-After` header
/// value if any, raw body) onto the error taxonomy. The header is read only
/// for HTTP 429, and the clock only for an HTTP date in it.
pub fn error_from_response(status: u16, url: String, retry_after: Option<&str>, body: &[u8]) -> (e: TransportRestError)
    ensures
        exists|w: Option<RetryDelay>|
            header_wait(status, opt_str(retry_after), w) && #[trigger] response_error(
                e,
                status,
                url@,
                utf8_lossy(body@),
                w,
            ),
{
    let text = decode_lossy(body);
    let wait = if status == 429 {
        match retry_after {
            Some(v) => parse_retry_after(v),
            None => None,
        }
    } else {
        None
    };
    let e = classify_response(status, url, text.as_str(), wait);
    assert(header_wait(status, opt_str(retry_after), wait));
    e
}

} // verus!
