//! Percent-encoding of query components and path segments.
//!
//! Each byte of the UTF-8 encoding either stays as it is (when the byte is
//! ASCII and outside the escape set) or is replaced by its `%XX` form as
//! produced by `percent_encoding::percent_encode_byte`.

use vstd::prelude::*;
use vstd::utf8::encode_utf8;
use crate::text::push_char;
use crate::text::push_str;

verus! {

/// Upper-case hexadecimal digit of a value below 16.
pub open spec fn hex_digit(n: int) -> char {
    if n < 10 {
        (48 + n) as char
    } else {
        (55 + n) as char
    }
}

/// `%XX` with upper-case hex digits.
pub open spec fn pct_triplet(b: u8) -> Seq<char> {
    seq!['%', hex_digit(b as int / 16), hex_digit(b as int % 16)]
}

/// ASCII letter or digit.
pub open spec fn is_ascii_alnum(b: u8) -> bool {
    (0x30 <= b <= 0x39) || (0x41 <= b <= 0x5a) || (0x61 <= b <= 0x7a)
}

/// Bytes a query component keeps as they are: everything outside
/// `NON_ALPHANUMERIC` minus `*`, `-`, `.` and `_` (RFC 3986 unreserved
/// characters except `~`).
pub open spec fn query_keeps(b: u8) -> bool {
    is_ascii_alnum(b) || b == 0x2a || b == 0x2d || b == 0x2e || b == 0x5f
}

/// Bytes a path segment keeps as they are: ASCII bytes outside
/// `CONTROLS` and outside `` "#<>`?{}%/`` and space.
pub open spec fn path_keeps(b: u8) -> bool {
    &&& 0x20 < b < 0x7f
    &&& b != 0x22 && b != 0x23 && b != 0x3c && b != 0x3e && b != 0x60
    &&& b != 0x3f && b != 0x7b && b != 0x7d && b != 0x25 && b != 0x2f
}

/// What one byte becomes.
pub open spec fn pct_piece(b: u8, keep: spec_fn(u8) -> bool) -> Seq<char> {
    if keep(b) {
        seq![b as char]
    } else {
        pct_triplet(b)
    }
}

/// Percent-encoding of a byte sequence, byte by byte.
pub open spec fn pct_encode(bytes: Seq<u8>, keep: spec_fn(u8) -> bool) -> Seq<char>
    decreases bytes.len(),
{
    if bytes.len() == 0 {
        seq![]
    } else {
        pct_encode(bytes.drop_last(), keep) + pct_piece(bytes.last(), keep)
    }
}

/// [`query_keeps`] as a value.
pub open spec fn query_keep_fn() -> spec_fn(u8) -> bool {
    |b: u8| query_keeps(b)
}

/// [`path_keeps`] as a value.
pub open spec fn path_keep_fn() -> spec_fn(u8) -> bool {
    |b: u8| path_keeps(b)
}

/// Encoded form of a query key or value.
pub open spec fn encode_component_spec(s: Seq<char>) -> Seq<char> {
    pct_encode(encode_utf8(s), query_keep_fn())
}

/// Encoded form of one path segment.
pub open spec fn encode_path_segment_spec(s: Seq<char>) -> Seq<char> {
    pct_encode(encode_utf8(s), path_keep_fn())
}

/// `percent_encoding::percent_encode_byte`: the `%XX` form of a byte with
/// upper-case hexadecimal digits (the crate reads it from a fixed table).
#[verifier::external_body]
fn percent_encode_byte(b: u8) -> (r: &'static str)
    ensures
        r@ == pct_triplet(b),
{
    percent_encoding::percent_encode_byte(b)
}

fn exec_query_keeps(b: u8) -> (r: bool)
    ensures
        r == query_keeps(b),
{
    (0x30 <= b && b <= 0x39) || (0x41 <= b && b <= 0x5a) || (0x61 <= b && b <= 0x7a) || b == 0x2a
        || b == 0x2d || b == 0x2e || b == 0x5f
}

fn exec_path_keeps(b: u8) -> (r: bool)
    ensures
        r == path_keeps(b),
{
    0x20 < b && b < 0x7f && b != 0x22 && b != 0x23 && b != 0x3c && b != 0x3e && b != 0x60 && b
        != 0x3f && b != 0x7b && b != 0x7d && b != 0x25 && b != 0x2f
}

/// Percent-encode one query component (RFC 3986, spaces as `%20`).
pub fn encode_component(s: &str) -> (r: String)
    ensures
        r@ == encode_component_spec(s@),
{
    let bytes = s.as_bytes();
    let mut out = String::new();
    for i in 0..bytes.len()
        invariant
            bytes@ == encode_utf8(s@),
            out@ == pct_encode(bytes@.take(i as int), query_keep_fn()),
    {
        let b = bytes[i];
        assert(bytes@.take(i + 1).drop_last() == bytes@.take(i as int));
        if exec_query_keeps(b) {
            push_char(&mut out, b as char);
        } else {
            push_str(&mut out, percent_encode_byte(b));
        }
    }
    assert(bytes@.take(bytes@.len() as int) == bytes@);
    out
}

/// Percent-encode a value so it can be used as a single path segment
/// (trip IDs and refresh tokens contain `/`, `#` and the like).
pub fn encode_path_segment(s: &str) -> (r: String)
    ensures
        r@ == encode_path_segment_spec(s@),
{
    let bytes = s.as_bytes();
    let mut out = String::new();
    for i in 0..bytes.len()
        invariant
            bytes@ == encode_utf8(s@),
            out@ == pct_encode(bytes@.take(i as int), path_keep_fn()),
    {
        let b = bytes[i];
        assert(bytes@.take(i + 1).drop_last() == bytes@.take(i as int));
        if exec_path_keeps(b) {
            push_char(&mut out, b as char);
        } else {
            push_str(&mut out, percent_encode_byte(b));
        }
    }
    assert(bytes@.take(bytes@.len() as int) == bytes@);
    out
}


/// An upper-case hexadecimal digit.
pub open spec fn is_upper_hex(c: char) -> bool {
    (48 <= c as u32 <= 57) || (65 <= c as u32 <= 70)
}

/// A character an encoding with `keep` can produce: a kept byte, `%`, or a
/// hexadecimal digit of a `%XX` triplet.
pub open spec fn encoded_char(c: char, keep: spec_fn(u8) -> bool) -> bool {
    ||| (c as u32) < 256 && keep((c as u32) as u8)
    ||| c == '%'
    ||| is_upper_hex(c)
}

proof fn lemma_pct_encode_chars(bytes: Seq<u8>, keep: spec_fn(u8) -> bool)
    ensures
        forall|i: int| 0 <= i < pct_encode(bytes, keep).len() ==> encoded_char(
            #[trigger] pct_encode(bytes, keep)[i],
            keep,
        ),
    decreases bytes.len(),
{
    if bytes.len() > 0 {
        let a = pct_encode(bytes.drop_last(), keep);
        let b = bytes.last();
        let p = pct_piece(b, keep);
        lemma_pct_encode_chars(bytes.drop_last(), keep);
        assert forall|i: int| 0 <= i < p.len() implies encoded_char(#[trigger] p[i], keep) by {
            if keep(b) {
                assert(p[i] == b as char);
                assert((b as char) as u32 == b as u32);
            } else {
                let hi = b as int / 16;
                let lo = b as int % 16;
                assert(0 <= hi < 16 && 0 <= lo < 16);
                assert(p == seq!['%', hex_digit(hi), hex_digit(lo)]);
            }
        }
        assert forall|i: int| 0 <= i < (a + p).len() implies encoded_char(#[trigger] (a + p)[i], keep) by {
            if i < a.len() {
                assert((a + p)[i] == a[i]);
            } else {
                assert((a + p)[i] == p[i - a.len()]);
            }
        }
    }
}

/// A query component encodes to ASCII letters, digits, `*`, `-`, `.`,
/// `_` and `%XX` triplets only: no `&`, `=`, space or other character that
/// would end or split the component.
pub proof fn law_component_is_unreserved(s: Seq<char>)
    ensures
        forall|i: int| 0 <= i < encode_component_spec(s).len() ==> {
            let c = #[trigger] encode_component_spec(s)[i];
            ||| (c as u32) < 256 && query_keeps((c as u32) as u8)
            ||| c == '%'
            ||| is_upper_hex(c)
        },
{
    lemma_pct_encode_chars(encode_utf8(s), query_keep_fn());
}

/// An encoded path segment holds no `/`, `#` or `?`: it stays one segment
/// of the path, whatever the text (trip ids and refresh tokens contain
/// slashes).
pub proof fn law_path_segment_has_no_delimiters(s: Seq<char>)
    ensures
        forall|i: int| 0 <= i < encode_path_segment_spec(s).len() ==> {
            let c = #[trigger] encode_path_segment_spec(s)[i];
            c != '/' && c != '#' && c != '?'
        },
{
    lemma_pct_encode_chars(encode_utf8(s), path_keep_fn());
    assert forall|i: int| 0 <= i < encode_path_segment_spec(s).len() implies {
        let c = #[trigger] encode_path_segment_spec(s)[i];
        c != '/' && c != '#' && c != '?'
    } by {
        let c = encode_path_segment_spec(s)[i];
        assert(encoded_char(c, path_keep_fn()));
        if (c as u32) < 256 && path_keeps((c as u32) as u8) {
            assert(((c as u32) as u8) as u32 == c as u32);
        }
    }
}

} // verus!
