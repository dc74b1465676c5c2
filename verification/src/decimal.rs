//! Order of coordinates written as decimal text.
//!
//! A [`Coordinate`] holds the text that Rust's `Display` writes for an `f64`:
//! an optional `-`, integer digits and optionally `.` and fraction digits, or
//! `inf`, `-inf`, `NaN`. Comparisons follow IEEE 754: `NaN` compares false
//! with everything, and the infinities bound every finite value.

use vstd::prelude::*;
use crate::request::Coordinate;
use crate::text::{chars_of, str_eq};

verus! {

/// Value of a digit sequence (most significant first).
pub open spec fn dval(d: Seq<u8>) -> nat
    decreases d.len(),
{
    if d.len() == 0 {
        0
    } else {
        dval(d.drop_last()) * 10 + d.last() as nat
    }
}

/// `10` to the power `n`.
pub open spec fn pow10(n: nat) -> nat
    decreases n,
{
    if n == 0 {
        1
    } else {
        10 * pow10((n - 1) as nat)
    }
}

/// Every element is a digit value.
pub open spec fn all_digits(d: Seq<u8>) -> bool {
    forall|i: int| 0 <= i < d.len() ==> #[trigger] d[i] < 10
}

/// `n` zero digits.
pub open spec fn zeros(n: nat) -> Seq<u8> {
    Seq::new(n, |i: int| 0u8)
}

/// The value a coordinate text stands for.
pub enum CoordValue {
    /// `num / 10^scale`.
    Finite(int, nat),
    /// `inf`.
    PosInf,
    /// `-inf`.
    NegInf,
    /// Anything else, `NaN` among it.
    NaN,
}

/// An ASCII decimal digit.
pub open spec fn is_digit_char(c: char) -> bool {
    48 <= c as u32 <= 57
}

/// Every character is a decimal digit.
pub open spec fn all_digit_chars(s: Seq<char>) -> bool {
    forall|i: int| 0 <= i < s.len() ==> is_digit_char(#[trigger] s[i])
}

/// Digit values of digit characters.
pub open spec fn digit_values(s: Seq<char>) -> Seq<u8> {
    s.map_values(|c: char| (c as u32 - 48) as u8)
}

/// Index of the first `.` in `t`, or its length.
pub open spec fn dot_pos(t: Seq<char>) -> nat
    decreases t.len(),
{
    if t.len() == 0 || t[0] == '.' {
        0
    } else {
        1 + dot_pos(t.drop_first())
    }
}

/// Mantissa digits and scale of `digits[.digits]`.
pub open spec fn parse_unsigned(t: Seq<char>) -> Option<(Seq<u8>, nat)> {
    let k = dot_pos(t) as int;
    let ip = t.take(k);
    if k >= t.len() {
        if ip.len() >= 1 && all_digit_chars(ip) {
            Some((digit_values(ip), 0))
        } else {
            None
        }
    } else {
        let fp = t.skip(k + 1);
        if ip.len() >= 1 && fp.len() >= 1 && all_digit_chars(ip) && all_digit_chars(fp) {
            Some((digit_values(ip + fp), fp.len()))
        } else {
            None
        }
    }
}

/// The value of a coordinate text.
pub open spec fn parse_coord(s: Seq<char>) -> CoordValue {
    if s == "inf"@ {
        CoordValue::PosInf
    } else if s == "-inf"@ {
        CoordValue::NegInf
    } else {
        let neg = s.len() > 0 && s[0] == '-';
        let t = if neg {
            s.drop_first()
        } else {
            s
        };
        match parse_unsigned(t) {
            Some((m, sc)) => CoordValue::Finite(
                if neg {
                    -(dval(m) as int)
                } else {
                    dval(m) as int
                },
                sc,
            ),
            None => CoordValue::NaN,
        }
    }
}

/// `a <= b` as IEEE 754 orders doubles.
pub open spec fn coord_le(a: CoordValue, b: CoordValue) -> bool {
    match (a, b) {
        (CoordValue::NaN, _) => false,
        (_, CoordValue::NaN) => false,
        (CoordValue::NegInf, _) => true,
        (_, CoordValue::PosInf) => true,
        (CoordValue::PosInf, _) => false,
        (_, CoordValue::NegInf) => false,
        (CoordValue::Finite(n1, s1), CoordValue::Finite(n2, s2)) => n1 * pow10(s2) <= n2 * pow10(s1),
    }
}

/// The value of an integer.
pub open spec fn int_value(n: int) -> CoordValue {
    CoordValue::Finite(n, 0)
}

/// `lo <= v <= hi` (false for `NaN`).
pub open spec fn coord_within(v: CoordValue, lo: int, hi: int) -> bool {
    coord_le(int_value(lo), v) && coord_le(v, int_value(hi))
}

pub(crate) proof fn lemma_pow10_pos(n: nat)
    ensures
        pow10(n) >= 1,
    decreases n,
{
    if n > 0 {
        lemma_pow10_pos((n - 1) as nat);
    }
}

proof fn lemma_pow10_add(a: nat, b: nat)
    ensures
        pow10(a + b) == pow10(a) * pow10(b),
    decreases b,
{
    if b == 0 {
        assert(pow10(0) == 1);
        assert(a + b == a);
        assert(pow10(a) * 1 == pow10(a));
    } else {
        lemma_pow10_add(a, (b - 1) as nat);
        assert(pow10(a + b) == 10 * pow10((a + b - 1) as nat));
        assert((a + b - 1) as nat == a + (b - 1) as nat);
        let x = pow10(a);
        let y = pow10((b - 1) as nat);
        assert(pow10(a + (b - 1) as nat) == x * y);
        assert(pow10(b) == 10 * y);
        assert(10 * (x * y) == x * (10 * y)) by (nonlinear_arith);
    }
}

pub(crate) proof fn lemma_dval_concat(x: Seq<u8>, y: Seq<u8>)
    ensures
        dval(x + y) == dval(x) * pow10(y.len()) + dval(y),
    decreases y.len(),
{
    if y.len() == 0 {
        assert(x + y =~= x);
        assert(pow10(0) == 1);
        assert(dval(y) == 0);
        assert(dval(x) * 1 == dval(x));
    } else {
        let y0 = y.drop_last();
        assert((x + y).drop_last() =~= x + y0);
        assert((x + y).last() == y.last());
        lemma_dval_concat(x, y0);
        let a = dval(x);
        let p = pow10(y0.len());
        let c = dval(y0);
        let l = y.last() as nat;
        assert(pow10(y.len()) == 10 * pow10((y.len() - 1) as nat));
        assert(pow10(y.len()) == 10 * p);
        assert(dval(y) == c * 10 + l);
        assert(dval(x + y) == dval(x + y0) * 10 + l);
        assert(dval(x + y0) == a * p + c);
        assert((a * p + c) * 10 == a * (10 * p) + c * 10) by (nonlinear_arith);
    }
}

proof fn lemma_dval_zeros(n: nat)
    ensures
        dval(zeros(n)) == 0,
    decreases n,
{
    if n > 0 {
        assert(zeros(n).drop_last() =~= zeros((n - 1) as nat));
        lemma_dval_zeros((n - 1) as nat);
    }
}

proof fn lemma_dval_bound(d: Seq<u8>)
    requires
        all_digits(d),
    ensures
        dval(d) < pow10(d.len()),
    decreases d.len(),
{
    if d.len() > 0 {
        let d0 = d.drop_last();
        assert(all_digits(d0)) by {
            assert forall|i: int| 0 <= i < d0.len() implies #[trigger] d0[i] < 10 by {
                assert(d0[i] == d[i]);
            }
        }
        lemma_dval_bound(d0);
        assert(d.last() < 10) by {
            assert(d[d.len() - 1] < 10);
        }
        let v = dval(d0);
        let p = pow10(d0.len());
        assert(v * 10 + (d.last() as nat) < 10 * p) by (nonlinear_arith)
            requires
                v < p,
                d.last() < 10,
        ;
    }
}

proof fn lemma_all_digits_sub(d: Seq<u8>, a: int, b: int)
    requires
        all_digits(d),
        0 <= a <= b <= d.len(),
    ensures
        all_digits(d.subrange(a, b)),
{
    assert forall|i: int| 0 <= i < b - a implies #[trigger] d.subrange(a, b)[i] < 10 by {
        assert(d.subrange(a, b)[i] == d[a + i]);
    }
}

/// A prefix of a digit sequence is worth no more than the whole.
pub(crate) proof fn lemma_dval_prefix_le(d: Seq<u8>, i: int)
    requires
        0 <= i <= d.len(),
    ensures
        dval(d.take(i)) <= dval(d),
{
    let x = d.take(i);
    let y = d.skip(i);
    assert(d =~= x + y);
    lemma_dval_concat(x, y);
    lemma_pow10_pos(y.len());
    let a = dval(x);
    let p = pow10(y.len());
    assert(a <= a * p) by (nonlinear_arith)
        requires
            p >= 1,
    ;
}

/// Two digit sequences of the same length compare by their first
/// difference.
proof fn lemma_dval_lex(a: Seq<u8>, b: Seq<u8>, i: int)
    requires
        all_digits(a),
        all_digits(b),
        a.len() == b.len(),
        0 <= i < a.len(),
        a.take(i) == b.take(i),
        a[i] < b[i],
    ensures
        dval(a) < dval(b),
{
    let n = a.len() as int;
    let r = (n - i - 1) as nat;
    let ah = a.take(i + 1);
    let bh = b.take(i + 1);
    let at = a.skip(i + 1);
    let bt = b.skip(i + 1);
    assert(a =~= ah + at);
    assert(b =~= bh + bt);
    lemma_dval_concat(ah, at);
    lemma_dval_concat(bh, bt);
    assert(ah.drop_last() =~= a.take(i));
    assert(bh.drop_last() =~= b.take(i));
    assert(dval(ah) + 1 <= dval(bh));
    lemma_all_digits_sub(a, i + 1, n);
    assert(at =~= a.subrange(i + 1, n));
    lemma_dval_bound(at);
    lemma_pow10_pos(r);
    let x = dval(ah);
    let y = dval(bh);
    let p = pow10(r);
    let ta = dval(at);
    let tb = dval(bt);
    assert(x * p + ta < y * p + tb) by (nonlinear_arith)
        requires
            x + 1 <= y,
            ta < p,
            p >= 1,
    ;
}

proof fn lemma_dval_zero_iff(d: Seq<u8>)
    ensures
        dval(d) == 0 <==> forall|i: int| 0 <= i < d.len() ==> #[trigger] d[i] == 0,
    decreases d.len(),
{
    if d.len() > 0 {
        let d0 = d.drop_last();
        lemma_dval_zero_iff(d0);
        if dval(d) == 0 {
            assert forall|i: int| 0 <= i < d.len() implies #[trigger] d[i] == 0 by {
                if i < d.len() - 1 {
                    assert(d[i] == d0[i]);
                }
            }
        }
        if forall|i: int| 0 <= i < d.len() ==> #[trigger] d[i] == 0 {
            assert forall|i: int| 0 <= i < d0.len() implies #[trigger] d0[i] == 0 by {
                assert(d0[i] == d[i]);
            }
            assert(d[d.len() - 1] == 0);
        }
    }
}

/// A coordinate text taken apart: sign, mantissa digits and scale, or one of
/// the non-finite values.
pub enum Parsed {
    Finite { neg: bool, mant: Vec<u8>, scale: usize },
    PosInf,
    NegInf,
    NaN,
}

impl Parsed {
    /// The mantissa holds digits, at least one of them before the point.
    pub open spec fn wf(&self) -> bool {
        match self {
            Parsed::Finite { mant, scale, .. } => all_digits(mant@) && scale < mant@.len(),
            _ => true,
        }
    }

    /// The value this stands for.
    pub open spec fn value(&self) -> CoordValue {
        match self {
            Parsed::Finite { neg, mant, scale } => CoordValue::Finite(
                if *neg {
                    -(dval(mant@) as int)
                } else {
                    dval(mant@) as int
                },
                *scale as nat,
            ),
            Parsed::PosInf => CoordValue::PosInf,
            Parsed::NegInf => CoordValue::NegInf,
            Parsed::NaN => CoordValue::NaN,
        }
    }
}

proof fn lemma_dot_pos(t: Seq<char>, k: int)
    requires
        0 <= k <= t.len(),
        forall|i: int| 0 <= i < k ==> #[trigger] t[i] != '.',
        k == t.len() || t[k] == '.',
    ensures
        dot_pos(t) == k,
    decreases k,
{
    if k > 0 {
        let d = t.drop_first();
        assert forall|i: int| 0 <= i < k - 1 implies #[trigger] d[i] != '.' by {
            assert(d[i] == t[i + 1]);
        }
        if k < t.len() {
            assert(d[k - 1] == t[k]);
        }
        assert(t[0] != '.');
        lemma_dot_pos(d, k - 1);
    }
}

/// Digit values of `v[a..b]`, checking that each is a digit character.
pub(crate) fn digits_of(v: &Vec<char>, a: usize, b: usize, out: &mut Vec<u8>) -> (ok: bool)
    requires
        a <= b <= v@.len(),
    ensures
        ok == all_digit_chars(v@.subrange(a as int, b as int)),
        ok ==> final(out)@ == old(out)@ + digit_values(v@.subrange(a as int, b as int)),
{
    let ghost o = out@;
    for i in a..b
        invariant
            a <= b <= v@.len(),
            all_digit_chars(v@.subrange(a as int, i as int)),
            out@ == o + digit_values(v@.subrange(a as int, i as int)),
    {
        let c = v[i];
        if !((c as u32) >= 48 && (c as u32) <= 57) {
            assert(v@.subrange(a as int, b as int)[i - a] == c);
            return false;
        }
        out.push(((c as u32) - 48) as u8);
        assert(v@.subrange(a as int, i + 1) =~= v@.subrange(a as int, i as int).push(c));
        assert(out@ =~= o + digit_values(v@.subrange(a as int, i + 1)));
    }
    true
}

pub(crate) proof fn lemma_digit_values(s: Seq<char>)
    requires
        all_digit_chars(s),
    ensures
        all_digits(digit_values(s)),
        digit_values(s).len() == s.len(),
{
    assert forall|i: int| 0 <= i < s.len() implies #[trigger] digit_values(s)[i] < 10 by {
        assert(is_digit_char(s[i]));
    }
}

/// Take a coordinate text apart.
pub fn parse_coordinate(c: &Coordinate) -> (r: Parsed)
    ensures
        r.wf(),
        r.value() == parse_coord(c.text@),
{
    let s = c.text.as_str();
    if str_eq(s, "inf") {
        return Parsed::PosInf;
    }
    if str_eq(s, "-inf") {
        return Parsed::NegInf;
    }
    let v = chars_of(s);
    let n = v.len();
    let neg = n > 0 && v[0] == '-';
    let start: usize = if neg {
        1
    } else {
        0
    };
    let ghost t = if neg {
        s@.drop_first()
    } else {
        s@
    };
    assert(t =~= v@.subrange(start as int, n as int));
    let mut k: usize = start;
    while k < n && v[k] != '.'
        invariant
            start <= k <= n,
            n == v@.len(),
            forall|i: int| start <= i < k ==> #[trigger] v@[i] != '.',
        decreases n - k,
    {
        k = k + 1;
    }
    proof {
        assert forall|i: int| 0 <= i < k - start implies #[trigger] t[i] != '.' by {
            assert(t[i] == v@[i + start]);
        }
        if k < n {
            assert(t[k - start] == v@[k as int]);
        }
        lemma_dot_pos(t, k - start);
    }
    let ghost ip = t.take(k - start);
    assert(ip =~= v@.subrange(start as int, k as int));
    let mut mant: Vec<u8> = Vec::new();
    if k == start {
        return Parsed::NaN;
    }
    if !digits_of(&v, start, k, &mut mant) {
        return Parsed::NaN;
    }
    if k == n {
        proof {
            lemma_digit_values(ip);
            assert(mant@ =~= digit_values(ip));
        }
        return Parsed::Finite { neg, mant, scale: 0 };
    }
    let ghost fp = t.skip(k - start + 1);
    assert(fp =~= v@.subrange(k + 1, n as int));
    if k + 1 == n {
        return Parsed::NaN;
    }
    let ghost m0 = mant@;
    if !digits_of(&v, k + 1, n, &mut mant) {
        return Parsed::NaN;
    }
    proof {
        assert(digit_values(ip + fp) =~= digit_values(ip) + digit_values(fp));
        lemma_digit_values(ip + fp);
        assert(all_digit_chars(ip + fp)) by {
            assert forall|i: int| 0 <= i < (ip + fp).len() implies is_digit_char(#[trigger] (ip + fp)[i]) by {
                if i < ip.len() {
                    assert((ip + fp)[i] == ip[i]);
                } else {
                    assert((ip + fp)[i] == fp[i - ip.len()]);
                }
            }
        }
    }
    Parsed::Finite { neg, mant, scale: n - k - 1 }
}


/// `m` with `S - s` zeros appended and zeros prepended up to length `l`.
pub open spec fn padded(m: Seq<u8>, s: nat, big_s: nat, l: nat) -> Seq<u8> {
    zeros((l - (m.len() + big_s - s)) as nat) + m + zeros((big_s - s) as nat)
}

proof fn lemma_padded_value(m: Seq<u8>, s: nat, big_s: nat, l: nat)
    requires
        s <= big_s,
        m.len() + big_s - s <= l,
    ensures
        dval(padded(m, s, big_s, l)) == dval(m) * pow10((big_s - s) as nat),
        padded(m, s, big_s, l).len() == l,
{
    let k = (l - (m.len() + big_s - s)) as nat;
    let r = (big_s - s) as nat;
    assert(padded(m, s, big_s, l) =~= zeros(k) + (m + zeros(r)));
    lemma_dval_concat(zeros(k), m + zeros(r));
    lemma_dval_concat(m, zeros(r));
    lemma_dval_zeros(k);
    lemma_dval_zeros(r);
}

proof fn lemma_padded_digits(m: Seq<u8>, s: nat, big_s: nat, l: nat)
    requires
        all_digits(m),
        s <= big_s,
        m.len() + big_s - s <= l,
    ensures
        all_digits(padded(m, s, big_s, l)),
{
    let k = (l - (m.len() + big_s - s)) as nat;
    let p = padded(m, s, big_s, l);
    assert forall|i: int| 0 <= i < p.len() implies #[trigger] p[i] < 10 by {
        if i < k {
            assert(p[i] == 0);
        } else if i < k + m.len() {
            assert(p[i] == m[i - k]);
        } else {
            assert(p[i] == 0);
        }
    }
}

/// Scaling both sides of a comparison of fractions to a common exponent.
proof fn lemma_common_scale(x: nat, y: nat, s1: nat, s2: nat, big_s: nat)
    requires
        big_s == if s1 >= s2 { s1 } else { s2 },
    ensures
        (x * pow10(s2) <= y * pow10(s1)) <==> (x * pow10((big_s - s1) as nat) <= y * pow10(
            (big_s - s2) as nat,
        )),
{
    let lo: nat = if s1 >= s2 { s2 } else { s1 };
    let a = (big_s - s1) as nat;
    let b = (big_s - s2) as nat;
    lemma_pow10_add(a, lo);
    lemma_pow10_add(b, lo);
    assert(a + lo == s2);
    assert(b + lo == s1);
    lemma_pow10_pos(lo);
    let pa = pow10(a);
    let pb = pow10(b);
    let q = pow10(lo);
    assert((x * (pa * q) <= y * (pb * q)) <==> (x * pa <= y * pb)) by (nonlinear_arith)
        requires
            q >= 1,
    ;
}

/// Digit `i` of `padded(m, s, big_s, l)`.
fn padded_digit(m: &Vec<u8>, s: usize, big_s: u128, l: u128, i: u128) -> (d: u8)
    requires
        s <= big_s,
        m@.len() + big_s - s <= l,
        i < l,
    ensures
        d == padded(m@, s as nat, big_s as nat, l as nat)[i as int],
{
    let ghost p = padded(m@, s as nat, big_s as nat, l as nat);
    let ghost k = (l - (m@.len() + big_s - s)) as nat;
    let ghost r = (big_s - s) as nat;
    assert(p =~= zeros(k) + m@ + zeros(r));
    let used: u128 = m.len() as u128 + (big_s - s as u128);
    let off: u128 = l - used;
    if i < off {
        assert(p[i as int] == zeros(k)[i as int]);
        0
    } else {
        let j: u128 = i - off;
        if j < m.len() as u128 {
            assert(p[i as int] == m@[j as int]);
            m[j as usize]
        } else {
            assert(p[i as int] == zeros(r)[(j - m@.len()) as int]);
            0
        }
    }
}

/// `dval(a) * 10^sb <= dval(b) * 10^sa`: the magnitudes `a / 10^sa` and
/// `b / 10^sb` compared.
fn mag_le(a: &Vec<u8>, sa: usize, b: &Vec<u8>, sb: usize) -> (r: bool)
    requires
        all_digits(a@),
        all_digits(b@),
    ensures
        r == (dval(a@) * pow10(sb as nat) <= dval(b@) * pow10(sa as nat)),
{
    let big_s: u128 = if sa >= sb {
        sa as u128
    } else {
        sb as u128
    };
    let la: u128 = a.len() as u128 + (big_s - sa as u128);
    let lb: u128 = b.len() as u128 + (big_s - sb as u128);
    let l: u128 = if la >= lb {
        la
    } else {
        lb
    };
    let ghost pa = padded(a@, sa as nat, big_s as nat, l as nat);
    let ghost pb = padded(b@, sb as nat, big_s as nat, l as nat);
    proof {
        lemma_padded_value(a@, sa as nat, big_s as nat, l as nat);
        lemma_padded_value(b@, sb as nat, big_s as nat, l as nat);
        lemma_padded_digits(a@, sa as nat, big_s as nat, l as nat);
        lemma_padded_digits(b@, sb as nat, big_s as nat, l as nat);
        lemma_common_scale(dval(a@), dval(b@), sa as nat, sb as nat, big_s as nat);
    }
    let ghost goal = dval(a@) * pow10(sb as nat) <= dval(b@) * pow10(sa as nat);
    assert(goal == (dval(pa) <= dval(pb)));
    let mut i: u128 = 0;
    while i < l
        invariant
            0 <= i <= l,
            pa.len() == l,
            pb.len() == l,
            pa.take(i as int) == pb.take(i as int),
            sa <= big_s,
            sb <= big_s,
            a@.len() + big_s - sa <= l,
            b@.len() + big_s - sb <= l,
            pa == padded(a@, sa as nat, big_s as nat, l as nat),
            pb == padded(b@, sb as nat, big_s as nat, l as nat),
            all_digits(pa),
            all_digits(pb),
            goal == (dval(pa) <= dval(pb)),
            goal == (dval(a@) * pow10(sb as nat) <= dval(b@) * pow10(sa as nat)),
        decreases l - i,
    {
        let da = padded_digit(a, sa, big_s, l, i);
        let db = padded_digit(b, sb, big_s, l, i);
        if da < db {
            proof {
                lemma_dval_lex(pa, pb, i as int);
            }
            return true;
        }
        if db < da {
            proof {
                lemma_dval_lex(pb, pa, i as int);
            }
            return false;
        }
        assert(pa.take(i + 1) =~= pa.take(i as int).push(da));
        assert(pb.take(i + 1) =~= pb.take(i as int).push(db));
        i = i + 1;
    }
    assert(pa =~= pa.take(l as int));
    assert(pb =~= pb.take(l as int));
    true
}

/// Every digit is zero.
fn all_zero(m: &Vec<u8>) -> (r: bool)
    ensures
        r == (dval(m@) == 0),
{
    proof {
        lemma_dval_zero_iff(m@);
    }
    for i in 0..m.len()
        invariant
            forall|j: int| 0 <= j < i ==> #[trigger] m@[j] == 0,
            (dval(m@) == 0) <==> forall|j: int| 0 <= j < m@.len() ==> #[trigger] m@[j] == 0,
    {
        if m[i] != 0 {
            return false;
        }
    }
    true
}

/// `a <= b` as IEEE 754 orders the values the two parsed texts stand for.
pub fn parsed_le(a: &Parsed, b: &Parsed) -> (r: bool)
    requires
        a.wf(),
        b.wf(),
    ensures
        r == coord_le(a.value(), b.value()),
{
    match (a, b) {
        (Parsed::NaN, _) => false,
        (_, Parsed::NaN) => false,
        (Parsed::NegInf, _) => true,
        (_, Parsed::PosInf) => true,
        (Parsed::PosInf, _) => false,
        (_, Parsed::NegInf) => false,
        (
            Parsed::Finite { neg: n1, mant: m1, scale: s1 },
            Parsed::Finite { neg: n2, mant: m2, scale: s2 },
        ) => {
            let ghost d1 = dval(m1@) as int;
            let ghost d2 = dval(m2@) as int;
            let ghost p1 = pow10(*s1 as nat) as int;
            let ghost p2 = pow10(*s2 as nat) as int;
            proof {
                lemma_pow10_pos(*s1 as nat);
                lemma_pow10_pos(*s2 as nat);
                assert(d1 * p2 >= 0 && d2 * p1 >= 0) by (nonlinear_arith)
                    requires
                        d1 >= 0,
                        d2 >= 0,
                        p1 >= 1,
                        p2 >= 1,
                ;
                assert((d1 * p2 == 0) <==> (d1 == 0)) by (nonlinear_arith)
                    requires
                        d1 >= 0,
                        p2 >= 1,
                ;
                assert((d2 * p1 == 0) <==> (d2 == 0)) by (nonlinear_arith)
                    requires
                        d2 >= 0,
                        p1 >= 1,
                ;
                assert((-d1) * p2 == -(d1 * p2)) by (nonlinear_arith);
                assert((-d2) * p1 == -(d2 * p1)) by (nonlinear_arith);
            }
            if !*n1 && !*n2 {
                mag_le(m1, *s1, m2, *s2)
            } else if *n1 && *n2 {
                mag_le(m2, *s2, m1, *s1)
            } else if *n1 {
                true
            } else {
                all_zero(m1) && all_zero(m2)
            }
        },
    }
}

/// The parsed form of the whole number `n` (negated when `neg`).
pub fn parsed_whole(neg: bool, n: u16) -> (p: Parsed)
    ensures
        p.wf(),
        p.value() == int_value(if neg { -(n as int) } else { n as int }),
{
    let d4: u8 = (n / 10000) as u8;
    let d3: u8 = ((n / 1000) % 10) as u8;
    let d2: u8 = ((n / 100) % 10) as u8;
    let d1: u8 = ((n / 10) % 10) as u8;
    let d0: u8 = (n % 10) as u8;
    let mant: Vec<u8> = vec![d4, d3, d2, d1, d0];
    proof {
        let s1 = seq![d4];
        let s2 = seq![d4, d3];
        let s3 = seq![d4, d3, d2];
        let s4 = seq![d4, d3, d2, d1];
        let m: int = n as int;
        assert(m / 1000 == (m / 10000) * 10 + (m / 1000) % 10) by (nonlinear_arith)
            requires
                0 <= m,
        ;
        assert(m / 100 == (m / 1000) * 10 + (m / 100) % 10) by (nonlinear_arith)
            requires
                0 <= m,
        ;
        assert(m / 10 == (m / 100) * 10 + (m / 10) % 10) by (nonlinear_arith)
            requires
                0 <= m,
        ;
        assert(m == (m / 10) * 10 + m % 10) by (nonlinear_arith)
            requires
                0 <= m,
        ;
        assert(m / 10000 < 10) by (nonlinear_arith)
            requires
                0 <= m < 65536,
        ;
        assert(s1.drop_last() =~= Seq::<u8>::empty());
        assert(dval(Seq::<u8>::empty()) == 0);
        assert(s1.last() == d4);
        assert(dval(s1) == m / 10000);
        assert(s2.drop_last() =~= s1);
        assert(dval(s2) == m / 1000);
        assert(s3.drop_last() =~= s2);
        assert(dval(s3) == m / 100);
        assert(s4.drop_last() =~= s3);
        assert(dval(s4) == m / 10);
        assert(mant@.drop_last() =~= s4);
        assert(dval(mant@) == n);
        assert(all_digits(mant@));
    }
    Parsed::Finite { neg, mant, scale: 0 }
}

/// `lo <= v <= hi` for the coordinate `c` and whole-degree bounds
/// `-bound..=bound`.
pub fn coordinate_within(c: &Coordinate, bound: u16) -> (r: bool)
    ensures
        r == coord_within(parse_coord(c.text@), -(bound as int), bound as int),
{
    let v = parse_coordinate(c);
    let lo = parsed_whole(true, bound);
    let hi = parsed_whole(false, bound);
    parsed_le(&lo, &v) && parsed_le(&v, &hi)
}

/// `a <= b` for two coordinates, as IEEE 754 orders the values.
pub fn coordinate_le(a: &Coordinate, b: &Coordinate) -> (r: bool)
    ensures
        r == coord_le(parse_coord(a.text@), parse_coord(b.text@)),
{
    let x = parse_coordinate(a);
    let y = parse_coordinate(b);
    parsed_le(&x, &y)
}

} // verus!
