//! JSON values as plain data, and the merge of split schema files.

use vstd::prelude::*;
use crate::text::{lemma_text_le_total, lemma_text_lt_transitive, str_eq, str_less, text_lt};

verus! {

/// A JSON value. Numbers are held as their text; an object is a list of
/// members, which parsing and merging keep in strictly ascending key order
/// (see [`ascending_keys`]), as a sorted map holds them.
#[derive(Debug)]
pub enum JsonValue {
    /// `null`.
    Null,
    /// `true` / `false`.
    Bool(bool),
    /// A number, as written.
    Number(String),
    /// A string.
    Str(String),
    /// An array.
    Array(Vec<JsonValue>),
    /// An object.
    Object(Vec<(String, JsonValue)>),
}

/// A JSON value as plain values.
pub enum JsonView {
    Null,
    Bool(bool),
    Number(Seq<char>),
    Str(Seq<char>),
    Array(Seq<JsonView>),
    Object(Seq<(Seq<char>, JsonView)>),
}

/// The plain value of a JSON value.
pub open spec fn jview(v: JsonValue) -> JsonView
    decreases v, 0nat,
{
    match v {
        JsonValue::Null => JsonView::Null,
        JsonValue::Bool(b) => JsonView::Bool(b),
        JsonValue::Number(n) => JsonView::Number(n@),
        JsonValue::Str(s) => JsonView::Str(s@),
        JsonValue::Array(a) => JsonView::Array(jview_seq(a@)),
        JsonValue::Object(m) => JsonView::Object(jview_members(m@)),
    }
}

/// The plain values of a list of JSON values.
pub open spec fn jview_seq(s: Seq<JsonValue>) -> Seq<JsonView>
    decreases s, s.len(),
{
    if s.len() == 0 {
        seq![]
    } else {
        jview_seq(s.drop_last()).push(jview(s.last()))
    }
}

/// The plain values of a list of object members.
pub open spec fn jview_members(s: Seq<(String, JsonValue)>) -> Seq<(Seq<char>, JsonView)>
    decreases s, s.len(),
{
    if s.len() == 0 {
        seq![]
    } else {
        jview_members(s.drop_last()).push((s.last().0@, jview(s.last().1)))
    }
}

impl View for JsonValue {
    type V = JsonView;

    open spec fn view(&self) -> JsonView {
        jview(*self)
    }
}


proof fn lemma_jview_seq_step(s: Seq<JsonValue>, i: int)
    requires
        0 <= i < s.len(),
    ensures
        jview_seq(s.take(i + 1)) == jview_seq(s.take(i)).push(jview(s[i])),
{
    assert(s.take(i + 1).drop_last() =~= s.take(i));
}

proof fn lemma_jview_members_step(s: Seq<(String, JsonValue)>, i: int)
    requires
        0 <= i < s.len(),
    ensures
        jview_members(s.take(i + 1)) == jview_members(s.take(i)).push((s[i].0@, jview(s[i].1))),
{
    assert(s.take(i + 1).drop_last() =~= s.take(i));
}

impl Clone for JsonValue {
    fn clone(&self) -> (r: Self)
        ensures
            r@ == self@,
        decreases self,
    {
        match self {
            JsonValue::Null => JsonValue::Null,
            JsonValue::Bool(b) => JsonValue::Bool(*b),
            JsonValue::Number(n) => JsonValue::Number(n.clone()),
            JsonValue::Str(t) => JsonValue::Str(t.clone()),
            JsonValue::Array(a) => {
                let mut out: Vec<JsonValue> = Vec::new();
                for i in 0..a.len()
                    invariant
                        jview_seq(out@) == jview_seq(a@.take(i as int)),
                        *self == JsonValue::Array(*a),
                {
                    proof {
                        vstd::std_specs::vec::axiom_vec_index_decreases(*a, i as int);
                        assert(decreases_to!(*self => (*self)->Array_0));
                        assert(decreases_to!(*self => a[i as int]));
                    }
                    proof {
                        lemma_jview_seq_step(a@, i as int);
                        assert(out@.push(a@[i as int]).drop_last() =~= out@);
                    }
                    let c = a[i].clone();
                    let ghost before = out@;
                    out.push(c);
                    assert(out@.drop_last() =~= before);
                }
                assert(a@.take(a@.len() as int) =~= a@);
                JsonValue::Array(out)
            },
            JsonValue::Object(m) => {
                let mut out: Vec<(String, JsonValue)> = Vec::new();
                for i in 0..m.len()
                    invariant
                        jview_members(out@) == jview_members(m@.take(i as int)),
                        *self == JsonValue::Object(*m),
                {
                    proof {
                        vstd::std_specs::vec::axiom_vec_index_decreases(*m, i as int);
                        assert(decreases_to!(*self => (*self)->Object_0));
                        assert(decreases_to!(m[i as int] => m[i as int].1));
                        assert(decreases_to!(*self => m[i as int].1));
                    }
                    proof {
                        lemma_jview_members_step(m@, i as int);
                    }
                    let (k, v) = &m[i];
                    let c = (k.clone(), v.clone());
                    let ghost before = out@;
                    out.push(c);
                    assert(out@.drop_last() =~= before);
                }
                assert(m@.take(m@.len() as int) =~= m@);
                JsonValue::Object(out)
            },
        }
    }
}


/// Index of the first member of `m` with key `k`, or `-1`.
pub open spec fn find_key(m: Seq<(Seq<char>, JsonView)>, k: Seq<char>) -> int
    decreases m.len(),
{
    if m.len() == 0 {
        -1
    } else if m[0].0 == k {
        0
    } else {
        let r = find_key(m.drop_first(), k);
        if r < 0 {
            -1
        } else {
            r + 1
        }
    }
}

/// Where a member with key `k` goes among the members `m`: after the
/// leading members whose keys come before `k` (for members in ascending key
/// order, its place in that order).
pub open spec fn insert_pos(m: Seq<(Seq<char>, JsonView)>, k: Seq<char>) -> int
    decreases m.len(),
{
    if m.len() == 0 {
        0
    } else if text_lt(m[0].0, k) {
        1 + insert_pos(m.drop_first(), k)
    } else {
        0
    }
}

/// The members of object `tm` after merging the members `new` into it, in
/// order: a member whose key is new is added at its place in key order (see
/// [`insert_pos`]), as a sorted map adds it; where both sides
/// hold objects under a key they are merged in turn; where the existing
/// value is an object and the new one is not, the existing one stays;
/// otherwise the new value replaces the old one in place.
pub open spec fn merge_members(tm: Seq<(Seq<char>, JsonView)>, new: Seq<(Seq<char>, JsonView)>) -> Seq<(Seq<char>, JsonView)>
    decreases new,
{
    if new.len() == 0 {
        tm
    } else {
        let acc = merge_members(tm, new.drop_last());
        let k = new.last().0;
        let v = new.last().1;
        let i = find_key(acc, k);
        if 0 <= i < acc.len() {
            match acc[i].1 {
                JsonView::Object(e) => match v {
                    JsonView::Object(inner) => acc.update(
                        i,
                        (k, JsonView::Object(merge_members(e, inner))),
                    ),
                    _ => acc,
                },
                _ => acc.update(i, (k, v)),
            }
        } else {
            acc.insert(insert_pos(acc, k), (k, v))
        }
    }
}

/// `target` with the members `new` merged in when it is an object;
/// anything else stays as it is.
pub open spec fn merge_view(target: JsonView, new: Seq<(Seq<char>, JsonView)>) -> JsonView {
    match target {
        JsonView::Object(tm) => JsonView::Object(merge_members(tm, new)),
        _ => target,
    }
}

proof fn lemma_jview_members_index(s: Seq<(String, JsonValue)>)
    ensures
        jview_members(s).len() == s.len(),
        forall|i: int| 0 <= i < s.len() ==> #[trigger] jview_members(s)[i] == (s[i].0@, jview(s[i].1)),
    decreases s.len(),
{
    if s.len() > 0 {
        lemma_jview_members_index(s.drop_last());
        assert forall|i: int| 0 <= i < s.len() implies #[trigger] jview_members(s)[i] == (s[i].0@, jview(s[i].1)) by {
            if i < s.len() - 1 {
                assert(s.drop_last()[i] == s[i]);
            }
        }
    }
}

proof fn lemma_jview_members_update(s: Seq<(String, JsonValue)>, i: int, p: (String, JsonValue))
    requires
        0 <= i < s.len(),
    ensures
        jview_members(s.update(i, p)) == jview_members(s).update(i, (p.0@, jview(p.1))),
{
    lemma_jview_members_index(s);
    lemma_jview_members_index(s.update(i, p));
    assert(jview_members(s.update(i, p)) =~= jview_members(s).update(i, (p.0@, jview(p.1))));
}

proof fn lemma_jview_members_insert(s: Seq<(String, JsonValue)>, i: int, p: (String, JsonValue))
    requires
        0 <= i <= s.len(),
    ensures
        jview_members(s.insert(i, p)) == jview_members(s).insert(i, (p.0@, jview(p.1))),
{
    lemma_jview_members_index(s);
    lemma_jview_members_index(s.insert(i, p));
    assert(jview_members(s.insert(i, p)) =~= jview_members(s).insert(i, (p.0@, jview(p.1))));
}

proof fn lemma_insert_pos(m: Seq<(Seq<char>, JsonView)>, k: Seq<char>)
    ensures
        0 <= insert_pos(m, k) <= m.len(),
        forall|a: int| 0 <= a < insert_pos(m, k) ==> text_lt(#[trigger] m[a].0, k),
        insert_pos(m, k) < m.len() ==> !text_lt(m[insert_pos(m, k)].0, k),
    decreases m.len(),
{
    if m.len() > 0 && text_lt(m[0].0, k) {
        let d = m.drop_first();
        lemma_insert_pos(d, k);
        assert forall|a: int| 0 <= a < insert_pos(m, k) implies text_lt(#[trigger] m[a].0, k) by {
            if a > 0 {
                assert(m[a] == d[a - 1]);
            }
        }
        if insert_pos(m, k) < m.len() {
            assert(m[insert_pos(m, k)] == d[insert_pos(d, k)]);
        }
    }
}

/// Where a member with key `k` goes among `m` (see [`insert_pos`]).
fn member_pos(m: &Vec<(String, JsonValue)>, k: &String) -> (r: usize)
    ensures
        r == insert_pos(jview_members(m@), k@),
{
    proof {
        lemma_jview_members_index(m@);
    }
    let ghost mv = jview_members(m@);
    let mut i: usize = 0;
    assert(mv.skip(0) =~= mv);
    while i < m.len() && str_less(m[i].0.as_str(), k.as_str())
        invariant
            i <= m.len(),
            mv == jview_members(m@),
            mv.len() == m@.len(),
            forall|j: int| 0 <= j < m@.len() ==> #[trigger] mv[j] == (m@[j].0@, jview(m@[j].1)),
            insert_pos(mv, k@) == i + insert_pos(mv.skip(i as int), k@),
        decreases m.len() - i,
    {
        assert(mv.skip(i as int).drop_first() =~= mv.skip(i + 1));
        assert(mv.skip(i as int)[0] == mv[i as int]);
        i = i + 1;
    }
    proof {
        if i < m.len() {
            assert(mv.skip(i as int)[0] == mv[i as int]);
        } else {
            assert(mv.skip(i as int).len() == 0);
        }
    }
    i
}

proof fn lemma_find_key_at(m: Seq<(Seq<char>, JsonView)>, k: Seq<char>, i: int)
    requires
        0 <= i < m.len(),
        m[i].0 == k,
        forall|j: int| 0 <= j < i ==> #[trigger] m[j].0 != k,
    ensures
        find_key(m, k) == i,
    decreases i,
{
    if i > 0 {
        let d = m.drop_first();
        assert forall|j: int| 0 <= j < i - 1 implies #[trigger] d[j].0 != k by {
            assert(d[j] == m[j + 1]);
        }
        assert(m[0].0 != k);
        lemma_find_key_at(d, k, i - 1);
    }
}

proof fn lemma_find_key_none(m: Seq<(Seq<char>, JsonView)>, k: Seq<char>)
    requires
        forall|j: int| 0 <= j < m.len() ==> #[trigger] m[j].0 != k,
    ensures
        find_key(m, k) == -1,
    decreases m.len(),
{
    if m.len() > 0 {
        let d = m.drop_first();
        assert forall|j: int| 0 <= j < d.len() implies #[trigger] d[j].0 != k by {
            assert(d[j] == m[j + 1]);
        }
        assert(m[0].0 != k);
        lemma_find_key_none(d, k);
    }
}

/// Index of the first member with key `k`.
fn find_member(m: &Vec<(String, JsonValue)>, k: &str) -> (r: Option<usize>)
    ensures
        match r {
            Some(i) => find_key(jview_members(m@), k@) == i as int && i < m@.len(),
            None => find_key(jview_members(m@), k@) == -1,
        },
{
    proof {
        lemma_jview_members_index(m@);
    }
    for i in 0..m.len()
        invariant
            jview_members(m@).len() == m@.len(),
            forall|i: int| 0 <= i < m@.len() ==> #[trigger] jview_members(m@)[i] == (m@[i].0@, jview(m@[i].1)),
            forall|j: int| 0 <= j < i ==> #[trigger] jview_members(m@)[j].0 != k@,
    {
        if str_eq(m[i].0.as_str(), k) {
            proof {
                lemma_find_key_at(jview_members(m@), k@, i as int);
            }
            return Some(i);
        }
    }
    proof {
        lemma_find_key_none(jview_members(m@), k@);
    }
    None
}

/// The string under key `k` of the value `v`, as `serde_json`'s
/// `Value::get(k)` followed by `Value::as_str` reads it: present only when
/// `v` is an object whose member `k` is a string.
pub open spec fn member_str_spec(v: JsonView, k: Seq<char>) -> Option<Seq<char>> {
    match v {
        JsonView::Object(m) => {
            let i = find_key(m, k);
            if 0 <= i < m.len() {
                match m[i].1 {
                    JsonView::Str(t) => Some(t),
                    _ => None,
                }
            } else {
                None
            }
        },
        _ => None,
    }
}

/// The string under key `k` of `v` (see [`member_str_spec`]).
pub fn member_str(v: &JsonValue, k: &str) -> (r: Option<String>)
    ensures
        match r {
            Some(t) => member_str_spec(v@, k@) == Some(t@),
            None => member_str_spec(v@, k@) is None,
        },
{
    match v {
        JsonValue::Object(m) => {
            proof {
                lemma_jview_members_index(m@);
            }
            match find_member(m, k) {
                Some(i) => match &m[i].1 {
                    JsonValue::Str(t) => Some(t.clone()),
                    _ => None,
                },
                None => None,
            }
        },
        _ => None,
    }
}

/// Merge the members `new` into the object members `tm` (see
/// [`merge_members`]).
fn merge_into(tm: &mut Vec<(String, JsonValue)>, new: &Vec<(String, JsonValue)>)
    ensures
        jview_members(final(tm)@) == merge_members(jview_members(old(tm)@), jview_members(new@)),
    decreases new,
{
    let ghost start = jview_members(tm@);
    for j in 0..new.len()
        invariant
            jview_members(tm@) == merge_members(start, jview_members(new@.take(j as int))),
    {
        proof {
            lemma_jview_members_step(new@, j as int);
            vstd::std_specs::vec::axiom_vec_index_decreases(*new, j as int);
            assert(jview_members(new@.take(j + 1)).drop_last() =~= jview_members(new@.take(j as int)));
        }
        let (k, v) = &new[j];
        let ghost acc = jview_members(tm@);
        let ghost nv = jview_members(new@.take(j + 1));
        assert(nv.last() == (k@, jview(*v)));
        match find_member(tm, k.as_str()) {
            Some(i) => {
                proof {
                    lemma_jview_members_index(tm@);
                }
                let existing = tm[i].1.clone();
                match existing {
                    JsonValue::Object(mut e) => {
                        match v {
                            JsonValue::Object(inner) => {
                                proof {
                                    assert(decreases_to!(*new => new[j as int]));
                                    assert(decreases_to!(new[j as int] => new[j as int].1));
                                    assert(decreases_to!(new[j as int].1 => (new[j as int].1)->Object_0));
                                }
                                merge_into(&mut e, inner);
                                let ghost before = tm@;
                                tm.set(i, (k.clone(), JsonValue::Object(e)));
                                proof {
                                    lemma_jview_members_update(before, i as int, tm@[i as int]);
                                    assert(tm@ =~= before.update(i as int, tm@[i as int]));
                                }
                            },
                            _ => {},
                        }
                    },
                    _ => {
                        let ghost before = tm@;
                        tm.set(i, (k.clone(), v.clone()));
                        proof {
                            lemma_jview_members_update(before, i as int, tm@[i as int]);
                            assert(tm@ =~= before.update(i as int, tm@[i as int]));
                        }
                    },
                }
            },
            None => {
                let pos = member_pos(tm, k);
                proof {
                    lemma_insert_pos(jview_members(tm@), k@);
                    lemma_jview_members_index(tm@);
                }
                let ghost before = tm@;
                tm.insert(pos, (k.clone(), v.clone()));
                proof {
                    lemma_jview_members_insert(before, pos as int, tm@[pos as int]);
                    assert(tm@ =~= before.insert(pos as int, tm@[pos as int]));
                }
            },
        }
    }
    assert(new@.take(new@.len() as int) =~= new@);
}

/// Merge the members `new` into `target` when it is an object (see
/// [`merge_view`]); anything else is left as it is.
pub fn merge_objects(target: &mut JsonValue, new: &Vec<(String, JsonValue)>)
    ensures
        final(target)@ == merge_view(old(target)@, jview_members(new@)),
{
    match target {
        JsonValue::Object(t) => {
            merge_into(t, new);
        },
        _ => {},
    }
}


pub proof fn lemma_jview_seq_index(s: Seq<JsonValue>)
    ensures
        jview_seq(s).len() == s.len(),
        forall|i: int| 0 <= i < s.len() ==> #[trigger] jview_seq(s)[i] == jview(s[i]),
    decreases s.len(),
{
    if s.len() > 0 {
        lemma_jview_seq_index(s.drop_last());
        assert forall|i: int| 0 <= i < s.len() implies #[trigger] jview_seq(s)[i] == jview(s[i]) by {
            if i < s.len() - 1 {
                assert(s.drop_last()[i] == s[i]);
            }
        }
    }
}

/// The members as plain values, element by element.
pub proof fn lemma_members_view(s: Seq<(String, JsonValue)>)
    ensures
        jview_members(s).len() == s.len(),
        forall|i: int| 0 <= i < s.len() ==> #[trigger] jview_members(s)[i] == (s[i].0@, jview(s[i].1)),
{
    lemma_jview_members_index(s);
}


/// Keys of a schema file that name the document rather than hold entries:
/// a later file replaces them outright.
pub open spec fn is_scalar_key(k: Seq<char>) -> bool {
    k == "$schema-version"@ || k == "name"@ || k == "title"@ || k == "description"@
}

/// The top-level members after merging one more schema file into them:
/// scalar keys are replaced (or added); otherwise as [`merge_members`].
pub open spec fn merge_file_members(tm: Seq<(Seq<char>, JsonView)>, file: Seq<(Seq<char>, JsonView)>) -> Seq<(Seq<char>, JsonView)>
    decreases file.len(),
{
    if file.len() == 0 {
        tm
    } else {
        let acc = merge_file_members(tm, file.drop_last());
        let k = file.last().0;
        let v = file.last().1;
        let i = find_key(acc, k);
        if 0 <= i < acc.len() {
            if is_scalar_key(k) {
                acc.update(i, (k, v))
            } else {
                match acc[i].1 {
                    JsonView::Object(e) => match v {
                        JsonView::Object(inner) => acc.update(
                            i,
                            (k, JsonView::Object(merge_members(e, inner))),
                        ),
                        _ => acc,
                    },
                    _ => acc.update(i, (k, v)),
                }
            }
        } else {
            acc.insert(insert_pos(acc, k), (k, v))
        }
    }
}

fn is_scalar_key_exec(k: &String) -> (r: bool)
    ensures
        r == is_scalar_key(k@),
{
    str_eq(k.as_str(), "$schema-version") || str_eq(k.as_str(), "name") || str_eq(k.as_str(), "title")
        || str_eq(k.as_str(), "description")
}

/// Merge the top-level members of one more schema file into the members
/// gathered so far (see [`merge_file_members`]).
pub fn merge_file(merged: &mut Vec<(String, JsonValue)>, file: &Vec<(String, JsonValue)>)
    ensures
        jview_members(final(merged)@) == merge_file_members(jview_members(old(merged)@), jview_members(file@)),
{
    let ghost start = jview_members(merged@);
    for j in 0..file.len()
        invariant
            jview_members(merged@) == merge_file_members(start, jview_members(file@.take(j as int))),
    {
        proof {
            lemma_jview_members_step(file@, j as int);
            assert(jview_members(file@.take(j + 1)).drop_last() =~= jview_members(file@.take(j as int)));
        }
        let (k, v) = &file[j];
        let ghost nv = jview_members(file@.take(j + 1));
        assert(nv.last() == (k@, jview(*v)));
        match find_member(merged, k.as_str()) {
            Some(i) => {
                proof {
                    lemma_jview_members_index(merged@);
                }
                if is_scalar_key_exec(k) {
                    let ghost before = merged@;
                    merged.set(i, (k.clone(), v.clone()));
                    proof {
                        lemma_jview_members_update(before, i as int, merged@[i as int]);
                        assert(merged@ =~= before.update(i as int, merged@[i as int]));
                    }
                } else {
                    let existing = merged[i].1.clone();
                    match existing {
                        JsonValue::Object(mut e) => {
                            match v {
                                JsonValue::Object(inner) => {
                                    merge_into(&mut e, inner);
                                    let ghost before = merged@;
                                    merged.set(i, (k.clone(), JsonValue::Object(e)));
                                    proof {
                                        lemma_jview_members_update(before, i as int, merged@[i as int]);
                                        assert(merged@ =~= before.update(i as int, merged@[i as int]));
                                    }
                                },
                                _ => {},
                            }
                        },
                        _ => {
                            let ghost before = merged@;
                            merged.set(i, (k.clone(), v.clone()));
                            proof {
                                lemma_jview_members_update(before, i as int, merged@[i as int]);
                                assert(merged@ =~= before.update(i as int, merged@[i as int]));
                            }
                        },
                    }
                }
            },
            None => {
                let pos = member_pos(merged, k);
                proof {
                    lemma_insert_pos(jview_members(merged@), k@);
                    lemma_jview_members_index(merged@);
                }
                let ghost before = merged@;
                merged.insert(pos, (k.clone(), v.clone()));
                proof {
                    lemma_jview_members_insert(before, pos as int, merged@[pos as int]);
                    assert(merged@ =~= before.insert(pos as int, merged@[pos as int]));
                }
            },
        }
    }
    assert(file@.take(file@.len() as int) =~= file@);
}

/// `k` is a key of the members `m`.
pub open spec fn has_key(m: Seq<(Seq<char>, JsonView)>, k: Seq<char>) -> bool {
    exists|i: int| 0 <= i < m.len() && #[trigger] m[i].0 == k
}

proof fn lemma_find_key(m: Seq<(Seq<char>, JsonView)>, k: Seq<char>)
    ensures
        -1 <= find_key(m, k) < m.len(),
        find_key(m, k) >= 0 ==> m[find_key(m, k)].0 == k,
        find_key(m, k) >= 0 ==> forall|j: int| 0 <= j < find_key(m, k) ==> #[trigger] m[j].0 != k,
        find_key(m, k) < 0 ==> !has_key(m, k),
    decreases m.len(),
{
    if m.len() > 0 && m[0].0 != k {
        let d = m.drop_first();
        lemma_find_key(d, k);
        if find_key(d, k) < 0 {
            assert forall|i: int| 0 <= i < m.len() implies #[trigger] m[i].0 != k by {
                if i > 0 {
                    assert(m[i] == d[i - 1]);
                }
            }
        } else {
            assert(m[find_key(d, k) + 1] == d[find_key(d, k)]);
            assert forall|j: int| 0 <= j < find_key(m, k) implies #[trigger] m[j].0 != k by {
                if j > 0 {
                    assert(m[j] == d[j - 1]);
                }
            }
        }
    }
}

/// Where a key is found depends on the keys alone.
proof fn lemma_find_key_same_keys(m1: Seq<(Seq<char>, JsonView)>, m2: Seq<(Seq<char>, JsonView)>, k: Seq<char>)
    requires
        m1.len() == m2.len(),
        forall|i: int| 0 <= i < m1.len() ==> #[trigger] m1[i].0 == m2[i].0,
    ensures
        find_key(m1, k) == find_key(m2, k),
{
    lemma_find_key(m1, k);
    lemma_find_key(m2, k);
    let i = find_key(m1, k);
    if i >= 0 {
        assert(m2[i].0 == k);
        assert forall|j: int| 0 <= j < i implies #[trigger] m2[j].0 != k by {
            assert(m1[j].0 == m2[j].0);
        }
        lemma_find_key_at(m2, k, i);
    } else {
        assert forall|j: int| 0 <= j < m2.len() implies #[trigger] m2[j].0 != k by {
            assert(m1[j].0 == m2[j].0);
            if m1[j].0 == k {
                assert(has_key(m1, k));
            }
        }
        lemma_find_key_none(m2, k);
    }
}

/// Adding a member with another key moves a key that is there by one
/// place when it is added before it.
proof fn lemma_find_key_insert(m: Seq<(Seq<char>, JsonView)>, pos: int, x: (Seq<char>, JsonView), k: Seq<char>)
    requires
        find_key(m, k) >= 0,
        0 <= pos <= m.len(),
        x.0 != k,
    ensures
        find_key(m.insert(pos, x), k) == if find_key(m, k) < pos {
            find_key(m, k)
        } else {
            find_key(m, k) + 1
        },
        m.insert(pos, x)[find_key(m.insert(pos, x), k)] == m[find_key(m, k)],
{
    lemma_find_key(m, k);
    let i = find_key(m, k);
    let p = m.insert(pos, x);
    let ni = if i < pos { i } else { i + 1 };
    assert(p[ni] == m[i]);
    assert forall|j: int| 0 <= j < ni implies #[trigger] p[j].0 != k by {
        if j < pos {
            assert(p[j] == m[j]);
        } else if j > pos {
            assert(p[j] == m[j - 1]);
        }
    }
    lemma_find_key_at(p, k, ni);
}

/// A member with a key not among `m`, added at its place: where it stands
/// and what it sees.
proof fn lemma_insert_absent(m: Seq<(Seq<char>, JsonView)>, k: Seq<char>, v: JsonView)
    requires
        find_key(m, k) < 0,
    ensures
        find_key(m.insert(insert_pos(m, k), (k, v)), k) == insert_pos(m, k),
        forall|a: int| 0 <= a < m.len() ==> #[trigger] m[a].0 != k,
{
    lemma_find_key(m, k);
    lemma_insert_pos(m, k);
    let pos = insert_pos(m, k);
    let r = m.insert(pos, (k, v));
    assert forall|a: int| 0 <= a < m.len() implies #[trigger] m[a].0 != k by {
        if m[a].0 == k {
            assert(has_key(m, k));
        }
    }
    assert forall|j: int| 0 <= j < pos implies #[trigger] r[j].0 != k by {
        assert(r[j] == m[j]);
    }
    lemma_find_key_at(r, k, pos);
}

/// No key occurs twice.
pub open spec fn distinct_keys(m: Seq<(Seq<char>, JsonView)>) -> bool {
    forall|a: int, b: int| 0 <= a < b < m.len() ==> #[trigger] m[a].0 != #[trigger] m[b].0
}

proof fn lemma_step_keeps_distinct(acc: Seq<(Seq<char>, JsonView)>, r: Seq<(Seq<char>, JsonView)>, k: Seq<char>, v: JsonView)
    requires
        distinct_keys(acc),
        (find_key(acc, k) >= 0 && r.len() == acc.len() && forall|a: int|
            0 <= a < acc.len() ==> #[trigger] r[a].0 == acc[a].0) || (find_key(acc, k) < 0 && r
            == acc.insert(insert_pos(acc, k), (k, v))),
    ensures
        distinct_keys(r),
{
    lemma_find_key(acc, k);
    if find_key(acc, k) >= 0 {
        assert forall|a: int, b: int| 0 <= a < b < r.len() implies #[trigger] r[a].0 != #[trigger] r[b].0 by {
            assert(r[a].0 == acc[a].0 && r[b].0 == acc[b].0);
        }
    } else {
        lemma_insert_pos(acc, k);
        lemma_insert_absent(acc, k, v);
        let pos = insert_pos(acc, k);
        assert forall|a: int, b: int| 0 <= a < b < r.len() implies #[trigger] r[a].0 != #[trigger] r[b].0 by {
            let ka = if a < pos { acc[a].0 } else if a == pos { k } else { acc[a - 1].0 };
            let kb = if b < pos { acc[b].0 } else if b == pos { k } else { acc[b - 1].0 };
            assert(r[a].0 == ka && r[b].0 == kb);
        }
    }
}

/// The keys are strictly ascending: the order in which a sorted map lists
/// them, none twice.
pub open spec fn ascending_keys(m: Seq<(Seq<char>, JsonView)>) -> bool {
    forall|a: int, b: int| 0 <= a < b < m.len() ==> text_lt(#[trigger] m[a].0, #[trigger] m[b].0)
}

proof fn lemma_step_keeps_ascending(acc: Seq<(Seq<char>, JsonView)>, r: Seq<(Seq<char>, JsonView)>, k: Seq<char>, v: JsonView)
    requires
        ascending_keys(acc),
        (find_key(acc, k) >= 0 && r.len() == acc.len() && forall|a: int|
            0 <= a < acc.len() ==> #[trigger] r[a].0 == acc[a].0) || (find_key(acc, k) < 0 && r
            == acc.insert(insert_pos(acc, k), (k, v))),
    ensures
        ascending_keys(r),
{
    lemma_find_key(acc, k);
    if find_key(acc, k) >= 0 {
        assert forall|a: int, b: int| 0 <= a < b < r.len() implies text_lt(#[trigger] r[a].0, #[trigger] r[b].0) by {
            assert(r[a].0 == acc[a].0 && r[b].0 == acc[b].0);
        }
    } else {
        lemma_insert_pos(acc, k);
        lemma_insert_absent(acc, k, v);
        let pos = insert_pos(acc, k);
        if pos < acc.len() {
            lemma_text_le_total(acc[pos].0, k);
            assert(text_lt(k, acc[pos].0));
        }
        assert forall|a: int, b: int| 0 <= a < b < r.len() implies text_lt(#[trigger] r[a].0, #[trigger] r[b].0) by {
            if b < pos {
                assert(r[a] == acc[a] && r[b] == acc[b]);
            } else if b == pos {
                assert(r[a] == acc[a]);
            } else if a < pos {
                assert(r[a] == acc[a] && r[b] == acc[b - 1]);
                assert(text_lt(acc[a].0, acc[b - 1].0));
            } else if a == pos {
                assert(r[b] == acc[b - 1]);
                if b - 1 > pos {
                    lemma_text_lt_transitive(k, acc[pos].0, acc[b - 1].0);
                }
            } else {
                assert(r[a] == acc[a - 1] && r[b] == acc[b - 1]);
            }
        }
    }
}

/// Merging keeps the keys of an object in ascending order: a new key goes
/// to its place in that order, and a key that is there keeps its place.
pub proof fn law_merge_keeps_keys_ascending(tm: Seq<(Seq<char>, JsonView)>, new: Seq<(Seq<char>, JsonView)>)
    requires
        ascending_keys(tm),
    ensures
        ascending_keys(merge_members(tm, new)),
        ascending_keys(merge_file_members(tm, new)),
    decreases new.len(),
{
    if new.len() > 0 {
        let d = new.drop_last();
        law_merge_keeps_keys_ascending(tm, d);
        let k = new.last().0;
        let v = new.last().1;
        let acc1 = merge_members(tm, d);
        let acc2 = merge_file_members(tm, d);
        lemma_find_key(acc1, k);
        lemma_find_key(acc2, k);
        let r1 = merge_members(tm, new);
        let r2 = merge_file_members(tm, new);
        if find_key(acc1, k) >= 0 {
            assert forall|a: int| 0 <= a < acc1.len() implies #[trigger] r1[a].0 == acc1[a].0 by {}
        }
        lemma_step_keeps_ascending(acc1, r1, k, v);
        if find_key(acc2, k) >= 0 {
            assert forall|a: int| 0 <= a < acc2.len() implies #[trigger] r2[a].0 == acc2[a].0 by {}
        }
        lemma_step_keeps_ascending(acc2, r2, k, v);
    }
}

/// Merging keeps the keys of an object distinct: a key is added only when
/// it is not there yet.
pub proof fn law_merge_keeps_keys_distinct(tm: Seq<(Seq<char>, JsonView)>, new: Seq<(Seq<char>, JsonView)>)
    requires
        distinct_keys(tm),
    ensures
        distinct_keys(merge_members(tm, new)),
        distinct_keys(merge_file_members(tm, new)),
    decreases new.len(),
{
    if new.len() > 0 {
        let d = new.drop_last();
        law_merge_keeps_keys_distinct(tm, d);
        let k = new.last().0;
        let v = new.last().1;
        let acc1 = merge_members(tm, d);
        let acc2 = merge_file_members(tm, d);
        lemma_find_key(acc1, k);
        lemma_find_key(acc2, k);
        let r1 = merge_members(tm, new);
        let r2 = merge_file_members(tm, new);
        if find_key(acc1, k) >= 0 {
            assert forall|a: int| 0 <= a < acc1.len() implies #[trigger] r1[a].0 == acc1[a].0 by {}
        }
        lemma_step_keeps_distinct(acc1, r1, k, v);
        if find_key(acc2, k) >= 0 {
            assert forall|a: int| 0 <= a < acc2.len() implies #[trigger] r2[a].0 == acc2[a].0 by {}
        }
        lemma_step_keeps_distinct(acc2, r2, k, v);
    } else {
    }
}

/// A document-naming key of a schema file (`$schema-version`, `name`,
/// `title`, `description`) takes the value the file gives it, whatever the
/// files before held: the later file wins.
pub proof fn law_scalar_keys_take_the_later_value(tm: Seq<(Seq<char>, JsonView)>, file: Seq<(Seq<char>, JsonView)>, j: int)
    requires
        0 <= j < file.len(),
        is_scalar_key(file[j].0),
        distinct_keys(file),
    ensures
        find_key(merge_file_members(tm, file), file[j].0) >= 0,
        merge_file_members(tm, file)[find_key(merge_file_members(tm, file), file[j].0)] == file[j],
    decreases file.len(),
{
    let k = file[j].0;
    let d = file.drop_last();
    let acc = merge_file_members(tm, d);
    let r = merge_file_members(tm, file);
    let k2 = file.last().0;
    lemma_find_key(acc, k2);
    let p = find_key(acc, k2);
    if j == file.len() - 1 {
        if p >= 0 {
            assert(r == acc.update(p, file.last()));
            assert forall|a: int| 0 <= a < acc.len() implies #[trigger] acc[a].0 == r[a].0 by {}
            lemma_find_key_same_keys(acc, r, k);
        } else {
            lemma_insert_absent(acc, k, file.last().1);
            lemma_insert_pos(acc, k);
        }
    } else {
        assert(distinct_keys(d)) by {
            assert forall|a: int, b: int| 0 <= a < b < d.len() implies #[trigger] d[a].0 != #[trigger] d[b].0 by {
                assert(d[a] == file[a] && d[b] == file[b]);
            }
        }
        assert(d[j] == file[j]);
        law_scalar_keys_take_the_later_value(tm, d, j);
        lemma_find_key(acc, k);
        let i = find_key(acc, k);
        assert(k2 != k) by {
            assert(file[j].0 != file[file.len() - 1].0);
        }
        if p >= 0 {
            assert(p != i);
            let v2 = file.last().1;
            if is_scalar_key(k2) {
                assert(r == acc.update(p, (k2, v2)));
            } else {
                match acc[p].1 {
                    JsonView::Object(e) => match v2 {
                        JsonView::Object(inner) => {
                            assert(r == acc.update(p, (k2, JsonView::Object(merge_members(e, inner)))));
                        },
                        _ => {
                            assert(r == acc);
                        },
                    },
                    _ => {
                        assert(r == acc.update(p, (k2, v2)));
                    },
                }
            }
            assert(r.len() == acc.len());
            assert forall|a: int| 0 <= a < acc.len() implies #[trigger] acc[a].0 == r[a].0 by {}
            lemma_find_key_same_keys(acc, r, k);
            assert(r[i] == acc[i]);
        } else {
            lemma_insert_pos(acc, k2);
            lemma_find_key_insert(acc, insert_pos(acc, k2), (k2, file.last().1), k);
        }
    }
}

/// Merging keeps every key of the target and adds every key of the merged
/// members: split schema files never lose an entry.
pub proof fn law_merge_keeps_and_adds_keys(tm: Seq<(Seq<char>, JsonView)>, new: Seq<(Seq<char>, JsonView)>, k: Seq<char>)
    ensures
        has_key(tm, k) ==> has_key(merge_members(tm, new), k),
        has_key(new, k) ==> has_key(merge_members(tm, new), k),
    decreases new.len(),
{
    if new.len() > 0 {
        let d = new.drop_last();
        law_merge_keeps_and_adds_keys(tm, d, k);
        let acc = merge_members(tm, d);
        let nk = new.last().0;
        let r = merge_members(tm, new);
        lemma_find_key(acc, nk);
        let i = find_key(acc, nk);
        lemma_insert_pos(acc, nk);
        let pos = insert_pos(acc, nk);
        if i >= 0 {
            assert forall|j: int| 0 <= j < acc.len() implies #[trigger] r[j].0 == acc[j].0 by {}
        }
        if has_key(acc, k) {
            let j = choose|j: int| 0 <= j < acc.len() && #[trigger] acc[j].0 == k;
            if i >= 0 {
                assert(r[j].0 == k);
            } else if j < pos {
                assert(r[j] == acc[j]);
            } else {
                assert(r[j + 1] == acc[j]);
            }
        }
        if has_key(new, k) {
            let j = choose|j: int| 0 <= j < new.len() && #[trigger] new[j].0 == k;
            if j < new.len() - 1 {
                assert(d[j].0 == k);
            } else {
                if i >= 0 {
                    assert(r[i].0 == nk);
                } else {
                    assert(r[pos].0 == nk);
                }
            }
        }
    }
}

} // verus!
