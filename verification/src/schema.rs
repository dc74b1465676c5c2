//! The internal representation (IR) of the transport.rest API that the
//! binding generator reads, and its validation: every type a model field or
//! an alias refers to must be known.
//!
//! Maps of the IR are held as key/value lists in key order.

use vstd::prelude::*;
use crate::json::JsonValue;
use crate::text::{
    chars_of, lemma_text_lt_transitive, push_str, str_eq, str_less, string_from_chars, text_lt,
};

verus! {

/// A provider entry of the IR.
#[derive(Debug, Clone)]
pub struct Provider {
    /// Base URL of the public instance.
    pub base_url: String,
    /// Region the instance covers.
    pub region: String,
}

/// An enum of the IR.
#[derive(Debug, Clone)]
pub struct EnumDef {
    /// Documentation.
    pub doc: Option<String>,
    /// True if the enum accepts unknown values at runtime.
    pub open: bool,
    /// The known values.
    pub values: Vec<String>,
}

/// A type alias of the IR.
#[derive(Debug, Clone)]
pub struct AliasDef {
    /// The aliased type.
    pub type_: String,
    /// Documentation.
    pub doc: Option<String>,
}

/// A tagged union of the IR.
#[derive(Debug, Clone)]
pub struct UnionDef {
    /// Name of the discriminator field.
    pub tag: String,
    /// True if unknown variants are kept.
    pub open: bool,
    /// Documentation.
    pub doc: Option<String>,
    /// The variants.
    pub variants: Vec<UnionVariant>,
}

/// One variant of a union: a tag value and the type it selects.
#[derive(Debug, Clone)]
pub struct UnionVariant {
    /// Tag value.
    pub value: String,
    /// Type of the variant.
    pub type_: String,
}

/// A model (record type) of the IR.
#[derive(Debug, Clone)]
pub struct ModelDef {
    /// Documentation.
    pub doc: Option<String>,
    /// The fields, in order.
    pub fields: Vec<FieldDef>,
}

/// A field of a model.
#[derive(Debug, Clone)]
pub struct FieldDef {
    /// Field name.
    pub name: String,
    /// Wire name; defaults to `name`.
    pub json: Option<String>,
    /// Field type.
    pub type_: String,
    /// Optional field?
    pub opt: bool,
    /// Only supported by the DB instance.
    pub db_only: bool,
    /// Documentation.
    pub doc: Option<String>,
}

/// An endpoint of the IR.
#[derive(Debug, Clone)]
pub struct EndpointDef {
    /// Endpoint id.
    pub id: String,
    /// HTTP method.
    pub method: String,
    /// Path template.
    pub path: String,
    /// Documentation.
    pub doc: Option<String>,
    /// Type of the response body.
    pub response_type: String,
    /// Capability the endpoint needs, if any.
    pub capability: Option<String>,
    /// Parameters, in order.
    pub params: Vec<ParamDef>,
}

/// A parameter of an endpoint.
#[derive(Debug, Clone)]
pub struct ParamDef {
    /// Parameter name.
    pub name: String,
    /// Wire name; defaults to `name`.
    pub json: Option<String>,
    /// Where the parameter goes (`query`, `path`).
    pub in_: String,
    /// Parameter type.
    pub type_: String,
    /// Required?
    pub required: bool,
    /// Default value.
    pub default: Option<JsonValue>,
    /// Documentation.
    pub doc: Option<String>,
    /// Parameter group.
    pub group: Option<String>,
    /// Only supported by the DB instance.
    pub db_only: bool,
}

/// Everything that may be spread across multiple schema files.
#[derive(Debug, Clone)]
pub struct Rest {
    /// Enums by name.
    pub enums: Vec<(String, EnumDef)>,
    /// Aliases by name.
    pub aliases: Vec<(String, AliasDef)>,
    /// Unions by name.
    pub unions: Vec<(String, UnionDef)>,
    /// Models by name.
    pub models: Vec<(String, ModelDef)>,
    /// Response envelopes by name.
    pub envelopes: Vec<(String, ModelDef)>,
    /// List responses: name to element type.
    pub list_responses: Vec<(String, String)>,
    /// Endpoints, in order.
    pub endpoints: Vec<EndpointDef>,
    /// Product keys of the DB instance.
    pub product_keys_db: Vec<String>,
    /// Product keys of the BVG instance.
    pub product_keys_bvg: Vec<String>,
}

/// The merged IR.
#[derive(Debug, Clone)]
pub struct Ir {
    /// Version of the IR format.
    pub schema_version: u32,
    /// Name of the API.
    pub name: String,
    /// Providers by id.
    pub providers: Vec<(String, Provider)>,
    /// Capability table, as written.
    pub capabilities: Option<JsonValue>,
    /// The rest of the IR.
    pub rest: Rest,
}

/// The keys are strictly ascending: sorted, none twice (the shape of a
/// map's keys listed in order).
pub open spec fn keys_ascending(keys: Seq<Seq<char>>) -> bool {
    forall|i: int, j: int| 0 <= i < j < keys.len() ==> text_lt(#[trigger] keys[i], #[trigger] keys[j])
}

/// Every map of the IR lists its entries in strictly ascending key order,
/// as a map read from the schema holds them.
pub open spec fn ir_well_formed(ir: Ir) -> bool {
    &&& keys_ascending(keys_of(ir.providers@))
    &&& keys_ascending(keys_of(ir.rest.enums@))
    &&& keys_ascending(keys_of(ir.rest.aliases@))
    &&& keys_ascending(keys_of(ir.rest.unions@))
    &&& keys_ascending(keys_of(ir.rest.models@))
    &&& keys_ascending(keys_of(ir.rest.envelopes@))
    &&& keys_ascending(keys_of(ir.rest.list_responses@))
}

/// `list<`.
pub open spec fn list_open() -> Seq<char> {
    seq!['l', 'i', 's', 't', '<']
}

/// `map<`.
pub open spec fn map_open() -> Seq<char> {
    seq!['m', 'a', 'p', '<']
}

/// The type a type reference names once `list<..>` and `map<..>` wrappers
/// are taken off.
pub open spec fn innermost(t: Seq<char>) -> Seq<char>
    decreases t.len(),
{
    if t.len() >= 6 && t.take(5) == list_open() && t.last() == '>' {
        innermost(t.subrange(5, t.len() - 1))
    } else if t.len() >= 5 && t.take(4) == map_open() && t.last() == '>' {
        innermost(t.subrange(4, t.len() - 1))
    } else {
        t
    }
}

/// The error for a reference to the unknown type `t`.
pub open spec fn unknown_type_message(t: Seq<char>) -> Seq<char> {
    "unknown type '"@ + t + "' referenced in schema"@
}

/// The names as plain texts.
pub open spec fn names(v: Seq<String>) -> Seq<Seq<char>> {
    v.map_values(|s: String| s@)
}

proof fn lemma_innermost_sub(v: Seq<char>, lo: int, hi: int, k: int)
    requires
        0 <= lo,
        lo + k <= hi - 1,
        hi <= v.len(),
        k == 4 || k == 5,
    ensures
        v.subrange(lo, hi).subrange(k, hi - lo - 1) =~= v.subrange(lo + k, hi - 1),
{
}

/// Check a type reference: after taking off `list<..>` and `map<..>`
/// wrappers, the type must be one of `known`.
pub fn check_type(ty: &str, known: &Vec<String>) -> (r: Result<(), String>)
    ensures
        names(known@).contains(innermost(ty@)) ==> r is Ok,
        !names(known@).contains(innermost(ty@)) ==> (r matches Err(m) && m@
            == unknown_type_message(innermost(ty@))),
{
    let v = chars_of(ty);
    let mut lo: usize = 0;
    let mut hi: usize = v.len();
    assert(v@.subrange(0, v@.len() as int) =~= v@);
    loop
        invariant
            lo <= hi <= v@.len(),
            v@ == ty@,
            innermost(v@.subrange(lo as int, hi as int)) == innermost(ty@),
        ensures
            lo <= hi <= v@.len(),
            v@ == ty@,
            innermost(ty@) == v@.subrange(lo as int, hi as int),
        decreases hi - lo,
    {
        let ghost t = v@.subrange(lo as int, hi as int);
        if hi - lo >= 6 && v[lo] == 'l' && v[lo + 1] == 'i' && v[lo + 2] == 's' && v[lo + 3] == 't'
            && v[lo + 4] == '<' && v[hi - 1] == '>' {
            proof {
                assert(t.take(5) =~= list_open());
                assert(t.last() == v@[hi - 1]);
                lemma_innermost_sub(v@, lo as int, hi as int, 5);
            }
            lo = lo + 5;
            hi = hi - 1;
        } else if hi - lo >= 5 && v[lo] == 'm' && v[lo + 1] == 'a' && v[lo + 2] == 'p' && v[lo + 3]
            == '<' && v[hi - 1] == '>' {
            proof {
                assert(t.take(4) =~= map_open());
                assert(t.last() == v@[hi - 1]);
                assert(!(t.len() >= 6 && t.take(5) == list_open() && t.last() == '>')) by {
                    if t.len() >= 6 && t.take(5) == list_open() {
                        assert(t.take(5)[0] == 'l');
                    }
                }
                lemma_innermost_sub(v@, lo as int, hi as int, 4);
            }
            lo = lo + 4;
            hi = hi - 1;
        } else {
            proof {
                if t.len() >= 6 && t.take(5) == list_open() && t.last() == '>' {
                    assert(t.take(5)[0] == 'l' && t.take(5)[1] == 'i' && t.take(5)[2] == 's'
                        && t.take(5)[3] == 't' && t.take(5)[4] == '<');
                    assert(false);
                }
                if t.len() >= 5 && t.take(4) == map_open() && t.last() == '>' {
                    assert(t.take(4)[0] == 'm' && t.take(4)[1] == 'a' && t.take(4)[2] == 'p'
                        && t.take(4)[3] == '<');
                    assert(false);
                }
            }
            break;
        }
    }
    let mut inner: Vec<char> = Vec::new();
    for i in lo..hi
        invariant
            lo <= hi <= v@.len(),
            inner@ == v@.subrange(lo as int, i as int),
    {
        inner.push(v[i]);
        assert(v@.subrange(lo as int, i + 1) =~= v@.subrange(lo as int, i as int).push(v@[i as int]));
    }
    let t = string_from_chars(inner.as_slice());
    assert(t@ == innermost(ty@));
    if contains_name(known, t.as_str()) {
        Ok(())
    } else {
        let mut m = "unknown type '".to_owned();
        push_str(&mut m, t.as_str());
        push_str(&mut m, "' referenced in schema");
        Err(m)
    }
}

/// True if `name` is among `names`.
pub fn contains_name(known: &Vec<String>, name: &str) -> (r: bool)
    ensures
        r == names(known@).contains(name@),
{
    for i in 0..known.len()
        invariant
            forall|j: int| 0 <= j < i ==> #[trigger] known@[j]@ != name@,
    {
        if str_eq(known[i].as_str(), name) {
            assert(names(known@)[i as int] == name@);
            return true;
        }
    }
    assert forall|j: int| 0 <= j < names(known@).len() implies #[trigger] names(known@)[j] != name@ by {
        assert(names(known@)[j] == known@[j]@);
    }
    false
}


/// True if the keys of `m` are strictly ascending.
pub fn keys_in_order<T>(m: &Vec<(String, T)>) -> (r: bool)
    ensures
        r == keys_ascending(keys_of(m@)),
{
    let ghost ks = keys_of(m@);
    if m.len() == 0 {
        return true;
    }
    let mut i: usize = 1;
    while i < m.len()
        invariant
            ks == keys_of(m@),
            1 <= i <= m.len(),
            forall|p: int, q: int| 0 <= p < q < i ==> text_lt(#[trigger] ks[p], #[trigger] ks[q]),
        decreases m.len() - i,
    {
        let ok = str_less(m[i - 1].0.as_str(), m[i].0.as_str());
        assert(ks[i - 1] == m@[i - 1].0@ && ks[i as int] == m@[i as int].0@);
        if !ok {
            return false;
        }
        assert forall|p: int, q: int| 0 <= p < q < i + 1 implies text_lt(
            #[trigger] ks[p],
            #[trigger] ks[q],
        ) by {
            if q == i && p < i - 1 {
                lemma_text_lt_transitive(ks[p], ks[i - 1], ks[q]);
            }
        }
        i = i + 1;
    }
    true
}

/// True if every map of `ir` lists its keys in strictly ascending order.
pub fn ir_keys_in_order(ir: &Ir) -> (r: bool)
    ensures
        r == ir_well_formed(*ir),
{
    let r = &ir.rest;
    keys_in_order(&ir.providers) && keys_in_order(&r.enums) && keys_in_order(&r.aliases)
        && keys_in_order(&r.unions) && keys_in_order(&r.models) && keys_in_order(&r.envelopes)
        && keys_in_order(&r.list_responses)
}

/// The type names every schema knows besides its own definitions.
pub open spec fn builtin_types() -> Seq<Seq<char>> {
    seq!["string"@, "int"@, "float"@, "bool"@, "datetime"@, "LocationFilter"@, "products"@]
}

/// The keys of a key/value list.
pub open spec fn keys_of<T>(m: Seq<(String, T)>) -> Seq<Seq<char>> {
    m.map_values(|p: (String, T)| p.0@)
}

/// Every type name a schema may refer to: its enums, unions, models,
/// envelopes, the built-in names and its aliases.
pub open spec fn known_types(r: Rest) -> Seq<Seq<char>> {
    keys_of(r.enums@) + keys_of(r.unions@) + keys_of(r.models@) + keys_of(r.envelopes@)
        + builtin_types() + keys_of(r.aliases@)
}

/// The field types of a list of models, model by model, field by field.
pub open spec fn field_types(ms: Seq<(String, ModelDef)>) -> Seq<Seq<char>>
    decreases ms.len(),
{
    if ms.len() == 0 {
        seq![]
    } else {
        field_types(ms.drop_last()) + ms.last().1.fields@.map_values(|f: FieldDef| f.type_@)
    }
}

/// The type references a schema is checked for, in checking order: the
/// alias targets, then the field types of the models, then those of the
/// envelopes.
pub open spec fn checked_types(r: Rest) -> Seq<Seq<char>> {
    r.aliases@.map_values(|p: (String, AliasDef)| p.1.type_@) + field_types(r.models@) + field_types(
        r.envelopes@,
    )
}

/// The first reference in `tys` to a type not in `known`, by its innermost
/// name.
pub open spec fn first_unknown(tys: Seq<Seq<char>>, known: Seq<Seq<char>>) -> Option<Seq<char>>
    decreases tys.len(),
{
    if tys.len() == 0 {
        None
    } else if !known.contains(innermost(tys[0])) {
        Some(innermost(tys[0]))
    } else {
        first_unknown(tys.drop_first(), known)
    }
}

proof fn lemma_first_unknown_at(tys: Seq<Seq<char>>, known: Seq<Seq<char>>, i: int)
    requires
        0 <= i <= tys.len(),
        forall|j: int| 0 <= j < i ==> known.contains(innermost(#[trigger] tys[j])),
    ensures
        i == tys.len() ==> first_unknown(tys, known) is None,
        i < tys.len() && !known.contains(innermost(tys[i])) ==> first_unknown(tys, known) == Some(
            innermost(tys[i]),
        ),
    decreases i,
{
    if i > 0 {
        let d = tys.drop_first();
        assert forall|j: int| 0 <= j < i - 1 implies known.contains(innermost(#[trigger] d[j])) by {
            assert(d[j] == tys[j + 1]);
        }
        assert(known.contains(innermost(tys[0])));
        lemma_first_unknown_at(d, known, i - 1);
        if i < tys.len() {
            assert(d[i - 1] == tys[i]);
        }
    } else if tys.len() > 0 {
    }
}

fn push_name(out: &mut Vec<String>, s: &String)
    ensures
        names(final(out)@) == names(old(out)@).push(s@),
{
    out.push(s.clone());
    assert(names(out@) =~= names(old(out)@).push(s@));
}

fn push_str_name(out: &mut Vec<String>, s: &str)
    ensures
        names(final(out)@) == names(old(out)@).push(s@),
{
    out.push(s.to_owned());
    assert(names(out@) =~= names(old(out)@).push(s@));
}

/// Append the keys of `m`.
fn push_keys<T>(out: &mut Vec<String>, m: &Vec<(String, T)>)
    ensures
        names(final(out)@) == names(old(out)@) + keys_of(m@),
{
    let ghost start = names(out@);
    for i in 0..m.len()
        invariant
            names(out@) == start + keys_of(m@.take(i as int)),
    {
        push_name(out, &m[i].0);
        assert(keys_of(m@.take(i + 1)) =~= keys_of(m@.take(i as int)).push(m@[i as int].0@));
        assert(names(out@) =~= start + keys_of(m@.take(i + 1)));
    }
    assert(m@.take(m@.len() as int) =~= m@);
}

/// Append the field types of `ms`.
fn push_field_types(out: &mut Vec<String>, ms: &Vec<(String, ModelDef)>)
    ensures
        names(final(out)@) == names(old(out)@) + field_types(ms@),
{
    let ghost start = names(out@);
    for i in 0..ms.len()
        invariant
            names(out@) == start + field_types(ms@.take(i as int)),
    {
        let fields = &ms[i].1.fields;
        let ghost mid = names(out@);
        for j in 0..fields.len()
            invariant
                fields == ms@[i as int].1.fields,
                names(out@) == mid + fields@.take(j as int).map_values(|f: FieldDef| f.type_@),
        {
            push_name(out, &fields[j].type_);
            assert(fields@.take(j + 1).map_values(|f: FieldDef| f.type_@) =~= fields@.take(
                j as int,
            ).map_values(|f: FieldDef| f.type_@).push(fields@[j as int].type_@));
            assert(names(out@) =~= mid + fields@.take(j + 1).map_values(|f: FieldDef| f.type_@));
        }
        assert(fields@.take(fields@.len() as int) =~= fields@);
        assert(ms@.take(i + 1).drop_last() =~= ms@.take(i as int));
        assert(names(out@) =~= start + field_types(ms@.take(i + 1)));
    }
    assert(ms@.take(ms@.len() as int) =~= ms@);
}

/// `t` is a type the schema can refer to: the name of one of its enums,
/// unions, models, envelopes or aliases, or a built-in type.
pub open spec fn names_known_type(r: Rest, t: Seq<char>) -> bool {
    ||| exists|i: int| 0 <= i < r.enums@.len() && #[trigger] r.enums@[i].0@ == t
    ||| exists|i: int| 0 <= i < r.unions@.len() && #[trigger] r.unions@[i].0@ == t
    ||| exists|i: int| 0 <= i < r.models@.len() && #[trigger] r.models@[i].0@ == t
    ||| exists|i: int| 0 <= i < r.envelopes@.len() && #[trigger] r.envelopes@[i].0@ == t
    ||| exists|i: int| 0 <= i < r.aliases@.len() && #[trigger] r.aliases@[i].0@ == t
    ||| builtin_types().contains(t)
}

/// Every alias target and every field type of the models and envelopes,
/// with its `list<..>` and `map<..>` wrappers taken off, names a type the
/// schema can refer to.
pub open spec fn references_known(r: Rest) -> bool {
    &&& forall|i: int|
        0 <= i < r.aliases@.len() ==> names_known_type(r, innermost(#[trigger] r.aliases@[i].1.type_@))
    &&& forall|i: int, j: int|
        0 <= i < r.models@.len() && 0 <= j < r.models@[i].1.fields@.len() ==> names_known_type(
            r,
            innermost(#[trigger] r.models@[i].1.fields@[j].type_@),
        )
    &&& forall|i: int, j: int|
        0 <= i < r.envelopes@.len() && 0 <= j < r.envelopes@[i].1.fields@.len() ==> names_known_type(
            r,
            innermost(#[trigger] r.envelopes@[i].1.fields@[j].type_@),
        )
}

proof fn lemma_contains_concat(a: Seq<Seq<char>>, b: Seq<Seq<char>>, x: Seq<char>)
    ensures
        (a + b).contains(x) <==> a.contains(x) || b.contains(x),
{
    if (a + b).contains(x) {
        let k = choose|k: int| 0 <= k < (a + b).len() && (a + b)[k] == x;
        if k < a.len() {
            assert(a[k] == x);
        } else {
            assert(b[k - a.len()] == x);
        }
    }
    if a.contains(x) {
        let k = choose|k: int| 0 <= k < a.len() && a[k] == x;
        assert((a + b)[k] == x);
    }
    if b.contains(x) {
        let k = choose|k: int| 0 <= k < b.len() && b[k] == x;
        assert((a + b)[k + a.len()] == x);
    }
}

proof fn lemma_keys_contains<T>(m: Seq<(String, T)>, x: Seq<char>)
    ensures
        keys_of(m).contains(x) <==> exists|i: int| 0 <= i < m.len() && #[trigger] m[i].0@ == x,
{
    if keys_of(m).contains(x) {
        let k = choose|k: int| 0 <= k < keys_of(m).len() && keys_of(m)[k] == x;
        assert(m[k].0@ == x);
    }
    if exists|i: int| 0 <= i < m.len() && #[trigger] m[i].0@ == x {
        let i = choose|i: int| 0 <= i < m.len() && #[trigger] m[i].0@ == x;
        assert(keys_of(m)[i] == x);
    }
}

proof fn lemma_known_types(r: Rest, t: Seq<char>)
    ensures
        known_types(r).contains(t) <==> names_known_type(r, t),
{
    let e = keys_of(r.enums@);
    let u = keys_of(r.unions@);
    let m = keys_of(r.models@);
    let v = keys_of(r.envelopes@);
    let a = keys_of(r.aliases@);
    let bt = builtin_types();
    lemma_contains_concat(e + u + m + v + bt, a, t);
    lemma_contains_concat(e + u + m + v, bt, t);
    lemma_contains_concat(e + u + m, v, t);
    lemma_contains_concat(e + u, m, t);
    lemma_contains_concat(e, u, t);
    lemma_keys_contains(r.enums@, t);
    lemma_keys_contains(r.unions@, t);
    lemma_keys_contains(r.models@, t);
    lemma_keys_contains(r.envelopes@, t);
    lemma_keys_contains(r.aliases@, t);
}

/// Every reference in `tys` names a type in `known`, once unwrapped.
pub open spec fn all_known(tys: Seq<Seq<char>>, known: Seq<Seq<char>>) -> bool {
    forall|k: int| 0 <= k < tys.len() ==> known.contains(innermost(#[trigger] tys[k]))
}

proof fn lemma_first_unknown_none(tys: Seq<Seq<char>>, known: Seq<Seq<char>>)
    ensures
        first_unknown(tys, known) is None <==> all_known(tys, known),
    decreases tys.len(),
{
    if tys.len() > 0 {
        let d = tys.drop_first();
        lemma_first_unknown_none(d, known);
        if all_known(tys, known) {
            assert forall|k: int| 0 <= k < d.len() implies known.contains(innermost(#[trigger] d[k])) by {
                assert(d[k] == tys[k + 1]);
            }
        }
        if known.contains(innermost(tys[0])) && all_known(d, known) {
            assert forall|k: int| 0 <= k < tys.len() implies known.contains(innermost(#[trigger] tys[k])) by {
                if k > 0 {
                    assert(tys[k] == d[k - 1]);
                }
            }
        }
    }
}

proof fn lemma_all_known_concat(a: Seq<Seq<char>>, b: Seq<Seq<char>>, known: Seq<Seq<char>>)
    ensures
        all_known(a + b, known) <==> all_known(a, known) && all_known(b, known),
{
    if all_known(a + b, known) {
        assert forall|k: int| 0 <= k < a.len() implies known.contains(innermost(#[trigger] a[k])) by {
            assert((a + b)[k] == a[k]);
        }
        assert forall|k: int| 0 <= k < b.len() implies known.contains(innermost(#[trigger] b[k])) by {
            assert((a + b)[k + a.len()] == b[k]);
        }
    }
    if all_known(a, known) && all_known(b, known) {
        assert forall|k: int| 0 <= k < (a + b).len() implies known.contains(innermost(#[trigger] (a + b)[k])) by {
            if k < a.len() {
                assert((a + b)[k] == a[k]);
            } else {
                assert((a + b)[k] == b[k - a.len()]);
            }
        }
    }
}

proof fn lemma_field_types_known(ms: Seq<(String, ModelDef)>, known: Seq<Seq<char>>)
    ensures
        all_known(field_types(ms), known) <==> forall|i: int, j: int|
            0 <= i < ms.len() && 0 <= j < ms[i].1.fields@.len() ==> known.contains(
                innermost(#[trigger] ms[i].1.fields@[j].type_@),
            ),
    decreases ms.len(),
{
    if ms.len() > 0 {
        let d = ms.drop_last();
        let last = ms.last().1.fields@.map_values(|f: FieldDef| f.type_@);
        lemma_field_types_known(d, known);
        lemma_all_known_concat(field_types(d), last, known);
        if all_known(field_types(ms), known) {
            assert forall|i: int, j: int|
                0 <= i < ms.len() && 0 <= j < ms[i].1.fields@.len() implies known.contains(
                innermost(#[trigger] ms[i].1.fields@[j].type_@),
            ) by {
                if i < ms.len() - 1 {
                    assert(d[i] == ms[i]);
                } else {
                    assert(last[j] == ms[i].1.fields@[j].type_@);
                }
            }
        }
        if forall|i: int, j: int|
            0 <= i < ms.len() && 0 <= j < ms[i].1.fields@.len() ==> known.contains(
                innermost(#[trigger] ms[i].1.fields@[j].type_@),
            ) {
            assert forall|i: int, j: int|
                0 <= i < d.len() && 0 <= j < d[i].1.fields@.len() implies known.contains(
                innermost(#[trigger] d[i].1.fields@[j].type_@),
            ) by {
                assert(d[i] == ms[i]);
            }
            assert forall|k: int| 0 <= k < last.len() implies known.contains(innermost(#[trigger] last[k])) by {
                assert(last[k] == ms[ms.len() - 1].1.fields@[k].type_@);
            }
        }
    }
}

/// A schema passes validation exactly when every alias target and every
/// field type of its models and envelopes, unwrapped from `list<..>` and
/// `map<..>`, is the name of one of its enums, unions, models, envelopes or
/// aliases, or a built-in type.
pub proof fn law_validate_accepts_exactly_known_references(r: Rest)
    ensures
        first_unknown(checked_types(r), known_types(r)) is None <==> references_known(r),
{
    let known = known_types(r);
    let al = r.aliases@.map_values(|p: (String, AliasDef)| p.1.type_@);
    assert forall|t: Seq<char>| known.contains(t) <==> names_known_type(r, t) by {
        lemma_known_types(r, t);
    }
    lemma_first_unknown_none(checked_types(r), known);
    lemma_all_known_concat(al + field_types(r.models@), field_types(r.envelopes@), known);
    lemma_all_known_concat(al, field_types(r.models@), known);
    lemma_field_types_known(r.models@, known);
    lemma_field_types_known(r.envelopes@, known);
    if all_known(al, known) {
        assert forall|i: int| 0 <= i < r.aliases@.len() implies names_known_type(
            r,
            innermost(#[trigger] r.aliases@[i].1.type_@),
        ) by {
            assert(al[i] == r.aliases@[i].1.type_@);
        }
    }
    if forall|i: int|
        0 <= i < r.aliases@.len() ==> names_known_type(r, innermost(#[trigger] r.aliases@[i].1.type_@)) {
        assert forall|k: int| 0 <= k < al.len() implies known.contains(innermost(#[trigger] al[k])) by {
            assert(al[k] == r.aliases@[k].1.type_@);
        }
    }
}

/// Check that every alias target and every field type of the models and
/// envelopes refers to a known type; the first one that does not is
/// reported.
pub fn validate(ir: &Ir) -> (r: Result<(), String>)
    ensures
        match first_unknown(checked_types(ir.rest), known_types(ir.rest)) {
            None => r is Ok,
            Some(t) => r matches Err(m) && m@ == unknown_type_message(t),
        },
        r is Ok <==> references_known(ir.rest),
{
    proof {
        law_validate_accepts_exactly_known_references(ir.rest);
    }
    let rest = &ir.rest;
    let mut known: Vec<String> = Vec::new();
    assert(names(known@) =~= Seq::<Seq<char>>::empty());
    push_keys(&mut known, &rest.enums);
    push_keys(&mut known, &rest.unions);
    push_keys(&mut known, &rest.models);
    push_keys(&mut known, &rest.envelopes);
    let ghost before_builtin = names(known@);
    push_str_name(&mut known, "string");
    push_str_name(&mut known, "int");
    push_str_name(&mut known, "float");
    push_str_name(&mut known, "bool");
    push_str_name(&mut known, "datetime");
    push_str_name(&mut known, "LocationFilter");
    push_str_name(&mut known, "products");
    assert(names(known@) =~= before_builtin + builtin_types());
    push_keys(&mut known, &rest.aliases);
    assert(names(known@) =~= known_types(*rest));
    let mut tys: Vec<String> = Vec::new();
    let ghost empty = names(tys@);
    assert(empty =~= Seq::<Seq<char>>::empty());
    for i in 0..rest.aliases.len()
        invariant
            names(tys@) == rest.aliases@.take(i as int).map_values(
                |p: (String, AliasDef)| p.1.type_@,
            ),
    {
        push_name(&mut tys, &rest.aliases[i].1.type_);
        assert(rest.aliases@.take(i + 1).map_values(|p: (String, AliasDef)| p.1.type_@)
            =~= rest.aliases@.take(i as int).map_values(|p: (String, AliasDef)| p.1.type_@).push(
            rest.aliases@[i as int].1.type_@,
        ));
    }
    assert(rest.aliases@.take(rest.aliases@.len() as int) =~= rest.aliases@);
    push_field_types(&mut tys, &rest.models);
    push_field_types(&mut tys, &rest.envelopes);
    assert(names(tys@) =~= checked_types(*rest));
    let ghost all = names(tys@);
    let ghost kn = names(known@);
    for i in 0..tys.len()
        invariant
            all == names(tys@),
            kn == names(known@),
            all == checked_types(ir.rest),
            kn == known_types(ir.rest),
            forall|j: int| 0 <= j < i ==> kn.contains(innermost(#[trigger] all[j])),
            first_unknown(checked_types(ir.rest), known_types(ir.rest)) is None <==> references_known(
                ir.rest,
            ),
    {
        assert(all[i as int] == tys@[i as int]@);
        match check_type(tys[i].as_str(), &known) {
            Ok(()) => {},
            Err(m) => {
                proof {
                    lemma_first_unknown_at(all, kn, i as int);
                }
                return Err(m);
            },
        }
    }
    proof {
        lemma_first_unknown_at(all, kn, tys@.len() as int);
    }
    Ok(())
}


/// A schema validates exactly when every checked type reference, with its
/// `list<..>`/`map<..>` wrappers taken off, names a known type.
pub proof fn law_validate_accepts_iff_all_known(tys: Seq<Seq<char>>, known: Seq<Seq<char>>)
    ensures
        (first_unknown(tys, known) is None) <==> forall|i: int| 0 <= i < tys.len() ==> known.contains(
            innermost(#[trigger] tys[i]),
        ),
    decreases tys.len(),
{
    if tys.len() > 0 {
        let d = tys.drop_first();
        law_validate_accepts_iff_all_known(d, known);
        if forall|i: int| 0 <= i < tys.len() ==> known.contains(innermost(#[trigger] tys[i])) {
            assert forall|i: int| 0 <= i < d.len() implies known.contains(innermost(#[trigger] d[i])) by {
                assert(d[i] == tys[i + 1]);
            }
            assert(known.contains(innermost(tys[0])));
        }
        if first_unknown(tys, known) is None {
            assert forall|i: int| 0 <= i < tys.len() implies known.contains(innermost(#[trigger] tys[i])) by {
                if i > 0 {
                    assert(tys[i] == d[i - 1]);
                }
            }
        }
    }
}

/// A list or map type is valid exactly when its element type is:
/// `list<T>` and `map<T>` name the same type as `T`.
pub proof fn law_wrappers_name_their_element(t: Seq<char>)
    ensures
        innermost(list_open() + t + seq!['>']) == innermost(t),
        innermost(map_open() + t + seq!['>']) == innermost(t),
{
    let l = list_open() + t + seq!['>'];
    let m = map_open() + t + seq!['>'];
    assert(l.take(5) =~= list_open());
    assert(l.subrange(5, l.len() - 1) =~= t);
    assert(m.take(4) =~= map_open());
    assert(m.subrange(4, m.len() - 1) =~= t);
    assert(m.len() >= 6 ==> m.take(5)[0] == 'm');
}

} // verus!
