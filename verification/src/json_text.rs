//! JSON text: parsing schema files into JSON values and writing JSON
//! values as indented text, through `serde_json`; and the merge of a list
//! of schema files, in order, into one document.

use vstd::prelude::*;
use crate::json::{
    ascending_keys, distinct_keys, law_merge_keeps_keys_ascending, jview_members, law_merge_keeps_keys_distinct, merge_file, merge_file_members,
    JsonValue, JsonView,
};
use crate::text::{
    lemma_text_le_antisymmetric, lemma_text_le_reflexive, lemma_text_le_total,
    lemma_text_le_transitive, push_str, text_le, texts,
};

verus! {

#[verifier::external_type_specification]
#[verifier::external_body]
pub struct ExSerdeJsonValue(serde_json::Value);

/// A `serde_json::Value` as a library JSON value, variant for variant: a
/// number as the text `serde_json` writes for it, an array element by
/// element, an object member by member in the map's (key) order. It
/// changes the type only and has no contract of its own; the items that
/// call it state what holds of the whole.
#[verifier::external_body]
fn from_serde(v: &serde_json::Value) -> JsonValue {
    match v {
        serde_json::Value::Null => JsonValue::Null,
        serde_json::Value::Bool(b) => JsonValue::Bool(*b),
        serde_json::Value::Number(n) => JsonValue::Number(n.to_string()),
        serde_json::Value::String(s) => JsonValue::Str(s.clone()),
        serde_json::Value::Array(a) => JsonValue::Array(a.iter().map(from_serde).collect()),
        serde_json::Value::Object(m) => JsonValue::Object(
            m.iter().map(|(k, x)| (k.clone(), from_serde(x))).collect(),
        ),
    }
}

/// A library JSON value as a `serde_json::Value`, variant for variant: a
/// number read back with `serde_json::Number`'s `FromStr` (`null` if the
/// text is no number), an object member by member into a
/// `serde_json::Map`. It changes the type only and has no contract of its
/// own; the item that calls it states what holds of the whole.
#[verifier::external_body]
fn to_serde(v: &JsonValue) -> serde_json::Value {
    match v {
        JsonValue::Null => serde_json::Value::Null,
        JsonValue::Bool(b) => serde_json::Value::Bool(*b),
        JsonValue::Number(n) => n.parse::<serde_json::Number>().map(serde_json::Value::Number).unwrap_or(
            serde_json::Value::Null,
        ),
        JsonValue::Str(s) => serde_json::Value::String(s.clone()),
        JsonValue::Array(a) => serde_json::Value::Array(a.iter().map(to_serde).collect()),
        JsonValue::Object(m) => serde_json::Value::Object(
            m.iter().map(|(k, x)| (k.clone(), to_serde(x))).collect(),
        ),
    }
}

/// Every object in the value lists its members in strictly ascending key
/// order, as a `serde_json::Map` (a `BTreeMap` here) holds them.
pub open spec fn json_wf(v: JsonView) -> bool
    decreases v,
{
    match v {
        JsonView::Array(a) => forall|i: int| 0 <= i < a.len() ==> json_wf(#[trigger] a[i]),
        JsonView::Object(m) => ascending_keys(m) && forall|i: int|
            0 <= i < m.len() ==> json_wf(#[trigger] m[i].1),
        _ => true,
    }
}

/// What `serde_json::from_str::<serde_json::Value>` makes of `text`: the
/// value, or the text of the error it reports.
pub uninterp spec fn json_parse(text: Seq<char>) -> Result<JsonView, Seq<char>>;

/// `serde_json::from_str::<serde_json::Value>`, converted to the library's
/// JSON value; an error as its `Display` text. The contract names the
/// result and states that objects come with their keys in strictly
/// ascending order (they are read into a `serde_json::Map`, which without
/// the `preserve_order` feature is a `BTreeMap` and iterates in `String`
/// order, that is by code point); it does not state the JSON grammar.
#[verifier::external_body]
pub(crate) fn parse_json_text(text: &str) -> (r: Result<JsonValue, String>)
    ensures
        match r {
            Ok(v) => json_parse(text@) == Ok::<JsonView, Seq<char>>(v@) && json_wf(v@),
            Err(m) => json_parse(text@) == Err::<JsonView, Seq<char>>(m@),
        },
{
    match serde_json::from_str::<serde_json::Value>(text) {
        Ok(v) => Ok(from_serde(&v)),
        Err(e) => Err(e.to_string()),
    }
}

/// What `serde_json::to_string_pretty` writes for a JSON value (two-space
/// indentation, object keys in ascending order).
pub uninterp spec fn json_pretty(v: JsonView) -> Seq<char>;

/// `serde_json::to_string_pretty` of the value converted to a
/// `serde_json::Value` (which cannot fail for such a value). The contract
/// names the text; it does not state the layout.
#[verifier::external_body]
fn render_json_pretty(v: &JsonValue) -> (r: String)
    ensures
        r@ == json_pretty(v@),
{
    serde_json::to_string_pretty(&to_serde(v)).unwrap_or_default()
}

/// The text of a JSON value as the generator writes it: indented, with a
/// final newline.
pub fn pretty_text(v: &JsonValue) -> (r: String)
    ensures
        r@ == json_pretty(v@) + seq!['\n'],
{
    let mut out = render_json_pretty(v);
    push_str(&mut out, "\n");
    proof {
        reveal_strlit("\n");
    }
    out
}

/// `text_le` as a relation, for vstd's ordering lemmas.
pub open spec fn text_order() -> spec_fn(Seq<char>, Seq<char>) -> bool {
    |a: Seq<char>, b: Seq<char>| text_le(a, b)
}

/// `text_le` orders all texts: reflexive, antisymmetric, transitive and
/// total.
pub proof fn lemma_text_order_total()
    ensures
        vstd::relations::total_ordering(text_order()),
{
    assert forall|a: Seq<char>| #[trigger] text_order()(a, a) by {
        lemma_text_le_reflexive(a);
    }
    assert forall|a: Seq<char>, b: Seq<char>|
        #[trigger] text_order()(a, b) && #[trigger] text_order()(b, a) implies a == b by {
        lemma_text_le_antisymmetric(a, b);
    }
    assert forall|a: Seq<char>, b: Seq<char>, c: Seq<char>|
        #[trigger] text_order()(a, b) && #[trigger] text_order()(b, c) implies text_order()(
        a,
        c,
    ) by {
        lemma_text_le_transitive(a, b, c);
    }
    assert forall|a: Seq<char>, b: Seq<char>|
        #[trigger] text_order()(a, b) || #[trigger] text_order()(b, a) by {
        lemma_text_le_total(a, b);
    }
}

proof fn lemma_texts_multiset(x: Seq<String>, y: Seq<String>)
    requires
        x.to_multiset() == y.to_multiset(),
    ensures
        texts(x).to_multiset() == texts(y).to_multiset(),
    decreases x.len(),
{
    broadcast use vstd::seq_lib::group_to_multiset_ensures, vstd::multiset::group_multiset_axioms;

    if x.len() == 0 {
        assert(x.to_multiset().len() == 0);
        assert(y.to_multiset().len() == y.len());
        assert(texts(x) =~= texts(y));
    } else {
        let a = x.last();
        let x1 = x.drop_last();
        assert(x =~= x1.push(a));
        assert(x.contains(a));
        assert(y.to_multiset().count(a) > 0);
        assert(y.contains(a));
        let k = choose|k: int| 0 <= k < y.len() && y[k] == a;
        let y1 = y.remove(k);
        assert(x1.to_multiset() =~= y1.to_multiset());
        lemma_texts_multiset(x1, y1);
        assert(texts(x) =~= texts(x1).push(a@));
        assert(texts(y1) =~= texts(y).remove(k));
        assert(texts(y)[k] == a@);
        assert(texts(y).remove(k).to_multiset() =~= texts(y).to_multiset().remove(a@));
        assert(texts(y).to_multiset().count(a@) > 0) by {
            assert(texts(y).contains(a@));
        }
        assert(texts(x).to_multiset() =~= texts(y).to_multiset());
    }
}

/// The schema files among `names`, ascending.
pub open spec fn schema_order(names: Seq<String>) -> Seq<Seq<char>> {
    texts(json_files(names)).sort_by(text_order())
}

/// The texts are in ascending order.
pub open spec fn sorted_texts(s: Seq<String>) -> bool {
    forall|i: int, j: int| 0 <= i < j < s.len() ==> text_le(#[trigger] s[i]@, #[trigger] s[j]@)
}

/// A file name whose `Path::extension` is `json`: it ends in `.json` with
/// something before the dot.
pub open spec fn is_json_file(name: Seq<char>) -> bool {
    name.len() > 5 && name.skip(name.len() - 5) == seq!['.', 'j', 's', 'o', 'n']
}

/// The JSON files among `names`, in their order.
pub open spec fn json_files(names: Seq<String>) -> Seq<String>
    decreases names.len(),
{
    if names.len() == 0 {
        seq![]
    } else if is_json_file(names.last()@) {
        json_files(names.drop_last()).push(names.last())
    } else {
        json_files(names.drop_last())
    }
}

/// `<[String]>::sort`: ascending by `String`'s `Ord`, which compares the
/// UTF-8 bytes lexicographically, that is the characters by code point.
/// The contract states that the result is sorted so and holds the same
/// strings.
#[verifier::external_body]
fn sort_texts(v: &mut Vec<String>)
    ensures
        sorted_texts(final(v)@),
        final(v)@.to_multiset() == old(v)@.to_multiset(),
{
    v.sort()
}

fn is_json_file_exec(name: &str) -> (r: bool)
    ensures
        r == is_json_file(name@),
{
    let v = crate::text::chars_of(name);
    let n = v.len();
    if n <= 5 {
        return false;
    }
    let r = v[n - 5] == '.' && v[n - 4] == 'j' && v[n - 3] == 's' && v[n - 2] == 'o' && v[n - 1]
        == 'n';
    proof {
        let t = name@.skip(n - 5);
        if r {
            assert(t =~= seq!['.', 'j', 's', 'o', 'n']);
        } else {
            if t == seq!['.', 'j', 's', 'o', 'n'] {
                assert(t[0] == v@[n - 5] && t[1] == v@[n - 4] && t[2] == v@[n - 3] && t[3] == v@[n
                    - 2] && t[4] == v@[n - 1]);
            }
        }
    }
    r
}

/// The schema files to read, from the names a directory lists (in any
/// order): those with extension `json`, in ascending order of their names.
/// Neither other files nor the listing order change the result.
pub fn schema_file_names(names: &Vec<String>) -> (r: Vec<String>)
    ensures
        texts(r@) == schema_order(names@),
        sorted_texts(r@),
        r@.to_multiset() == json_files(names@).to_multiset(),
{
    let mut out: Vec<String> = Vec::new();
    for i in 0..names.len()
        invariant
            out@ == json_files(names@.take(i as int)),
    {
        assert(names@.take(i + 1).drop_last() =~= names@.take(i as int));
        assert(names@.take(i + 1).last() == names@[i as int]);
        if is_json_file_exec(names[i].as_str()) {
            out.push(names[i].clone());
        }
    }
    assert(names@.take(names@.len() as int) =~= names@);
    sort_texts(&mut out);
    proof {
        let js = texts(json_files(names@));
        lemma_text_order_total();
        js.lemma_sort_by_ensures(text_order());
        lemma_texts_multiset(out@, json_files(names@));
        assert(vstd::relations::sorted_by(texts(out@), text_order()));
        vstd::seq_lib::lemma_sorted_unique(texts(out@), js.sort_by(text_order()), text_order());
    }
    out
}

/// Two listings that hold the same schema files, in any order and among any
/// other files, give the same schema files in the same order.
pub proof fn law_schema_order_ignores_listing(a: Seq<String>, b: Seq<String>)
    requires
        texts(json_files(a)).to_multiset() == texts(json_files(b)).to_multiset(),
    ensures
        schema_order(a) == schema_order(b),
{
    lemma_text_order_total();
    texts(json_files(a)).lemma_sort_by_ensures(text_order());
    texts(json_files(b)).lemma_sort_by_ensures(text_order());
    vstd::seq_lib::lemma_sorted_unique(schema_order(a), schema_order(b), text_order());
}

/// Schema files as plain texts: each a path and its contents.
pub open spec fn file_texts(files: Seq<(String, String)>) -> Seq<(Seq<char>, Seq<char>)> {
    files.map_values(|f: (String, String)| (f.0@, f.1@))
}

/// The top-level members of a schema file at `path`, given what the JSON
/// parser made of its text: the members of an object; otherwise the error,
/// `invalid JSON in {path}: {error}` when it did not parse and
/// `{path}: expected object` when it parsed to something else.
pub open spec fn file_members_spec(path: Seq<char>, parsed: Result<JsonView, Seq<char>>) -> Result<Seq<(Seq<char>, JsonView)>, Seq<char>> {
    match parsed {
        Err(m) => Err("invalid JSON in "@ + path + ": "@ + m),
        Ok(JsonView::Object(ms)) => Ok(ms),
        Ok(_) => Err(path + ": expected object"@),
    }
}

/// The plain value of a parse result.
pub open spec fn parse_view(r: Result<JsonValue, String>) -> Result<JsonView, Seq<char>> {
    match r {
        Ok(v) => Ok(v@),
        Err(m) => Err(m@),
    }
}

/// The top-level members of the schema file at `path` from what the JSON
/// parser made of its text (see [`file_members_spec`]).
pub fn schema_file_members(path: &str, parsed: Result<JsonValue, String>) -> (r: Result<Vec<(String, JsonValue)>, String>)
    ensures
        match file_members_spec(path@, parse_view(parsed)) {
            Ok(ms) => r matches Ok(v) && jview_members(v@) == ms,
            Err(e) => r matches Err(s) && s@ == e,
        },
{
    match parsed {
        Err(m) => {
            let mut e = "invalid JSON in ".to_owned();
            push_str(&mut e, path);
            push_str(&mut e, ": ");
            push_str(&mut e, m.as_str());
            Err(e)
        },
        Ok(JsonValue::Object(ms)) => Ok(ms),
        Ok(_) => {
            let mut e = path.to_owned();
            push_str(&mut e, ": expected object");
            Err(e)
        },
    }
}

/// Merge one more schema file, its path and text, into the top-level
/// members gathered so far (see [`merge_file_members`]); a file that is no
/// JSON object leaves them as they are and gives its error.
pub fn merge_schema_file(merged: &mut Vec<(String, JsonValue)>, path: &str, text: &str) -> (r: Result<(), String>)
    ensures
        match file_members_spec(path@, json_parse(text@)) {
            Ok(ms) => r is Ok && jview_members(final(merged)@) == merge_file_members(
                jview_members(old(merged)@),
                ms,
            ),
            Err(e) => r matches Err(s) && s@ == e && final(merged)@ == old(merged)@,
        },
{
    let parsed = parse_json_text(text);
    match schema_file_members(path, parsed) {
        Ok(ms) => {
            merge_file(merged, &ms);
            Ok(())
        },
        Err(e) => Err(e),
    }
}

/// The top-level members of schema files merged in order (see
/// [`merge_file_members`]), or the error of the first file that is no JSON
/// object (see [`file_members_spec`]).
pub open spec fn merged_schema(files: Seq<(Seq<char>, Seq<char>)>) -> Result<Seq<(Seq<char>, JsonView)>, Seq<char>>
    decreases files.len(),
{
    if files.len() == 0 {
        Ok(seq![])
    } else {
        match merged_schema(files.drop_last()) {
            Err(e) => Err(e),
            Ok(acc) => match file_members_spec(files.last().0, json_parse(files.last().1)) {
                Err(e) => Err(e),
                Ok(ms) => Ok(merge_file_members(acc, ms)),
            },
        }
    }
}

proof fn lemma_merged_schema_error(files: Seq<(Seq<char>, Seq<char>)>, i: int)
    requires
        0 <= i <= files.len(),
        merged_schema(files.take(i)) is Err,
    ensures
        merged_schema(files) == merged_schema(files.take(i)),
    decreases files.len() - i,
{
    if i < files.len() {
        assert(files.take(i + 1).drop_last() =~= files.take(i));
        lemma_merged_schema_error(files, i + 1);
    } else {
        assert(files.take(i) =~= files);
    }
}

/// A merged schema document has distinct top-level keys.
pub proof fn law_merged_schema_keys_distinct(files: Seq<(Seq<char>, Seq<char>)>)
    ensures
        merged_schema(files) matches Ok(m) ==> distinct_keys(m),
    decreases files.len(),
{
    if files.len() > 0 {
        law_merged_schema_keys_distinct(files.drop_last());
        if let Ok(acc) = merged_schema(files.drop_last()) {
            if let Ok(ms) = file_members_spec(files.last().0, json_parse(files.last().1)) {
                law_merge_keeps_keys_distinct(acc, ms);
            }
        }
    }
}

/// A merged schema document lists its top-level keys in strictly ascending
/// order, whatever order the files give them in.
pub proof fn law_merged_schema_keys_ascending(files: Seq<(Seq<char>, Seq<char>)>)
    ensures
        merged_schema(files) matches Ok(m) ==> ascending_keys(m),
    decreases files.len(),
{
    if files.len() > 0 {
        law_merged_schema_keys_ascending(files.drop_last());
        if let Ok(acc) = merged_schema(files.drop_last()) {
            if let Ok(ms) = file_members_spec(files.last().0, json_parse(files.last().1)) {
                law_merge_keeps_keys_ascending(acc, ms);
            }
        }
    }
}

/// Merge schema files, given as paths and texts in the order they are read
/// (see [`merged_schema`]).
pub fn merge_schema_texts(files: &Vec<(String, String)>) -> (r: Result<Vec<(String, JsonValue)>, String>)
    ensures
        match merged_schema(file_texts(files@)) {
            Ok(m) => r matches Ok(v) && jview_members(v@) == m,
            Err(e) => r matches Err(s) && s@ == e,
        },
        r matches Ok(v) ==> distinct_keys(jview_members(v@)),
        r matches Ok(v) ==> ascending_keys(jview_members(v@)),
{
    proof {
        law_merged_schema_keys_distinct(file_texts(files@));
        law_merged_schema_keys_ascending(file_texts(files@));
    }
    let ghost fs = file_texts(files@);
    let mut merged: Vec<(String, JsonValue)> = Vec::new();
    assert(jview_members(merged@) =~= Seq::<(Seq<char>, JsonView)>::empty());
    assert(fs.take(0) =~= Seq::<(Seq<char>, Seq<char>)>::empty());
    for i in 0..files.len()
        invariant
            fs == file_texts(files@),
            merged_schema(fs.take(i as int)) == Ok::<Seq<(Seq<char>, JsonView)>, Seq<char>>(
                jview_members(merged@),
            ),
    {
        let (path, text) = &files[i];
        proof {
            assert(fs.take(i + 1).drop_last() =~= fs.take(i as int));
            assert(fs.take(i + 1).last() == (path@, text@));
        }
        match merge_schema_file(&mut merged, path.as_str(), text.as_str()) {
            Ok(()) => {},
            Err(e) => {
                proof {
                    lemma_merged_schema_error(fs, i + 1);
                }
                return Err(e);
            },
        }
    }
    assert(fs.take(files@.len() as int) =~= fs);
    Ok(merged)
}

} // verus!
