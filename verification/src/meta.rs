//! The endpoint/provider metadata that native clients read, built from the
//! validated IR as a JSON value. Keys of JSON objects are unordered; the
//! writer of the text decides their order.

use vstd::prelude::*;
use crate::json::{jview, jview_members, jview_seq, lemma_jview_seq_index, lemma_members_view, JsonValue, JsonView};
use crate::json_text::{json_pretty, pretty_text};
use crate::schema::{ir_well_formed, keys_of, EndpointDef, Ir, ParamDef, Provider};
use crate::text::{nat_text, text_lt, u64_text};

verus! {

/// A text, or `null` when absent.
pub open spec fn jopt(o: Option<String>) -> JsonView {
    match o {
        Some(s) => JsonView::Str(s@),
        None => JsonView::Null,
    }
}

/// A list of texts.
pub open spec fn jstrs(v: Seq<String>) -> JsonView {
    JsonView::Array(v.map_values(|s: String| JsonView::Str(s@)))
}

/// The metadata of one endpoint parameter; its wire name defaults to its
/// name.
pub open spec fn param_meta(p: ParamDef) -> JsonView {
    JsonView::Object(
        seq![
            ("name"@, JsonView::Str(p.name@)),
            ("json"@, JsonView::Str(match p.json {
                Some(j) => j@,
                None => p.name@,
            })),
            ("in"@, JsonView::Str(p.in_@)),
            ("type"@, JsonView::Str(p.type_@)),
            ("required"@, JsonView::Bool(p.required)),
            ("default"@, match p.default {
                Some(d) => d@,
                None => JsonView::Null,
            }),
            ("doc"@, jopt(p.doc)),
            ("group"@, jopt(p.group)),
            ("dbOnly"@, JsonView::Bool(p.db_only)),
        ],
    )
}

/// The metadata of one endpoint.
pub open spec fn endpoint_meta(e: EndpointDef) -> JsonView {
    JsonView::Object(
        seq![
            ("id"@, JsonView::Str(e.id@)),
            ("method"@, JsonView::Str(e.method@)),
            ("path"@, JsonView::Str(e.path@)),
            ("doc"@, jopt(e.doc)),
            ("capability"@, jopt(e.capability)),
            ("responseType"@, JsonView::Str(e.response_type@)),
            ("params"@, JsonView::Array(e.params@.map_values(|p: ParamDef| param_meta(p)))),
        ],
    )
}

/// The metadata of one provider.
pub open spec fn provider_meta(p: (String, Provider)) -> JsonView {
    JsonView::Object(
        seq![
            ("id"@, JsonView::Str(p.0@)),
            ("baseUrl"@, JsonView::Str(p.1.base_url@)),
            ("region"@, JsonView::Str(p.1.region@)),
        ],
    )
}

/// The whole metadata document.
pub open spec fn meta_view(ir: Ir) -> JsonView {
    JsonView::Object(
        seq![
            ("$generated-by"@, JsonView::Str("transport-rest-gen"@)),
            ("schemaVersion"@, JsonView::Number(nat_text(ir.schema_version as nat))),
            ("providers"@, JsonView::Array(
                ir.providers@.map_values(|p: (String, Provider)| provider_meta(p)),
            )),
            ("productKeys"@, JsonView::Object(
                seq![("db"@, jstrs(ir.rest.product_keys_db@)), ("bvg"@, jstrs(ir.rest.product_keys_bvg@))],
            )),
            ("endpoints"@, JsonView::Array(
                ir.rest.endpoints@.map_values(|e: EndpointDef| endpoint_meta(e)),
            )),
        ],
    )
}

fn opt_json(o: &Option<String>) -> (r: JsonValue)
    ensures
        r@ == jopt(*o),
{
    match o {
        Some(s) => JsonValue::Str(s.clone()),
        None => JsonValue::Null,
    }
}

fn member(k: &str, v: JsonValue) -> (r: (String, JsonValue))
    ensures
        r.0@ == k@,
        r.1 == v,
{
    (k.to_owned(), v)
}

fn strs_json(v: &Vec<String>) -> (r: JsonValue)
    ensures
        r@ == jstrs(v@),
{
    let mut out: Vec<JsonValue> = Vec::new();
    for i in 0..v.len()
        invariant
            out@.len() == i,
            forall|j: int| 0 <= j < i ==> #[trigger] jview(out@[j]) == JsonView::Str(v@[j]@),
    {
        out.push(JsonValue::Str(v[i].clone()));
    }
    proof {
        lemma_jview_seq_index(out@);
        assert(jview_seq(out@) =~= v@.map_values(|s: String| JsonView::Str(s@)));
    }
    JsonValue::Array(out)
}

fn param_json(p: &ParamDef) -> (r: JsonValue)
    ensures
        r@ == param_meta(*p),
{
    let json = match &p.json {
        Some(j) => j.clone(),
        None => p.name.clone(),
    };
    let default = match &p.default {
        Some(d) => d.clone(),
        None => JsonValue::Null,
    };
    let members = vec![
        member("name", JsonValue::Str(p.name.clone())),
        member("json", JsonValue::Str(json)),
        member("in", JsonValue::Str(p.in_.clone())),
        member("type", JsonValue::Str(p.type_.clone())),
        member("required", JsonValue::Bool(p.required)),
        member("default", default),
        member("doc", opt_json(&p.doc)),
        member("group", opt_json(&p.group)),
        member("dbOnly", JsonValue::Bool(p.db_only)),
    ];
    proof {
        lemma_members_view(members@);
        assert(jview_members(members@) =~= (match param_meta(*p) {
            JsonView::Object(m) => m,
            _ => seq![],
        }));
    }
    JsonValue::Object(members)
}

fn endpoint_json(e: &EndpointDef) -> (r: JsonValue)
    ensures
        r@ == endpoint_meta(*e),
{
    let mut params: Vec<JsonValue> = Vec::new();
    for i in 0..e.params.len()
        invariant
            params@.len() == i,
            forall|j: int| 0 <= j < i ==> #[trigger] jview(params@[j]) == param_meta(e.params@[j]),
    {
        params.push(param_json(&e.params[i]));
    }
    proof {
        lemma_jview_seq_index(params@);
        assert(jview_seq(params@) =~= e.params@.map_values(|p: ParamDef| param_meta(p)));
    }
    let members = vec![
        member("id", JsonValue::Str(e.id.clone())),
        member("method", JsonValue::Str(e.method.clone())),
        member("path", JsonValue::Str(e.path.clone())),
        member("doc", opt_json(&e.doc)),
        member("capability", opt_json(&e.capability)),
        member("responseType", JsonValue::Str(e.response_type.clone())),
        member("params", JsonValue::Array(params)),
    ];
    proof {
        lemma_members_view(members@);
        assert(jview_members(members@) =~= (match endpoint_meta(*e) {
            JsonView::Object(m) => m,
            _ => seq![],
        }));
    }
    JsonValue::Object(members)
}

fn provider_json(p: &(String, Provider)) -> (r: JsonValue)
    ensures
        r@ == provider_meta(*p),
{
    let members = vec![
        member("id", JsonValue::Str(p.0.clone())),
        member("baseUrl", JsonValue::Str(p.1.base_url.clone())),
        member("region", JsonValue::Str(p.1.region.clone())),
    ];
    proof {
        lemma_members_view(members@);
        assert(jview_members(members@) =~= (match provider_meta(*p) {
            JsonView::Object(m) => m,
            _ => seq![],
        }));
    }
    JsonValue::Object(members)
}

/// Build the metadata document of a validated IR (see [`meta_view`]).
pub fn emit(ir: &Ir) -> (r: JsonValue)
    ensures
        r@ == meta_view(*ir),
{
    let mut providers: Vec<JsonValue> = Vec::new();
    for i in 0..ir.providers.len()
        invariant
            providers@.len() == i,
            forall|j: int| 0 <= j < i ==> #[trigger] jview(providers@[j]) == provider_meta(
                ir.providers@[j],
            ),
    {
        providers.push(provider_json(&ir.providers[i]));
    }
    proof {
        lemma_jview_seq_index(providers@);
        assert(jview_seq(providers@) =~= ir.providers@.map_values(
            |p: (String, Provider)| provider_meta(p),
        ));
    }
    let mut endpoints: Vec<JsonValue> = Vec::new();
    for i in 0..ir.rest.endpoints.len()
        invariant
            endpoints@.len() == i,
            forall|j: int| 0 <= j < i ==> #[trigger] jview(endpoints@[j]) == endpoint_meta(
                ir.rest.endpoints@[j],
            ),
    {
        endpoints.push(endpoint_json(&ir.rest.endpoints[i]));
    }
    proof {
        lemma_jview_seq_index(endpoints@);
        assert(jview_seq(endpoints@) =~= ir.rest.endpoints@.map_values(
            |e: EndpointDef| endpoint_meta(e),
        ));
    }
    let keys = vec![
        member("db", strs_json(&ir.rest.product_keys_db)),
        member("bvg", strs_json(&ir.rest.product_keys_bvg)),
    ];
    proof {
        lemma_members_view(keys@);
        assert(jview_members(keys@) =~= seq![
            ("db"@, jstrs(ir.rest.product_keys_db@)),
            ("bvg"@, jstrs(ir.rest.product_keys_bvg@)),
        ]);
    }
    let members = vec![
        member("$generated-by", JsonValue::Str("transport-rest-gen".to_owned())),
        member("schemaVersion", JsonValue::Number(u64_text(ir.schema_version as u64))),
        member("providers", JsonValue::Array(providers)),
        member("productKeys", JsonValue::Object(keys)),
        member("endpoints", JsonValue::Array(endpoints)),
    ];
    proof {
        lemma_members_view(members@);
        assert(jview_members(members@) =~= (match meta_view(*ir) {
            JsonView::Object(m) => m,
            _ => seq![],
        }));
    }
    JsonValue::Object(members)
}


/// The metadata file's text: the document written indented, with a final
/// newline. The same IR always gives the same text.
pub fn emit_text(ir: &Ir) -> (r: String)
    ensures
        r@ == json_pretty(meta_view(*ir)) + seq!['\n'],
{
    let doc = emit(ir);
    pretty_text(&doc)
}

/// The metadata document depends on the schema version, the providers,
/// the product keys and the endpoints only: two schemas that agree on them
/// give the same document, whatever their models, enums or aliases.
pub proof fn law_meta_depends_on_endpoints_and_providers(a: Ir, b: Ir)
    requires
        a.schema_version == b.schema_version,
        a.providers@ == b.providers@,
        a.rest.product_keys_db@ == b.rest.product_keys_db@,
        a.rest.product_keys_bvg@ == b.rest.product_keys_bvg@,
        a.rest.endpoints@ == b.rest.endpoints@,
    ensures
        meta_view(a) == meta_view(b),
{
}

/// The metadata document lists the providers in the IR's order, so for a
/// well-formed IR in strictly ascending order of their ids.
pub proof fn law_meta_providers_in_key_order(ir: Ir, i: int, j: int)
    requires
        ir_well_formed(ir),
        0 <= i < j < ir.providers@.len(),
    ensures
        ({
            &&& meta_view(ir) matches JsonView::Object(m)
            &&& m[2].0 == "providers"@
            &&& m[2].1 == JsonView::Array(ir.providers@.map_values(|p: (String, Provider)| provider_meta(p)))
        }),
        ir.providers@.map_values(|p: (String, Provider)| provider_meta(p))[i] == provider_meta(ir.providers@[i]),
        ir.providers@.map_values(|p: (String, Provider)| provider_meta(p))[j] == provider_meta(ir.providers@[j]),
        text_lt(ir.providers@[i].0@, ir.providers@[j].0@),
{
    assert(keys_of(ir.providers@)[i] == ir.providers@[i].0@);
    assert(keys_of(ir.providers@)[j] == ir.providers@[j].0@);
}

/// Target of the binding generator.
#[derive(Debug, Clone, Copy, PartialEq, Eq, Structural)]
pub enum Lang {
    /// TypeScript models.
    TypeScript,
    /// Go models.
    Go,
    /// C# models.
    Csharp,
    /// Java models.
    Java,
    /// Canonical endpoint/provider metadata (JSON), consumed by native
    /// clients.
    Meta,
}

/// The output file name of a target.
pub open spec fn lang_file_name(l: Lang) -> Seq<char> {
    match l {
        Lang::TypeScript => "models.ts"@,
        Lang::Go => "models_gen.go"@,
        Lang::Csharp => "Models.Generated.cs"@,
        Lang::Java => "GeneratedModels.java"@,
        Lang::Meta => "api-meta.json"@,
    }
}

impl Lang {
    /// The output file name; the output directory is chosen by the user.
    pub fn file_name(self) -> (r: &'static str)
        ensures
            r@ == lang_file_name(self),
    {
        match self {
            Lang::TypeScript => "models.ts",
            Lang::Go => "models_gen.go",
            Lang::Csharp => "Models.Generated.cs",
            Lang::Java => "GeneratedModels.java",
            Lang::Meta => "api-meta.json",
        }
    }
}

} // verus!
