use transport_rest::json::{merge_file, merge_objects, JsonValue};
use transport_rest::json_text::{merge_schema_file, merge_schema_texts, schema_file_members, schema_file_names};
use transport_rest::meta::{emit, emit_text, Lang};
use transport_rest::text::str_less;
use transport_rest::schema::{
    check_type, ir_keys_in_order, keys_in_order, validate, AliasDef, EndpointDef, FieldDef, Ir, ModelDef, ParamDef, Provider, Rest,
};

fn known(names: &[&str]) -> Vec<String> {
    names.iter().map(|s| s.to_string()).collect()
}

#[test]
fn type_references_are_unwrapped() {
    let k = known(&["string", "Stop"]);
    assert!(check_type("string", &k).is_ok());
    assert!(check_type("list<Stop>", &k).is_ok());
    assert!(check_type("map<list<string>>", &k).is_ok());
    assert_eq!(
        check_type("list<map<NoSuchType>>", &k).unwrap_err(),
        "unknown type 'NoSuchType' referenced in schema"
    );
    assert_eq!(
        check_type("list<Stop", &k).unwrap_err(),
        "unknown type 'list<Stop' referenced in schema"
    );
    assert_eq!(
        check_type("list<>", &k).unwrap_err(),
        "unknown type '' referenced in schema"
    );
}

fn field(name: &str, ty: &str) -> FieldDef {
    FieldDef {
        name: name.into(),
        json: None,
        type_: ty.into(),
        opt: false,
        db_only: false,
        doc: None,
    }
}

fn rest() -> Rest {
    Rest {
        enums: vec![],
        aliases: vec![(
            "Ids".into(),
            AliasDef { type_: "map<string>".into(), doc: None },
        )],
        unions: vec![],
        models: vec![(
            "Stop".into(),
            ModelDef { doc: None, fields: vec![field("id", "string"), field("ids", "Ids")] },
        )],
        envelopes: vec![],
        list_responses: vec![],
        endpoints: vec![],
        product_keys_db: vec!["bus".into()],
        product_keys_bvg: vec![],
    }
}

fn ir(rest: Rest) -> Ir {
    Ir {
        schema_version: 1,
        name: "t".into(),
        providers: vec![(
            "db".into(),
            Provider { base_url: "https://v6.db.transport.rest".into(), region: "DE".into() },
        )],
        capabilities: None,
        rest,
    }
}

#[test]
fn rejects_unknown_type_references() {
    let mut r = rest();
    r.models = vec![(
        "X".into(),
        ModelDef { doc: None, fields: vec![field("a", "NoSuchType")] },
    )];
    let err = validate(&ir(r)).unwrap_err();
    assert!(err.contains("unknown type 'NoSuchType'"), "got {err}");
}

#[test]
fn valid_schema_and_first_error() {
    assert!(validate(&ir(rest())).is_ok());
    let mut r = rest();
    r.envelopes = vec![(
        "E".into(),
        ModelDef { doc: None, fields: vec![field("x", "list<Later>")] },
    )];
    r.aliases.push(("Bad".into(), AliasDef { type_: "First".into(), doc: None }));
    assert_eq!(
        validate(&ir(r)).unwrap_err(),
        "unknown type 'First' referenced in schema"
    );
}

fn obj(members: Vec<(&str, JsonValue)>) -> JsonValue {
    JsonValue::Object(members.into_iter().map(|(k, v)| (k.to_string(), v)).collect())
}

fn s(t: &str) -> JsonValue {
    JsonValue::Str(t.into())
}

#[test]
fn split_files_merge_entry_wise() {
    let mut target = obj(vec![
        ("keep", obj(vec![("x", s("1"))])),
        ("models", obj(vec![("Stop", s("a"))])),
        ("name", s("old")),
    ]);
    let new = match obj(vec![
        ("models", obj(vec![("Trip", s("b"))])),
        ("name", s("new")),
        ("keep", s("scalar")),
        ("endpoints", JsonValue::Array(vec![s("e")])),
    ]) {
        JsonValue::Object(m) => m,
        _ => unreachable!(),
    };
    merge_objects(&mut target, &new);
    let expected = obj(vec![
        ("endpoints", JsonValue::Array(vec![s("e")])),
        ("keep", obj(vec![("x", s("1"))])),
        ("models", obj(vec![("Stop", s("a")), ("Trip", s("b"))])),
        ("name", s("new")),
    ]);
    assert_eq!(format!("{target:?}"), format!("{expected:?}"));
    // a target that is no object is left alone
    let mut t = s("x");
    merge_objects(&mut t, &new);
    assert_eq!(format!("{t:?}"), format!("{:?}", s("x")));
}

#[test]
fn metadata_document() {
    let mut r = rest();
    r.endpoints = vec![EndpointDef {
        id: "journeys".into(),
        method: "GET".into(),
        path: "/journeys".into(),
        doc: None,
        response_type: "JourneysResponse".into(),
        capability: None,
        params: vec![ParamDef {
            name: "from".into(),
            json: None,
            in_: "query".into(),
            type_: "string".into(),
            required: true,
            default: None,
            doc: None,
            group: None,
            db_only: false,
        }],
    }];
    let doc = emit(&ir(r));
    let text = format!("{doc:?}");
    assert!(text.contains("\"schemaVersion\", Number(\"1\")"), "{text}");
    assert!(text.contains("\"json\", Str(\"from\")"), "{text}");
    assert!(text.contains("\"default\", Null"), "{text}");
    assert!(text.contains("\"baseUrl\", Str(\"https://v6.db.transport.rest\")"), "{text}");
    assert_eq!(Lang::Meta.file_name(), "api-meta.json");
    assert_eq!(Lang::Csharp.file_name(), "Models.Generated.cs");
}

fn members(v: JsonValue) -> Vec<(String, JsonValue)> {
    match v {
        JsonValue::Object(m) => m,
        _ => unreachable!(),
    }
}

#[test]
fn later_schema_files_replace_document_keys() {
    let mut merged = Vec::new();
    merge_file(
        &mut merged,
        &members(obj(vec![
            ("$schema-version", JsonValue::Number("1".into())),
            ("name", s("base")),
            ("models", obj(vec![("Stop", s("a"))])),
        ])),
    );
    merge_file(
        &mut merged,
        &members(obj(vec![
            ("name", obj(vec![("odd", s("but allowed"))])),
            ("models", obj(vec![("Trip", s("b"))])),
        ])),
    );
    merge_file(&mut merged, &members(obj(vec![("name", s("final"))])));
    let expected = members(obj(vec![
        ("$schema-version", JsonValue::Number("1".into())),
        ("models", obj(vec![("Stop", s("a")), ("Trip", s("b"))])),
        ("name", s("final")),
    ]));
    assert_eq!(format!("{merged:?}"), format!("{expected:?}"));
}

#[test]
fn schema_files_are_picked_and_ordered() {
    let names: Vec<String> = ["types.json", "README.md", ".json", "base.json", "x.json.bak", "a.b.json"]
        .iter()
        .map(|s| s.to_string())
        .collect();
    assert_eq!(
        schema_file_names(&names),
        vec!["a.b.json".to_string(), "base.json".to_string(), "types.json".to_string()]
    );
}

#[test]
fn schema_file_order_does_not_depend_on_the_listing() {
    let one: Vec<String> = ["b.json", "notes.txt", "a.json", "c.json"].iter().map(|s| s.to_string()).collect();
    let two: Vec<String> = ["c.json", "a.json", "b.json", "Cargo.toml", "x.yaml"]
        .iter()
        .map(|s| s.to_string())
        .collect();
    assert_eq!(schema_file_names(&one), schema_file_names(&two));
    assert_eq!(schema_file_names(&one), vec!["a.json".to_string(), "b.json".to_string(), "c.json".to_string()]);
}

#[test]
fn schema_texts_merge_in_order_and_report_the_first_bad_file() {
    let files = vec![
        ("s/base.json".to_string(), r#"{"name": "t", "models": {"Stop": {"fields": []}}}"#.to_string()),
        ("s/models.json".to_string(), r#"{"models": {"Trip": {"fields": []}}, "name": "u"}"#.to_string()),
    ];
    let merged = merge_schema_texts(&files).unwrap();
    let text = format!("{merged:?}");
    assert!(text.contains("\"Stop\"") && text.contains("\"Trip\""), "{text}");
    assert!(text.contains("(\"name\", Str(\"u\"))"), "{text}");

    let mut bad = files.clone();
    bad.push(("s/list.json".to_string(), "[1]".to_string()));
    bad.push(("s/broken.json".to_string(), "{".to_string()));
    assert_eq!(merge_schema_texts(&bad).unwrap_err(), "s/list.json: expected object");
    let broken = vec![("s/broken.json".to_string(), "{".to_string())];
    let e = merge_schema_texts(&broken).unwrap_err();
    let serde_msg = serde_json::from_str::<serde_json::Value>("{").unwrap_err().to_string();
    assert_eq!(e, format!("invalid JSON in s/broken.json: {serde_msg}"));
}

#[test]
fn metadata_text_is_indented_json_with_a_final_newline() {
    let text = emit_text(&ir(rest()));
    assert!(text.ends_with("}\n"));
    let v: serde_json::Value = serde_json::from_str(&text).unwrap();
    assert_eq!(v["$generated-by"], "transport-rest-gen");
    assert_eq!(v["schemaVersion"], 1);
    assert_eq!(v["providers"][0]["baseUrl"], "https://v6.db.transport.rest");
    assert_eq!(v["productKeys"]["db"][0], "bus");
    assert!(text.starts_with("{\n  \"$generated-by\": \"transport-rest-gen\",\n  \"endpoints\": []"), "{text}");
    assert_eq!(text, emit_text(&ir(rest())));
}

#[test]
fn key_order_is_code_point_order() {
    assert!(str_less("a", "b"));
    assert!(str_less("ab", "abc"));
    assert!(str_less("Z", "a"));
    assert!(str_less("", "a"));
    assert!(!str_less("abc", "ab"));
    assert!(!str_less("same", "same"));
    assert!(!str_less("b", "a"));
    assert!(str_less("z", "é"));
    assert!(keys_in_order(&vec![("a".to_string(), 1), ("b".to_string(), 2), ("c".to_string(), 3)]));
    assert!(!keys_in_order(&vec![("b".to_string(), 1), ("a".to_string(), 2)]));
    assert!(!keys_in_order(&vec![("a".to_string(), 1), ("a".to_string(), 2)]));
    assert!(keys_in_order::<u8>(&vec![]));
}

#[test]
fn metadata_lists_providers_in_key_order() {
    let mut doc_ir = ir(rest());
    doc_ir.providers = vec![
        ("bvg".into(), Provider { base_url: "https://v6.bvg.transport.rest".into(), region: "Berlin".into() }),
        ("db".into(), Provider { base_url: "https://v6.db.transport.rest".into(), region: "DE".into() }),
    ];
    assert!(ir_keys_in_order(&doc_ir));
    let text = format!("{:?}", emit(&doc_ir));
    let bvg = text.find("\"id\", Str(\"bvg\")").unwrap();
    let db = text.find("\"id\", Str(\"db\")").unwrap();
    assert!(bvg < db, "{text}");

    let mut swapped = doc_ir.clone();
    swapped.providers.reverse();
    assert!(!ir_keys_in_order(&swapped));
}

#[test]
fn merged_keys_take_their_place_in_key_order() {
    let mut target = obj(vec![]);
    let new = members(obj(vec![("b", s("2")), ("a", s("1")), ("c", s("3")), ("a", s("again"))]));
    merge_objects(&mut target, &new);
    let expected = obj(vec![("a", s("again")), ("b", s("2")), ("c", s("3"))]);
    assert_eq!(format!("{target:?}"), format!("{expected:?}"));

    let files = vec![
        ("z.json".to_string(), r#"{"name": "t", "models": {}}"#.to_string()),
        ("y.json".to_string(), r#"{"endpoints": [], "aliases": {}}"#.to_string()),
    ];
    let keys: Vec<String> = merge_schema_texts(&files).unwrap().into_iter().map(|(k, _)| k).collect();
    assert_eq!(keys, vec!["aliases", "endpoints", "models", "name"]);
}

#[test]
fn one_schema_file_at_a_time() {
    assert_eq!(schema_file_members("s/a.json", Err("EOF".into())).unwrap_err(), "invalid JSON in s/a.json: EOF");
    assert_eq!(schema_file_members("s/a.json", Ok(JsonValue::Null)).unwrap_err(), "s/a.json: expected object");
    assert_eq!(schema_file_members("s/a.json", Ok(JsonValue::Object(vec![]))).unwrap().len(), 0);

    let mut merged = Vec::new();
    merge_schema_file(&mut merged, "a.json", r#"{"name": "a", "models": {"Stop": {}}}"#).unwrap();
    let before = format!("{merged:?}");
    assert!(merge_schema_file(&mut merged, "b.json", "[]").unwrap_err().contains("b.json: expected object"));
    assert!(merge_schema_file(&mut merged, "c.json", "{").unwrap_err().starts_with("invalid JSON in c.json: "));
    assert_eq!(format!("{merged:?}"), before);
    merge_schema_file(&mut merged, "d.json", r#"{"models": {"Trip": {}}}"#).unwrap();
    let text = format!("{merged:?}");
    assert!(text.contains("\"Stop\"") && text.contains("\"Trip\""), "{text}");
}
