use uc_webserver::openapi::{
    collect_refs, validate, DocDefect, JsonValue, EXPECTED_OPERATIONS, EXPECTED_PATHS,
    SCHEMA_PREFIX,
};

fn s(x: &str) -> JsonValue {
    JsonValue::String(x.to_string())
}

fn obj(entries: Vec<(&str, JsonValue)>) -> JsonValue {
    JsonValue::Object(entries.into_iter().map(|(k, v)| (k.to_string(), v)).collect())
}

fn schema_ref(name: &str) -> JsonValue {
    obj(vec![("$ref", s(&format!("{SCHEMA_PREFIX}{name}")))])
}

/// A path item with the given HTTP methods, each answering a `$ref` body.
fn path_item(methods: &[&str], body: &str) -> JsonValue {
    obj(methods
        .iter()
        .map(|m| (*m, obj(vec![("responses", schema_ref(body)), ("summary", s("op"))])))
        .collect())
}

/// A document with `paths` path templates, the first `doubled` of which carry
/// two operations, and the given component names.
fn doc(paths: usize, doubled: usize, components: &[&str], body: &str) -> JsonValue {
    let mut items = Vec::new();
    for i in 0..paths {
        let methods: &[&str] = if i < doubled { &["get", "put"] } else { &["post"] };
        items.push((format!("/p{i}"), path_item(methods, body)));
    }
    let schemas = JsonValue::Object(
        components.iter().map(|c| (c.to_string(), obj(vec![("type", s("object"))]))).collect(),
    );
    JsonValue::Object(vec![
        ("openapi".to_string(), s("3.0.3")),
        ("paths".to_string(), JsonValue::Object(items)),
        ("components".to_string(), obj(vec![("schemas", schemas)])),
    ])
}

fn frozen_doc(components: &[&str], body: &str) -> JsonValue {
    doc(EXPECTED_PATHS, EXPECTED_OPERATIONS - EXPECTED_PATHS, components, body)
}

#[test]
fn collect_refs_walks_objects_and_arrays_in_order() {
    let v = obj(vec![
        ("$ref", s("#/components/schemas/A")),
        ("items", JsonValue::Array(vec![schema_ref("B"), JsonValue::Null, schema_ref("C")])),
        ("nested", obj(vec![("x", obj(vec![("$ref", s("#/components/schemas/D"))]))])),
        ("$ref", JsonValue::Number("3".to_string())),
        ("flag", JsonValue::Bool(true)),
    ]);
    let mut out = vec!["seed".to_string()];
    collect_refs(&v, &mut out);
    assert_eq!(
        out,
        vec![
            "seed",
            "#/components/schemas/A",
            "#/components/schemas/B",
            "#/components/schemas/C",
            "#/components/schemas/D"
        ]
    );
}

#[test]
fn a_sound_document_passes_with_the_frozen_counts() {
    let v = frozen_doc(&["Body", "Other"], "Body");
    match validate(&v) {
        Ok((p, o)) => assert_eq!((p, o), (74, 82)),
        Err(e) => panic!("unexpected defect {e:?}"),
    }
}

#[test]
fn missing_schemas_is_reported_first() {
    let v = obj(vec![("paths", obj(vec![])), ("components", obj(vec![("schemas", JsonValue::Array(vec![]))]))]);
    assert!(matches!(validate(&v), Err(DocDefect::MissingSchemas)));
    assert!(matches!(validate(&JsonValue::Null), Err(DocDefect::MissingSchemas)));
}

#[test]
fn a_document_without_refs_is_refused() {
    let v = obj(vec![("components", obj(vec![("schemas", obj(vec![("A", JsonValue::Null)]))]))]);
    assert!(matches!(validate(&v), Err(DocDefect::NoRefs)));
}

#[test]
fn the_first_non_schema_ref_is_reported() {
    let v = obj(vec![
        ("a", schema_ref("Missing")),
        ("b", obj(vec![("$ref", s("#/components/responses/Bad"))])),
        ("c", obj(vec![("$ref", s("elsewhere"))])),
        ("components", obj(vec![("schemas", obj(vec![("A", JsonValue::Null)]))])),
    ]);
    match validate(&v) {
        Err(DocDefect::NonSchemaRef(r)) => assert_eq!(r, "#/components/responses/Bad"),
        other => panic!("unexpected {other:?}"),
    }
}

#[test]
fn dangling_refs_are_listed_once_in_order() {
    let v = obj(vec![
        ("a", schema_ref("Zeta")),
        ("b", schema_ref("Known")),
        ("c", schema_ref("Alpha")),
        ("d", schema_ref("Zeta")),
        ("components", obj(vec![("schemas", obj(vec![("Known", JsonValue::Null)]))])),
    ]);
    match validate(&v) {
        Err(DocDefect::DanglingRefs(names)) => assert_eq!(names, vec!["Zeta", "Alpha"]),
        other => panic!("unexpected {other:?}"),
    }
}

#[test]
fn the_bare_generic_envelope_is_refused() {
    let v = frozen_doc(&["Body", "ApiEnvelope"], "Body");
    assert!(matches!(validate(&v), Err(DocDefect::BareGenericEnvelope)));
}

#[test]
fn missing_paths_is_refused() {
    let v = obj(vec![
        ("a", schema_ref("A")),
        ("paths", JsonValue::Array(vec![])),
        ("components", obj(vec![("schemas", obj(vec![("A", JsonValue::Null)]))])),
    ]);
    assert!(matches!(validate(&v), Err(DocDefect::MissingPaths)));
}

#[test]
fn a_wrong_path_count_is_reported() {
    let v = doc(EXPECTED_PATHS - 1, 8, &["Body"], "Body");
    assert!(matches!(validate(&v), Err(DocDefect::PathCount(73))));
}

#[test]
fn a_wrong_operation_count_is_reported() {
    let v = doc(EXPECTED_PATHS, 7, &["Body"], "Body");
    assert!(matches!(validate(&v), Err(DocDefect::OperationCount(81))));
    let v = doc(EXPECTED_PATHS, 9, &["Body"], "Body");
    assert!(matches!(validate(&v), Err(DocDefect::OperationCount(83))));
}

#[test]
fn non_method_keys_of_a_path_item_are_not_operations() {
    let mut v = frozen_doc(&["Body"], "Body");
    if let JsonValue::Object(top) = &mut v {
        if let JsonValue::Object(paths) = &mut top[1].1 {
            if let JsonValue::Object(item) = &mut paths[0].1 {
                item.push(("parameters".to_string(), JsonValue::Array(vec![])));
                item.push(("trace".to_string(), obj(vec![])));
            }
        }
    }
    assert!(matches!(validate(&v), Ok((74, 82))));
}
