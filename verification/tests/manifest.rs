use hpm::errors::ManifestError;
use hpm::json::{parse_json, print_json, Json};
use hpm::manifest::{
    append_to_document, initialize, manifest_of_json, manifest_to_json, parse_manifest,
    render_manifest, update, Manifest,
};

fn text(s: &str) -> Json {
    Json::Text(s.to_string())
}

fn object(members: Vec<(&str, Json)>) -> Json {
    Json::Object(members.into_iter().map(|(k, v)| (k.to_string(), v)).collect())
}

#[test]
fn fresh_manifest_has_no_modules() {
    let manifest = initialize("demo".to_string());
    assert_eq!(manifest.name, "demo");
    assert!(manifest.modules.is_empty());
}

#[test]
fn append_keeps_the_order() {
    let mut manifest = initialize("demo".to_string());
    manifest.append_module("a".to_string());
    manifest.append_module("b".to_string());
    assert_eq!(manifest.modules, vec!["a", "b"]);
    assert_eq!(manifest.name, "demo");
}

#[test]
fn append_keeps_what_was_there() {
    let mut manifest = Manifest {
        name: "p".to_string(),
        modules: vec!["x".to_string(), "y".to_string()],
    };
    manifest.append_module("z".to_string());
    assert_eq!(manifest.modules, vec!["x", "y", "z"]);
}

#[test]
fn append_allows_duplicates() {
    let mut manifest = initialize("p".to_string());
    manifest.append_module("a".to_string());
    manifest.append_module("a".to_string());
    assert_eq!(manifest.modules, vec!["a", "a"]);
}

#[test]
fn initialize_again_drops_the_modules() {
    let mut manifest = initialize("demo".to_string());
    manifest.append_module("a".to_string());
    let again = initialize(manifest.name.clone());
    assert_eq!(again, Manifest { name: "demo".to_string(), modules: Vec::new() });
}

#[test]
fn fresh_manifest_is_written_indented() {
    let rendered = render_manifest(&initialize("demo".to_string()));
    assert_eq!(rendered, Ok("{\n  \"modules\": [],\n  \"name\": \"demo\"\n}".to_string()));
}

#[test]
fn manifest_with_modules_is_written_indented() {
    let manifest = Manifest {
        name: "demo".to_string(),
        modules: vec!["a".to_string(), "b".to_string()],
    };
    assert_eq!(
        render_manifest(&manifest),
        Ok("{\n  \"modules\": [\n    \"a\",\n    \"b\"\n  ],\n  \"name\": \"demo\"\n}".to_string())
    );
}

#[test]
fn written_manifest_is_read_back() {
    let manifest = Manifest {
        name: "quo\"te \\ ünï\n".to_string(),
        modules: vec!["a".to_string(), "".to_string(), "b/c".to_string()],
    };
    let rendered = render_manifest(&manifest).unwrap();
    assert_eq!(parse_manifest(&rendered), Ok(manifest));
}

#[test]
fn update_appends_to_the_text() {
    let before = "{\"name\": \"demo\", \"modules\": []}";
    let after = update(Some(before), "a").unwrap();
    assert_eq!(after, "{\n  \"modules\": [\n    \"a\"\n  ],\n  \"name\": \"demo\"\n}");
    let last = update(Some(&after), "b").unwrap();
    assert_eq!(last, "{\n  \"modules\": [\n    \"a\",\n    \"b\"\n  ],\n  \"name\": \"demo\"\n}");
    assert_eq!(parse_manifest(&last).unwrap().modules, vec!["a", "b"]);
}

#[test]
fn update_keeps_existing_entries() {
    let before = "{\"modules\": [\"x\", \"y\"], \"name\": \"p\"}";
    let after = update(Some(before), "z").unwrap();
    let manifest = parse_manifest(&after).unwrap();
    assert_eq!(manifest.name, "p");
    assert_eq!(manifest.modules, vec!["x", "y", "z"]);
}

#[test]
fn update_without_a_file_is_not_found() {
    assert_eq!(update(None, "a"), Err(ManifestError::NotFound));
}

#[test]
fn update_of_text_that_is_no_json_is_malformed() {
    assert_eq!(update(Some("not json"), "a"), Err(ManifestError::Malformed));
    assert_eq!(update(Some(""), "a"), Err(ManifestError::Malformed));
    assert_eq!(update(Some("{\"name\": \"p\", \"modules\": ["), "a"), Err(ManifestError::Malformed));
}

#[test]
fn update_of_a_document_of_another_shape_is_malformed() {
    assert_eq!(update(Some("[]"), "a"), Err(ManifestError::Malformed));
    assert_eq!(update(Some("null"), "a"), Err(ManifestError::Malformed));
    assert_eq!(update(Some("{}"), "a"), Err(ManifestError::Malformed));
    assert_eq!(update(Some("{\"name\": \"p\"}"), "a"), Err(ManifestError::Malformed));
    assert_eq!(
        update(Some("{\"name\": \"p\", \"modules\": {}}"), "a"),
        Err(ManifestError::Malformed)
    );
    assert_eq!(
        update(Some("{\"name\": \"p\", \"modules\": \"a\"}"), "a"),
        Err(ManifestError::Malformed)
    );
    assert_eq!(
        update(Some("{\"name\": \"p\", \"modules\": null}"), "a"),
        Err(ManifestError::Malformed)
    );
}

#[test]
fn update_keeps_every_other_member() {
    let before = "{\"name\":\"p\",\"version\":2,\"modules\":[\"x\"],\"extra\":{\"k\":[1,null]}}";
    let after = update(Some(before), "y").unwrap();
    assert_eq!(
        after,
        "{\n  \"extra\": {\n    \"k\": [\n      1,\n      null\n    ]\n  },\n  \"modules\": [\n    \"x\",\n    \"y\"\n  ],\n  \"name\": \"p\",\n  \"version\": 2\n}"
    );
}

#[test]
fn update_needs_nothing_but_a_list_of_modules() {
    assert_eq!(update(Some("{\"modules\": []}"), "a"), Ok("{\n  \"modules\": [\n    \"a\"\n  ]\n}".to_string()));
    assert_eq!(
        update(Some("{\"modules\": [1, true]}"), "a"),
        Ok("{\n  \"modules\": [\n    1,\n    true,\n    \"a\"\n  ]\n}".to_string())
    );
}

#[test]
fn update_after_a_fresh_start_lists_the_new_module_only() {
    let first = render_manifest(&initialize("demo".to_string())).unwrap();
    let grown = update(Some(&update(Some(&first), "a").unwrap()), "b").unwrap();
    assert_eq!(parse_manifest(&grown).unwrap().modules, vec!["a", "b"]);
    let again = render_manifest(&initialize("demo".to_string())).unwrap();
    assert_eq!(again, first);
    let regrown = update(Some(&again), "c").unwrap();
    assert_eq!(parse_manifest(&regrown).unwrap().modules, vec!["c"]);
}

#[test]
fn document_takes_a_module_behind_the_others() {
    let doc = object(vec![
        ("name", text("p")),
        ("modules", Json::List(vec![text("a")])),
        ("other", Json::Bool(true)),
    ]);
    assert_eq!(
        append_to_document(doc, "b".to_string()),
        Ok(object(vec![
            ("name", text("p")),
            ("modules", Json::List(vec![text("a"), text("b")])),
            ("other", Json::Bool(true)),
        ]))
    );
}

#[test]
fn document_takes_a_module_in_its_last_list_of_modules() {
    let doc = object(vec![
        ("modules", Json::List(vec![text("old")])),
        ("modules", Json::List(Vec::new())),
    ]);
    assert_eq!(
        append_to_document(doc, "m".to_string()),
        Ok(object(vec![
            ("modules", Json::List(vec![text("old")])),
            ("modules", Json::List(vec![text("m")])),
        ]))
    );
}

#[test]
fn document_without_a_list_of_modules_takes_none() {
    assert_eq!(append_to_document(Json::Null, "m".to_string()), Err(ManifestError::Malformed));
    assert_eq!(
        append_to_document(Json::List(Vec::new()), "m".to_string()),
        Err(ManifestError::Malformed)
    );
    assert_eq!(
        append_to_document(object(vec![("name", text("p"))]), "m".to_string()),
        Err(ManifestError::Malformed)
    );
    assert_eq!(
        append_to_document(
            object(vec![("modules", Json::List(Vec::new())), ("modules", Json::Null)]),
            "m".to_string()
        ),
        Err(ManifestError::Malformed)
    );
}

#[test]
fn text_of_another_shape_is_no_manifest() {
    assert_eq!(parse_manifest("not json"), Err(ManifestError::Malformed));
    assert_eq!(parse_manifest("{\"modules\": []}"), Err(ManifestError::Malformed));
    assert_eq!(parse_manifest("{\"name\": \"p\"}"), Err(ManifestError::Malformed));
    assert_eq!(
        parse_manifest("{\"name\": \"p\", \"modules\": [\"a\", 1]}"),
        Err(ManifestError::Malformed)
    );
    assert_eq!(
        parse_manifest("{\"name\": 3, \"modules\": []}"),
        Err(ManifestError::Malformed)
    );
    assert_eq!(
        parse_manifest("{\"name\": \"p\", \"modules\": [], \"more\": 1}"),
        Ok(Manifest { name: "p".to_string(), modules: Vec::new() })
    );
}

#[test]
fn manifest_document_has_name_and_modules() {
    let manifest = Manifest { name: "p".to_string(), modules: vec!["a".to_string()] };
    assert_eq!(
        manifest_to_json(&manifest),
        object(vec![("name", text("p")), ("modules", Json::List(vec![text("a")]))])
    );
}

#[test]
fn manifest_is_read_out_of_a_document() {
    let doc = object(vec![
        ("modules", Json::List(vec![text("a"), text("b")])),
        ("extra", Json::Null),
        ("name", text("p")),
    ]);
    assert_eq!(
        manifest_of_json(&doc),
        Ok(Manifest { name: "p".to_string(), modules: vec!["a".to_string(), "b".to_string()] })
    );
}

#[test]
fn later_member_replaces_an_earlier_one() {
    let doc = object(vec![
        ("name", text("first")),
        ("modules", Json::Bool(true)),
        ("name", text("second")),
        ("modules", Json::List(Vec::new())),
    ]);
    assert_eq!(
        manifest_of_json(&doc),
        Ok(Manifest { name: "second".to_string(), modules: Vec::new() })
    );
    let doc = object(vec![
        ("name", text("p")),
        ("modules", Json::List(Vec::new())),
        ("modules", Json::Null),
    ]);
    assert_eq!(manifest_of_json(&doc), Err(ManifestError::Malformed));
}

#[test]
fn documents_of_another_shape_hold_no_manifest() {
    assert_eq!(manifest_of_json(&Json::Null), Err(ManifestError::Malformed));
    assert_eq!(manifest_of_json(&Json::List(Vec::new())), Err(ManifestError::Malformed));
    assert_eq!(manifest_of_json(&object(Vec::new())), Err(ManifestError::Malformed));
    assert_eq!(
        manifest_of_json(&object(vec![("name", text("p")), ("modules", text("a"))])),
        Err(ManifestError::Malformed)
    );
    assert_eq!(
        manifest_of_json(&object(vec![
            ("name", text("p")),
            ("modules", Json::List(vec![text("a"), Json::Bool(false)])),
        ])),
        Err(ManifestError::Malformed)
    );
}

#[test]
fn json_text_is_read_as_a_document() {
    let doc = parse_json("{\"b\": [true, null, \"x\"], \"a\": {}}").unwrap();
    assert_eq!(
        doc,
        object(vec![
            ("a", object(Vec::new())),
            ("b", Json::List(vec![Json::Bool(true), Json::Null, text("x")])),
        ])
    );
    assert_eq!(parse_json("{"), None);
    assert_eq!(parse_json("\"x\""), Some(text("x")));
}

#[test]
fn json_numbers_pass_through() {
    let doc = parse_json("[1, -2, 1.5]").unwrap();
    assert_eq!(print_json(&doc), Some("[\n  1,\n  -2,\n  1.5\n]".to_string()));
}

#[test]
fn json_document_is_written_as_text() {
    let doc = object(vec![("k", Json::List(vec![text("v"), Json::Null]))]);
    assert_eq!(print_json(&doc), Some("{\n  \"k\": [\n    \"v\",\n    null\n  ]\n}".to_string()));
    assert_eq!(print_json(&text("a\"b")), Some("\"a\\\"b\"".to_string()));
}
