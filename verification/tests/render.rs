use docgraph::graph::{Attribute, RelationshipObject, ResourceGraph, ResourceObject, ResourceRef};
use docgraph::model::{Definition, DefinitionKind, DocData};
use docgraph::render::render;
use rls_analysis::Id;
use serde_json::Value;

fn definition(kind: DefinitionKind, name: &str, qualname: &str, docs: &str) -> Definition {
    Definition {
        kind,
        name: name.to_string(),
        qualname: qualname.to_string(),
        docs: docs.to_string(),
    }
}

fn text(s: &str) -> Value {
    Value::String(s.to_string())
}

fn object(members: Vec<(&str, Value)>) -> Value {
    let mut map = serde_json::Map::new();
    for (name, value) in members {
        map.insert(name.to_string(), value);
    }
    Value::Object(map)
}

fn module_value(id: &str, name: &str, docs: &str) -> Value {
    object(vec![
        ("type", text("module")),
        ("id", text(id)),
        ("attributes", object(vec![("name", text(name)), ("docs", text(docs))])),
    ])
}

fn identifier_value(id: &str) -> Value {
    object(vec![("type", text("module")), ("id", text(id))])
}

fn crate_value(id: &str, docs: &str, modules: Vec<Value>) -> Value {
    object(vec![
        ("type", text("crate")),
        ("id", text(id)),
        ("attributes", object(vec![("docs", text(docs))])),
        (
            "relationships",
            object(vec![("modules", object(vec![("data", Value::Array(modules))]))]),
        ),
    ])
}

fn rendered(root: &Definition, children: &Vec<Definition>) -> Value {
    let data = DocData::from_definitions(Id::new(1), root, children).expect("model");
    let graph = data.resource_graph(root).expect("graph");
    let json = render(&graph).expect("text");
    serde_json::from_str(&json).expect("json")
}

#[test]
fn demo_crate_document() {
    let root = definition(DefinitionKind::Mod, "", "demo::", "Demo crate");
    let children = vec![
        definition(DefinitionKind::Mod, "a", "demo::a", "mod a"),
        definition(DefinitionKind::Function, "f", "demo::f", ""),
    ];
    let document = rendered(&root, &children);
    assert_eq!(document["data"]["id"], text("demo"));
    assert_eq!(document["data"]["attributes"]["docs"], text("Demo crate"));
    assert_eq!(
        document["included"],
        Value::Array(vec![module_value("demo::a", "a", "mod a")])
    );
    assert_eq!(
        document["data"]["relationships"]["modules"]["data"],
        Value::Array(vec![identifier_value("demo::a")])
    );
    assert_eq!(
        document,
        object(vec![
            ("data", crate_value("demo", "Demo crate", vec![identifier_value("demo::a")])),
            ("included", Value::Array(vec![module_value("demo::a", "a", "mod a")])),
        ])
    );
}

#[test]
fn function_appears_nowhere_in_the_text() {
    let root = definition(DefinitionKind::Mod, "", "demo::", "Demo crate");
    let children = vec![
        definition(DefinitionKind::Mod, "a", "demo::a", "mod a"),
        definition(DefinitionKind::Function, "f", "demo::f", "docs of f"),
    ];
    let data = DocData::from_definitions(Id::new(1), &root, &children).expect("model");
    let graph = data.resource_graph(&root).expect("graph");
    let json = render(&graph).expect("text");
    assert!(json.contains("demo::a"));
    assert!(!json.contains("demo::f"));
    assert!(!json.contains("docs of f"));
}

#[test]
fn empty_crate_document_has_empty_arrays() {
    let root = definition(DefinitionKind::Mod, "", "empty::", "");
    let document = rendered(&root, &Vec::new());
    assert_eq!(document["included"], Value::Array(Vec::new()));
    assert_eq!(document["data"]["relationships"]["modules"]["data"], Value::Array(Vec::new()));
    assert_eq!(
        document,
        object(vec![
            ("data", crate_value("empty", "", Vec::new())),
            ("included", Value::Array(Vec::new())),
        ])
    );
}

#[test]
fn data_is_a_single_object() {
    let root = definition(DefinitionKind::Mod, "", "demo::", "d");
    let document = rendered(&root, &Vec::new());
    assert!(document["data"].is_object());
    assert!(document["included"].is_array());
    assert_eq!(document.as_object().expect("object").len(), 2);
}

#[test]
fn document_keeps_the_order_of_the_table() {
    let root = definition(DefinitionKind::Mod, "", "k::", "docs");
    let children = vec![
        definition(DefinitionKind::Mod, "z", "k::z", "last letter first"),
        definition(DefinitionKind::Mod, "a", "k::a", "first letter last"),
    ];
    let document = rendered(&root, &children);
    assert_eq!(
        document,
        object(vec![
            (
                "data",
                crate_value("k", "docs", vec![identifier_value("k::z"), identifier_value("k::a")])
            ),
            (
                "included",
                Value::Array(vec![
                    module_value("k::z", "z", "last letter first"),
                    module_value("k::a", "a", "first letter last"),
                ])
            ),
        ])
    );
}

#[test]
fn strings_are_escaped_by_the_encoder() {
    let root = definition(DefinitionKind::Mod, "", "q::", "say \"hi\"\n\\ \u{e9}");
    let children = vec![definition(DefinitionKind::Mod, "m", "q::m", "tab\there")];
    let document = rendered(&root, &children);
    assert_eq!(document["data"]["attributes"]["docs"], text("say \"hi\"\n\\ \u{e9}"));
    assert_eq!(document["included"][0]["attributes"]["docs"], text("tab\there"));
}

#[test]
fn renders_any_graph() {
    let graph = ResourceGraph {
        data: ResourceObject {
            kind: String::from("book"),
            id: String::from("1"),
            attributes: vec![
                Attribute { name: String::from("title"), value: String::from("first") },
                Attribute { name: String::from("title"), value: String::from("second") },
            ],
            relationships: vec![
                RelationshipObject {
                    name: String::from("authors"),
                    data: vec![ResourceRef { kind: String::from("person"), id: String::from("9") }],
                },
                RelationshipObject { name: String::from("editors"), data: Vec::new() },
            ],
        },
        included: vec![ResourceObject {
            kind: String::from("person"),
            id: String::from("9"),
            attributes: Vec::new(),
            relationships: Vec::new(),
        }],
    };
    let json = render(&graph).expect("text");
    let document: Value = serde_json::from_str(&json).expect("json");
    assert_eq!(
        document,
        object(vec![
            (
                "data",
                object(vec![
                    ("type", text("book")),
                    ("id", text("1")),
                    ("attributes", object(vec![("title", text("second"))])),
                    (
                        "relationships",
                        object(vec![
                            (
                                "authors",
                                object(vec![(
                                    "data",
                                    Value::Array(vec![object(vec![
                                        ("type", text("person")),
                                        ("id", text("9")),
                                    ])])
                                )])
                            ),
                            ("editors", object(vec![("data", Value::Array(Vec::new()))])),
                        ])
                    ),
                ])
            ),
            (
                "included",
                Value::Array(vec![object(vec![
                    ("type", text("person")),
                    ("id", text("9")),
                    ("attributes", object(Vec::new())),
                ])])
            ),
        ])
    );
}

#[test]
fn demo_crate_text() {
    let root = definition(DefinitionKind::Mod, "", "demo::", "Demo crate");
    let children = vec![
        definition(DefinitionKind::Mod, "a", "demo::a", "mod a"),
        definition(DefinitionKind::Function, "f", "demo::f", ""),
    ];
    let data = DocData::from_definitions(Id::new(1), &root, &children).expect("model");
    let graph = data.resource_graph(&root).expect("graph");
    assert_eq!(
        render(&graph).expect("text"),
        concat_all(&[
            r#"{"data":{"attributes":{"docs":"Demo crate"},"id":"demo","#,
            r#""relationships":{"modules":{"data":[{"id":"demo::a","type":"module"}]}},"#,
            r#""type":"crate"},"#,
            r#""included":[{"attributes":{"docs":"mod a","name":"a"},"id":"demo::a","type":"module"}]}"#,
        ])
    );
}

#[test]
fn empty_crate_text() {
    let root = definition(DefinitionKind::Mod, "", "empty::", "");
    let data = DocData::from_definitions(Id::new(1), &root, &Vec::new()).expect("model");
    let graph = data.resource_graph(&root).expect("graph");
    assert_eq!(
        render(&graph).expect("text"),
        concat_all(&[
            r#"{"data":{"attributes":{"docs":""},"id":"empty","#,
            r#""relationships":{"modules":{"data":[]}},"type":"crate"},"included":[]}"#,
        ])
    );
}

#[test]
fn rendering_twice_gives_the_same_bytes() {
    let root = definition(DefinitionKind::Mod, "", "k::", "docs of k");
    let mut children = Vec::new();
    for i in 0..40 {
        children.push(definition(
            DefinitionKind::Mod,
            &format!("m{}", i),
            &format!("k::m{}", i),
            &format!("docs of m{}", i),
        ));
    }
    let data = DocData::from_definitions(Id::new(1), &root, &children).expect("model");
    let first = render(&data.resource_graph(&root).expect("graph")).expect("text");
    for _ in 0..20 {
        let again = render(&data.resource_graph(&root).expect("graph")).expect("text");
        assert_eq!(first.as_bytes(), again.as_bytes());
    }
}

fn concat_all(parts: &[&str]) -> String {
    parts.concat()
}
