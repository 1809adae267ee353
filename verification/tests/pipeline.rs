use docgraph::error::{BuildError, ExtractionError};
use docgraph::model::{Crate, Definition, DefinitionKind, DocData, Item};
use docgraph::source::AnalysisSource;
use rls_analysis::{AnalysisHost, Id, Target};
use serde_json::Value;
use std::path::Path;

const SPAN: &str = r#"{"file_name":"src/lib.rs","byte_start":1,"byte_end":9,"line_start":1,"line_end":1,"column_start":1,"column_end":9}"#;

const KINDS: [&str; 19] = [
    "Enum",
    "TupleVariant",
    "StructVariant",
    "Tuple",
    "Struct",
    "Union",
    "Trait",
    "Function",
    "ForeignFunction",
    "Method",
    "Macro",
    "Mod",
    "Type",
    "Local",
    "Static",
    "ForeignStatic",
    "Const",
    "Field",
    "ExternType",
];

fn def(kind: &str, index: u32, name: &str, qualname: &str, docs: &str, children: &[u32]) -> String {
    let children: Vec<String> =
        children.iter().map(|c| format!(r#"{{"krate":0,"index":{}}}"#, c)).collect();
    format!(
        r#"{{"kind":"{}","id":{{"krate":0,"index":{}}},"span":{},"name":"{}","qualname":"{}","value":"","parent":null,"children":[{}],"decl_id":null,"docs":"{}","sig":null,"attributes":[]}}"#,
        kind,
        index,
        SPAN,
        name,
        qualname,
        children.join(","),
        docs
    )
}

fn analysis_text(crate_name: &str, disambiguator: u32, defs: &[String]) -> String {
    format!(
        r#"{{"config":{{"output_file":null,"full_docs":true,"pub_only":false,"reachable_only":false,"distro_crate":false,"signatures":false,"borrow_data":false}},"version":"0.19.1","compilation":null,"prelude":{{"crate_id":{{"name":"{}","disambiguator":[{},2]}},"crate_root":"src","external_crates":[],"span":{}}},"imports":[],"defs":[{}],"impls":[],"refs":[],"macro_refs":[],"relations":[]}}"#,
        crate_name,
        disambiguator,
        SPAN,
        defs.join(",")
    )
}

fn loaded_source(texts: &[String]) -> AnalysisSource {
    let host = AnalysisHost::new(Target::Debug);
    let crates = texts
        .iter()
        .map(|text| rls_analysis::deserialize_crate_data(text).expect("analysis text"))
        .collect();
    let nowhere = Path::new("/nonexistent/project");
    host.reload_from_analysis(crates, nowhere, nowhere, &[] as &[&str]).expect("reload");
    AnalysisSource { host }
}

fn demo_text() -> String {
    analysis_text(
        "demo",
        1,
        &[
            def("Mod", 0, "", "::", "Demo crate", &[1, 2]),
            def("Mod", 1, "a", "::a", "mod a", &[]),
            def("Function", 2, "f", "::f", "", &[]),
        ],
    )
}

fn demo_source() -> AnalysisSource {
    loaded_source(&[demo_text()])
}

fn text(s: &str) -> Value {
    Value::String(s.to_string())
}

fn object(members: Vec<(&str, Value)>) -> Value {
    let mut map = serde_json::Map::new();
    for (name, value) in members {
        map.insert(name.to_string(), value);
    }
    Value::Object(map)
}

#[test]
fn extracts_demo_crate_from_loaded_database() {
    let source = demo_source();
    let data = DocData::new(&source, "demo").expect("model");
    assert_eq!(data.krate.name, "demo");
    assert_eq!(data.krate.docs, "Demo crate");
    assert_eq!(data.krate.modules, vec![String::from("demo::a")]);
    assert_eq!(data.data.len(), 1);
    match data.data.get("demo::a") {
        Some(Item::Module { name, docs }) => {
            assert_eq!(name, "a");
            assert_eq!(docs, "mod a");
        }
        None => panic!("no entry for the module"),
    }
    assert!(data.data.get("demo::f").is_none());
}

#[test]
fn demo_crate_end_to_end() {
    let source = demo_source();
    let data = DocData::new(&source, "demo").expect("model");
    let json = data.to_json(&source).expect("text");
    let document: Value = serde_json::from_str(&json).expect("json");
    assert_eq!(document["data"]["id"], text("demo"));
    assert_eq!(document["data"]["attributes"]["docs"], text("Demo crate"));
    assert_eq!(
        document["included"],
        Value::Array(vec![object(vec![
            ("type", text("module")),
            ("id", text("demo::a")),
            ("attributes", object(vec![("name", text("a")), ("docs", text("mod a"))])),
        ])])
    );
    assert_eq!(
        document["data"]["relationships"]["modules"]["data"],
        Value::Array(vec![object(vec![("type", text("module")), ("id", text("demo::a"))])])
    );
    assert_eq!(document["data"]["type"], text("crate"));
    assert!(!json.contains("demo::f"));
    assert_eq!(
        json,
        [
            r#"{"data":{"attributes":{"docs":"Demo crate"},"id":"demo","#,
            r#""relationships":{"modules":{"data":[{"id":"demo::a","type":"module"}]}},"#,
            r#""type":"crate"},"#,
            r#""included":[{"attributes":{"docs":"mod a","name":"a"},"id":"demo::a","type":"module"}]}"#,
        ]
        .concat()
    );
}

#[test]
fn empty_crate_end_to_end() {
    let source =
        loaded_source(&[analysis_text("hollow", 1, &[def("Mod", 0, "", "::", "", &[])])]);
    let data = DocData::new(&source, "hollow").expect("model");
    assert_eq!(data.data.len(), 0);
    let json = data.to_json(&source).expect("text");
    let document: Value = serde_json::from_str(&json).expect("json");
    assert_eq!(document["included"], Value::Array(Vec::new()));
    assert_eq!(document["data"]["relationships"]["modules"]["data"], Value::Array(Vec::new()));
    assert_eq!(document["data"]["id"], text("hollow"));
}

#[test]
fn unloaded_database_has_no_crate() {
    let source = AnalysisSource { host: AnalysisHost::new(Target::Debug) };
    match DocData::new(&source, "demo") {
        Err(ExtractionError::CrateNotFound(err)) => {
            assert_eq!(err.message(), "Crate not found: \"demo\"");
        }
        other => panic!("unexpected: {:?}", other),
    }
}

#[test]
fn unknown_root_name_is_crate_not_found() {
    let source = demo_source();
    for name in ["example", "Demo", "dem", "demo::", ""] {
        match DocData::new(&source, name) {
            Err(ExtractionError::CrateNotFound(err)) => {
                assert_eq!(err.message(), format!("Crate not found: \"{}\"", name));
            }
            other => panic!("unexpected: {:?}", other),
        }
    }
}

#[test]
fn picks_the_named_crate_among_several() {
    let other = analysis_text(
        "other",
        7,
        &[def("Mod", 0, "", "::", "Other crate", &[1]), def("Mod", 1, "x", "::x", "mod x", &[])],
    );
    let source = loaded_source(&[other, demo_text()]);
    let demo = DocData::new(&source, "demo").expect("model");
    assert_eq!(demo.krate.name, "demo");
    assert_eq!(demo.krate.modules, vec![String::from("demo::a")]);
    let other = DocData::new(&source, "other").expect("model");
    assert_eq!(other.krate.name, "other");
    assert_eq!(other.krate.docs, "Other crate");
    assert_eq!(other.krate.modules, vec![String::from("other::x")]);
    assert_ne!(demo.krate.id, other.krate.id);
}

#[test]
fn of_every_kind_of_the_database_only_the_module_is_documented() {
    let mut defs = vec![def("Mod", 0, "", "::", "", &[])];
    for (i, kind) in KINDS.iter().enumerate() {
        let index = i as u32 + 1;
        defs.push(format!(
            r#"{{"kind":"{}","id":{{"krate":0,"index":{}}},"span":{},"name":"n{}","qualname":"::n{}","value":"","parent":{{"krate":0,"index":0}},"children":[],"decl_id":null,"docs":"docs {}","sig":null,"attributes":[]}}"#,
            kind, index, SPAN, index, index, index
        ));
    }
    let source = loaded_source(&[analysis_text("kinds", 1, &defs)]);
    let root = source.host.def_roots().expect("roots")[0].0;
    let raw = source.host.for_each_child_def(root, |_, d| d.clone()).expect("children");
    assert_eq!(raw.len(), 19);
    let data = DocData::new(&source, "kinds").expect("model");
    assert_eq!(data.krate.modules, vec![String::from("kinds::n12")]);
    assert_eq!(data.data.len(), 1);
    match data.data.get("kinds::n12") {
        Some(Item::Module { name, docs }) => {
            assert_eq!(name, "n12");
            assert_eq!(docs, "docs 12");
        }
        None => panic!("no entry for the module"),
    }
    let json = data.to_json(&source).expect("text");
    for index in 1..20 {
        let qualname = format!("\"kinds::n{}\"", index);
        assert_eq!(json.contains(&qualname), index == 12);
    }
}

#[test]
fn build_data_fills_table_and_module_list() {
    let source = demo_source();
    let root = source.host.def_roots().expect("roots")[0].0;
    let mut krate = Crate {
        id: root,
        name: String::from("demo"),
        docs: String::new(),
        modules: vec![String::from("kept")],
    };
    let table = DocData::build_data(&source, root, &mut krate).expect("table");
    assert_eq!(table.len(), 1);
    assert_eq!(table.entry(0).qualname, "demo::a");
    assert_eq!(krate.modules, vec![String::from("kept"), String::from("demo::a")]);
}

#[test]
fn build_data_of_definition_without_children_is_empty() {
    let source = demo_source();
    let mut krate =
        Crate { id: Id::new(777), name: String::new(), docs: String::new(), modules: Vec::new() };
    let table = DocData::build_data(&source, Id::new(777), &mut krate).expect("table");
    assert_eq!(table.len(), 0);
    assert!(krate.modules.is_empty());
}

#[test]
fn build_data_on_unloaded_database_is_unavailable() {
    let source = AnalysisSource { host: AnalysisHost::new(Target::Debug) };
    let mut krate = Crate {
        id: Id::new(4),
        name: String::from("n"),
        docs: String::from("d"),
        modules: vec![String::from("m")],
    };
    match DocData::build_data(&source, Id::new(4), &mut krate) {
        Err(ExtractionError::DefinitionUnavailable(id)) => assert_eq!(id, Id::new(4)),
        other => panic!("unexpected: {:?}", other),
    }
    assert_eq!(krate.modules, vec![String::from("m")]);
    assert_eq!(krate.name, "n");
}

#[test]
fn build_needs_the_root_in_the_database() {
    let source = demo_source();
    let root = Definition {
        kind: DefinitionKind::Mod,
        name: String::new(),
        qualname: String::from("gone::"),
        docs: String::new(),
    };
    let data = DocData::from_definitions(Id::new(4242), &root, &Vec::new()).expect("model");
    match data.build_graph(&source) {
        Err(BuildError::DefinitionUnavailable(id)) => assert_eq!(id, Id::new(4242)),
        other => panic!("unexpected: {:?}", other),
    }
    match data.to_json(&source) {
        Err(BuildError::DefinitionUnavailable(id)) => assert_eq!(id, Id::new(4242)),
        other => panic!("unexpected: {:?}", other),
    }
}

#[test]
fn build_takes_name_and_docs_from_the_database() {
    let source = demo_source();
    let root_id = source.host.def_roots().expect("roots")[0].0;
    let cached = Definition {
        kind: DefinitionKind::Mod,
        name: String::new(),
        qualname: String::from("cached::"),
        docs: String::from("cached docs"),
    };
    let children = vec![Definition {
        kind: DefinitionKind::Mod,
        name: String::from("m"),
        qualname: String::from("cached::m"),
        docs: String::from("mod m"),
    }];
    let data = DocData::from_definitions(root_id, &cached, &children).expect("model");
    assert_eq!(data.krate.name, "cached");
    let graph = data.build_graph(&source).expect("graph");
    assert_eq!(graph.data.id, "demo");
    assert_eq!(graph.data.attributes.len(), 1);
    assert_eq!(graph.data.attributes[0].name, "docs");
    assert_eq!(graph.data.attributes[0].value, "Demo crate");
    assert_eq!(graph.included.len(), 1);
    assert_eq!(graph.included[0].id, "cached::m");
}

#[test]
fn building_twice_from_unchanged_database_gives_the_same_document() {
    let source = demo_source();
    let data = DocData::new(&source, "demo").expect("model");
    let first = data.build_graph(&source).expect("graph");
    let second = data.build_graph(&source).expect("graph");
    assert_eq!(format!("{:?}", first), format!("{:?}", second));
    let one = data.to_json(&source).expect("text");
    let two = data.to_json(&source).expect("text");
    assert_eq!(one.as_bytes(), two.as_bytes());
    let again = DocData::new(&source, "demo").expect("model");
    assert_eq!(format!("{:?}", data), format!("{:?}", again));
}

#[test]
fn crate_name_and_primary_id_agree() {
    for name in ["demo", "a_b", "x"] {
        let source =
            loaded_source(&[analysis_text(name, 1, &[def("Mod", 0, "", "::", "d", &[])])]);
        let data = DocData::new(&source, name).expect("model");
        assert_eq!(data.krate.name, name);
        let graph = data.build_graph(&source).expect("graph");
        assert_eq!(graph.data.id, name);
    }
}
