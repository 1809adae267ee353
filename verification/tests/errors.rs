use docgraph::error::{BuildError, CrateErr, ExtractionError};
use docgraph::extract::resolve_root;
use docgraph::model::{Definition, DefinitionKind, DocData};
use rls_analysis::Id;

fn definition(kind: DefinitionKind, name: &str, qualname: &str, docs: &str) -> Definition {
    Definition {
        kind,
        name: name.to_string(),
        qualname: qualname.to_string(),
        docs: docs.to_string(),
    }
}

#[test]
fn crate_err_quotes_the_name() {
    let err = CrateErr::new("example");
    assert_eq!(err.message(), "Crate not found: \"example\"");
    assert_eq!(err.description(), "Crate not found: \"example\"");
}

#[test]
fn crate_err_of_empty_name() {
    let err = CrateErr::new("");
    assert_eq!(err.message(), "Crate not found: \"\"");
}

#[test]
fn crate_err_keeps_quotes_and_unicode_in_the_name() {
    let err = CrateErr::new("a\"b\u{e9}");
    assert_eq!(err.description(), "Crate not found: \"a\"b\u{e9}\"");
}

#[test]
fn crate_err_debug_shows_the_message() {
    let err = CrateErr::new("x");
    assert_eq!(format!("{:?}", err), "CrateErr { error: \"Crate not found: \\\"x\\\"\" }");
}

#[test]
fn unknown_root_is_crate_not_found() {
    let roots = vec![(Id::new(1), String::from("alpha")), (Id::new(2), String::from("beta"))];
    match resolve_root(&roots, "gamma") {
        Err(err) => assert_eq!(err.message(), "Crate not found: \"gamma\""),
        Ok(id) => panic!("unexpected: {:?}", id),
    }
}

#[test]
fn root_name_that_cannot_be_cut_is_malformed() {
    let root = definition(DefinitionKind::Mod, "", "x", "docs");
    match DocData::from_definitions(Id::new(7), &root, &Vec::new()) {
        Err(ExtractionError::MalformedRootName(id)) => assert_eq!(id, Id::new(7)),
        other => panic!("unexpected: {:?}", other),
    }
}

#[test]
fn graph_of_root_name_that_cannot_be_cut_is_malformed() {
    let good = definition(DefinitionKind::Mod, "", "demo::", "docs");
    let data = DocData::from_definitions(Id::new(9), &good, &Vec::new()).expect("model");
    let bad = definition(DefinitionKind::Mod, "", "", "docs");
    match data.resource_graph(&bad) {
        Err(BuildError::MalformedRootName(id)) => assert_eq!(id, Id::new(9)),
        other => panic!("unexpected: {:?}", other),
    }
}
