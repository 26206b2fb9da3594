//! Import alias maps.

use go_analyzer::ast::{ImportAlias, ImportSpec, SourceFile};
use go_analyzer::leaf::{Ident, StringLit};
use go_analyzer::resolver::build_alias_map;
use go_analyzer::span::Span;

fn make_source_file(imports: Vec<ImportSpec>) -> SourceFile {
    SourceFile {
        package: Ident::synthetic("main"),
        imports,
        decls: vec![],
        span: Span::synthetic(),
    }
}

fn make_import(alias: ImportAlias, path: &str) -> ImportSpec {
    ImportSpec {
        alias,
        path: StringLit::from_value(path),
        span: Span::synthetic(),
    }
}

#[test]
fn implicit_single_component() {
    let sf = make_source_file(vec![make_import(ImportAlias::Implicit, "fmt")]);
    let map = build_alias_map(&sf);
    assert_eq!(map.get("fmt").unwrap(), "fmt");
}

#[test]
fn implicit_multi_component() {
    let sf = make_source_file(vec![make_import(ImportAlias::Implicit, "encoding/json")]);
    let map = build_alias_map(&sf);
    assert_eq!(map.get("json").unwrap(), "encoding/json");
}

#[test]
fn named_alias() {
    let sf = make_source_file(vec![make_import(
        ImportAlias::Named(Ident::synthetic("j")),
        "encoding/json",
    )]);
    let map = build_alias_map(&sf);
    assert_eq!(map.get("j").unwrap(), "encoding/json");
    assert!(!map.contains_key("json"));
}

#[test]
fn dot_import() {
    let sf = make_source_file(vec![make_import(ImportAlias::Dot, "testing")]);
    let map = build_alias_map(&sf);
    assert_eq!(map.get(".").unwrap(), "testing");
}

#[test]
fn blank_import_excluded() {
    let sf = make_source_file(vec![make_import(ImportAlias::Blank, "net/http/pprof")]);
    let map = build_alias_map(&sf);
    assert!(map.is_empty());
}

#[test]
fn mixed_imports() {
    let sf = make_source_file(vec![
        make_import(ImportAlias::Implicit, "fmt"),
        make_import(ImportAlias::Implicit, "encoding/json"),
        make_import(
            ImportAlias::Named(Ident::synthetic("pb")),
            "google/protobuf",
        ),
        make_import(ImportAlias::Dot, "math"),
        make_import(ImportAlias::Blank, "net/http/pprof"),
    ]);
    let map = build_alias_map(&sf);

    assert_eq!(map.len(), 4);
    assert_eq!(map.get("fmt").unwrap(), "fmt");
    assert_eq!(map.get("json").unwrap(), "encoding/json");
    assert_eq!(map.get("pb").unwrap(), "google/protobuf");
    assert_eq!(map.get(".").unwrap(), "math");
}

#[test]
fn empty_imports() {
    let sf = make_source_file(vec![]);
    let map = build_alias_map(&sf);
    assert!(map.is_empty());
}
