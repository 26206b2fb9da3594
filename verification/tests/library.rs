//! Helpers and error texts of the library, on concrete values.

use go_analyzer::applied::{diff_text, unified_diff};
use go_analyzer::ast::{ImportAlias, ImportSpec, SourceFile};
use go_analyzer::build;
use go_analyzer::describe::{
    describe_target_path, is_go_file_name, module_name, scan_descends, scans_dir, DescribeError,
};
use go_analyzer::edit::apply_edits;
use go_analyzer::edit_tool::{filters_debug, select_debug, EditError};
use go_analyzer::graph_tools::CallGraphError;
use go_analyzer::leaf::{Ident, StringLit};
use go_analyzer::query::{Filter, QueryError, SelectKind};
use go_analyzer::resolver::build_alias_map;
use go_analyzer::span::Span;
use go_analyzer::state::StateError;
use go_analyzer::test_support::{print_func_decl, print_method_decl};

fn import(alias: ImportAlias, path: &str) -> ImportSpec {
    ImportSpec { alias, path: StringLit::from_value(path), span: Span::synthetic() }
}

fn file_with(imports: Vec<ImportSpec>) -> SourceFile {
    SourceFile { package: Ident::synthetic("main"), imports, decls: vec![], span: Span::synthetic() }
}

// --- Module names ---

#[test]
fn module_name_from_go_mod() {
    let text = "// comment\n  module   example.com/tool  \r\n\ngo 1.22\n";
    assert_eq!(module_name(Some(text), Some("tool")), "example.com/tool");
}

#[test]
fn module_name_falls_back_to_directory_then_dot() {
    assert_eq!(module_name(Some("go 1.22\n"), Some("repo")), "repo");
    assert_eq!(module_name(None, Some("repo")), "repo");
    assert_eq!(module_name(None, None), ".");
}

// --- Scanning decisions ---

#[test]
fn scan_skips_hidden_vendor_and_node_modules() {
    assert!(scans_dir("internal"));
    assert!(!scans_dir(".git"));
    assert!(!scans_dir("vendor"));
    assert!(!scans_dir("node_modules"));
}

#[test]
fn scan_depth_limit() {
    assert!(scan_descends(0, None));
    assert!(scan_descends(1, Some(2)));
    assert!(!scan_descends(2, Some(2)));
    assert!(!scan_descends(0, Some(0)));
}

#[test]
fn go_file_names() {
    assert!(is_go_file_name("main.go"));
    assert!(is_go_file_name("..go"));
    assert!(!is_go_file_name(".go"));
    assert!(!is_go_file_name("main.go.txt"));
    assert!(!is_go_file_name("go"));
}

#[test]
fn target_path_joins_relative_paths() {
    assert_eq!(describe_target_path("/repo", "pkg/a.go"), "/repo/pkg/a.go");
    assert_eq!(describe_target_path("/repo/", "a.go"), "/repo/a.go");
    assert_eq!(describe_target_path("/repo", "/abs/a.go"), "/abs/a.go");
}

// --- Error texts ---

#[test]
fn describe_error_messages() {
    assert_eq!(DescribeError::State("boom".to_string()).message(), "state error: boom");
    let e = DescribeError::FileNotFound { path: "/x.go".to_string(), message: "gone".to_string() };
    assert_eq!(e.message(), "file not found at /x.go: gone");
    let e = DescribeError::ParseFailed { path: "/x.go".to_string(), message: "bad".to_string() };
    assert_eq!(e.message(), "failed to parse /x.go: bad");
}

#[test]
fn state_and_query_error_messages() {
    let e = StateError::LoadFailed { path: "/r".to_string(), message: "no such dir".to_string() };
    assert_eq!(e.message(), "failed to load repo at /r: no such dir");
    assert_eq!(QueryError::State("x".to_string()).message(), "state error: x");
}

#[test]
fn call_graph_error_messages() {
    assert_eq!(CallGraphError::SymbolNotFound("f".to_string()).message(), "symbol not found: f");
    assert_eq!(CallGraphError::MissingSymbol("callers".to_string()).message(), "callers action requires a symbol parameter");
}

#[test]
fn edit_error_messages() {
    assert_eq!(EditError::ParseFailed("eof".to_string()).message(), "parse failed: eof");
    assert_eq!(EditError::CommitFailed("ro".to_string()).message(), "failed to write changes: ro");
    assert_eq!(EditError::State("s".to_string()).message(), "state error: s");
}

#[test]
fn request_debug_texts() {
    assert_eq!(select_debug(&SelectKind::Interfaces), "Interfaces");
    let fl = vec![
        Filter::Named("a\"b\n".to_string()),
        Filter::ExcludingTests(false),
        Filter::OnType("T".to_string()),
    ];
    assert_eq!(filters_debug(&fl), "[Named(\"a\\\"b\\n\"), ExcludingTests(false), OnType(\"T\")]");
    assert_eq!(filters_debug(&[]), "[]");
}

// --- Diffs ---

#[test]
fn unified_diff_of_one_changed_line() {
    let d = unified_diff("a.go", "x\ny\n", "x\nz\n");
    assert_eq!(d, "--- a/a.go\n+++ b/a.go\n@@ -1,2 +1,2 @@\n x\n-y\n+z\n");
}

#[test]
fn unified_diff_of_equal_texts_is_empty() {
    assert_eq!(unified_diff("a.go", "same\n", "same\n"), "");
    assert_eq!(diff_text("a.go", false, "@@"), "");
    assert_eq!(diff_text("a.go", true, "H"), "--- a/a.go\n+++ b/a.go\nH");
}

// --- Edits ---

#[test]
fn applying_no_edits_returns_the_source() {
    let out = apply_edits(b"package p\n", &[]).unwrap();
    assert_eq!(out, b"package p\n".to_vec());
}

// --- Literals ---

#[test]
fn value_undoes_from_value() {
    for s in ["", "plain", "q\"uote", "back\\slash", "\u{1}\u{7f}\u{9f}", "tab\tnl\ncr\r", "é😀", "\0x"] {
        assert_eq!(StringLit::from_value(s).value(), s);
    }
}

#[test]
fn from_value_escapes_other_control_characters_in_hex() {
    assert_eq!(StringLit::from_value("\u{1}\u{9f}").raw, "\"\\x01\\x9f\"");
}

#[test]
fn unicode_escapes_decode() {
    let lit = StringLit { raw: "\"\\u00e9\\U0001F600\\uD800\"".to_string(), span: Span::synthetic() };
    assert_eq!(lit.value(), "é😀");
}

// --- Import aliases ---

#[test]
fn later_import_of_a_name_wins() {
    let sf = file_with(vec![
        import(ImportAlias::Named(Ident::synthetic("x")), "a/one"),
        import(ImportAlias::Named(Ident::synthetic("x")), "b/two"),
    ]);
    let map = build_alias_map(&sf);
    assert_eq!(map.len(), 1);
    assert_eq!(map.get("x").unwrap(), "b/two");
}

#[test]
fn blank_import_adds_no_name() {
    let a = build_alias_map(&file_with(vec![import(ImportAlias::Implicit, "fmt")]));
    let b = build_alias_map(&file_with(vec![
        import(ImportAlias::Implicit, "fmt"),
        import(ImportAlias::Blank, "embed"),
    ]));
    assert_eq!(a.len(), b.len());
    assert_eq!(b.get("fmt").unwrap(), "fmt");
    assert!(!b.contains_key("embed"));
    assert!(!b.contains_key("_"));
}

// --- Printed declarations ---

#[test]
fn printed_declarations() {
    let m = build::method(
        build::value_receiver("p", "Point"),
        "Norm",
        vec![],
        vec![build::unnamed_param(build::named("int"))],
        build::block(vec![build::ret(vec![build::integer(0)])]),
    );
    assert_eq!(print_method_decl(&m), "func (p Point) Norm() int {\n\treturn 0\n}");
    let f = go_analyzer::ast::FuncDecl {
        name: Ident::synthetic("main"),
        ty: go_analyzer::ast::FuncType { type_params: vec![], params: vec![], results: vec![], span: Span::synthetic() },
        body: Some(build::block(vec![])),
        doc: None,
        span: Span::synthetic(),
    };
    assert_eq!(print_func_decl(&f), "func main() {}");
}

fn if_stmt(cond: &str, body: Vec<go_analyzer::ast::Stmt>) -> go_analyzer::ast::Stmt {
    go_analyzer::ast::Stmt::If {
        init: None,
        cond: build::ident(cond),
        body: build::block(body),
        else_: None,
        span: Span::synthetic(),
    }
}

#[test]
fn nested_statements_indent_one_tab_per_level() {
    let inner = if_stmt("false", vec![build::ret(vec![])]);
    let f = go_analyzer::ast::FuncDecl {
        name: Ident::synthetic("f"),
        ty: go_analyzer::ast::FuncType { type_params: vec![], params: vec![], results: vec![], span: Span::synthetic() },
        body: Some(build::block(vec![if_stmt("true", vec![inner])])),
        doc: None,
        span: Span::synthetic(),
    };
    let printed = print_func_decl(&f);
    assert_eq!(printed, "func f() {\n\tif true {\n\t\tif false {\n\t\t\treturn\n\t\t}\n\t}\n}");
    assert!(printed.contains("\t\tif false"));
    assert!(printed.contains("\t\t\treturn"));
}

#[test]
fn module_name_trims_unicode_whitespace() {
    let text = "\u{3000}module example.com/wide\u{a0}\u{2009}\ngo 1.22\n";
    assert_eq!(module_name(Some(text), Some("tool")), "example.com/wide");
}
