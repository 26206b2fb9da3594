//! The fluent selection API, the change pipeline and the tool handlers, on a
//! small two-package repository held in memory and parsed from its Go text.
//!
//! The repository has the packages `alpha` (structs `User`, `Admin`, `Config`,
//! the interface `Stringer`, functions `NewUser`, `NewConfig`, `helperFunc`
//! and the method `User.String`) and `beta` (the interface `Starter`, structs
//! `Server` and `Client`, methods `Server.String`, `Server.Start`,
//! `Client.Connect` and the function `RunServer`). Every declaration carries
//! the byte and row positions it has in the Go text of its file.

use go_analyzer::applied::Applied;
use go_analyzer::ast::SourceFile;
use go_analyzer::build;
use go_analyzer::callgraph::{CallGraph, Symbol};
use go_analyzer::changes::Changes;
use go_analyzer::describe::{
    build_package_overview, handle_describe_module, is_go_file_name, scan_descends, scans_dir,
    DescribeModuleInput, ModuleOverview, PackageOverview,
};
use go_analyzer::edit_tool::{edit_result, handle_edit, EditAction, EditError, EditInput};
use go_analyzer::graph_tools::{handle_call_graph, CallGraphAction, CallGraphError, CallGraphInput};
use go_analyzer::output::{build_file_overview, QueryItem};
use go_analyzer::query::{build_query, handle_query, Filter, QueryInput, SelectKind};
use go_analyzer::repo::{Repo, RepoFile};
use go_analyzer::state::{ServerState, StateError};
use go_analyzer::walker::parse_and_walk;

const ROOT: &str = "/fixture";

/// Parses the Go text of a fixture file.
fn parsed(text: &str) -> (String, SourceFile) {
    let sf = parse_and_walk(text.as_bytes()).expect("fixture file parses");
    (text.to_string(), sf)
}

const MODELS_GO: &str = r#"package alpha

import "fmt"

type User struct {
	Name string
	Age int
}

func (u *User) String() string {
	return fmt.Sprintf("%s (%d)", u.Name, u.Age)
}

type Admin struct {
	User
	Level int
}

type Config struct {
	Debug bool
}

func NewUser(name string, age int) *User {
	return &User{Name: name, Age: age}
}

func NewConfig() *Config {
	return &Config{}
}

func helperFunc() int {
	return 42
}

"#;

const IFACE_GO: &str = r#"package alpha

type Stringer interface {
	String() string
}

"#;

const SERVER_GO: &str = r#"package beta

type Starter interface {
	Start() error
}

type Server struct {
	Addr string
}

func (s *Server) String() string {
	return s.Addr
}

func (s *Server) Start() error {
	return nil
}

type Client struct {
	Target string
}

func (c *Client) Connect() error {
	return nil
}

func RunServer(addr string) error {
	s := &Server{Addr: addr}
	return s.Start()
}

"#;

/// `alpha/models.go`.
fn models_go() -> (String, SourceFile) {
    parsed(MODELS_GO)
}

/// `alpha/iface.go`.
fn iface_go() -> (String, SourceFile) {
    parsed(IFACE_GO)
}

/// `beta/server.go`.
fn server_go() -> (String, SourceFile) {
    parsed(SERVER_GO)
}

/// The files of the fixture: path, Go text and syntax tree.
fn fixture_files() -> Vec<(String, String, SourceFile)> {
    let (a, asf) = models_go();
    let (i, isf) = iface_go();
    let (b, bsf) = server_go();
    vec![
        (format!("{ROOT}/alpha/models.go"), a, asf),
        (format!("{ROOT}/alpha/iface.go"), i, isf),
        (format!("{ROOT}/beta/server.go"), b, bsf),
    ]
}

fn fixture_repo() -> Repo {
    let files = fixture_files()
        .into_iter()
        .map(|(path, text, ast)| RepoFile { path, source: text.into_bytes(), ast })
        .collect();
    Repo::new(ROOT.to_string(), files)
}

fn fixture_text(path: &str) -> Option<String> {
    fixture_files().into_iter().find(|(p, _, _)| p == path).map(|(_, text, _)| text)
}

fn fixture_state() -> ServerState {
    let mut state = ServerState::new(ROOT.to_string());
    state.reload(Ok(fixture_repo())).unwrap();
    state
}

/// The package overviews a directory scan of the fixture finds, scanning at
/// most `depth` levels below the root.
fn scan_fixture(depth: Option<usize>) -> Vec<PackageOverview> {
    let files = fixture_files();
    // The root directory holds no Go file, only directories.
    let mut out = Vec::new();
    if !scan_descends(0, depth) {
        return out;
    }
    for dir in ["alpha", "beta", ".git", "vendor"] {
        if !scans_dir(dir) {
            continue;
        }
        let prefix = format!("{ROOT}/{dir}/");
        let in_dir: Vec<(String, &SourceFile)> = files
            .iter()
            .filter(|(p, _, _)| p.starts_with(&prefix))
            .map(|(p, _, sf)| (p[prefix.len()..].to_string(), sf))
            .filter(|(name, _)| is_go_file_name(name))
            .collect();
        if !in_dir.is_empty() {
            let full = format!("{ROOT}/{dir}");
            out.push(build_package_overview(&full, dir, "example.com/fixture", &in_dir));
        }
    }
    out
}

fn describe_module(depth: Option<usize>) -> ModuleOverview {
    let input = DescribeModuleInput { depth, include_docs: false };
    let state = fixture_state();
    let repo = state.repo().unwrap();
    handle_describe_module(repo, "example.com/fixture".to_string(), scan_fixture(input.depth))
}

fn old_texts_of(applied: &Applied) -> Vec<Option<String>> {
    applied.affected_files().iter().map(|p| fixture_text(p)).collect()
}

// --- Struct queries ---

#[test]
fn test_struct_count() {
    let repo = fixture_repo();
    // alpha: User, Admin, Config; beta: Server, Client
    assert_eq!(repo.structs().count(), 5);
}

#[test]
fn test_struct_exported_count() {
    let repo = fixture_repo();
    // All structs in fixtures are exported
    assert_eq!(repo.structs().exported().count(), 5);
}

#[test]
fn test_struct_method_existing() {
    let repo = fixture_repo();
    // User and Server have String() methods
    let count = repo.structs().method("String").existing().count();
    assert_eq!(count, 2);
}

#[test]
fn test_struct_method_absent() {
    let repo = fixture_repo();
    // Admin, Config, Client don't have String()
    let absent = repo.structs().method("String").absent().count();
    assert_eq!(absent, 3);
}

// --- Function queries ---

#[test]
fn test_function_count() {
    let repo = fixture_repo();
    // alpha: NewUser, NewConfig, helperFunc; beta: RunServer
    assert_eq!(repo.functions().count(), 4);
}

#[test]
fn test_function_named() {
    let repo = fixture_repo();
    assert_eq!(repo.functions().named("NewUser").count(), 1);
    assert_eq!(repo.functions().named("nonexistent").count(), 0);
}

// --- Method queries ---

#[test]
fn test_methods_on_type() {
    let repo = fixture_repo();
    // Server has String() and Start()
    assert_eq!(repo.methods().on_type("Server").count(), 2);
    // User has String()
    assert_eq!(repo.methods().on_type("User").count(), 1);
    // Client has Connect()
    assert_eq!(repo.methods().on_type("Client").count(), 1);
}

// --- Changes ---

#[test]
fn test_changes_none_is_empty() {
    assert!(Changes::none().is_empty());
    assert_eq!(Changes::none().edit_count(), 0);
}

#[test]
fn test_changes_combine_empty() {
    let combined = Changes::combine(Vec::<Changes>::new());
    assert!(combined.is_empty());
}

#[test]
fn test_changes_and() {
    let repo = fixture_repo();
    let c1 = repo.methods().named("String").delete();
    let c2 = repo.functions().named("NewUser").delete();
    let count1 = c1.edit_count();
    let count2 = c2.edit_count();
    let combined = c1.and(c2);
    assert_eq!(combined.edit_count(), count1 + count2);
}

// --- Interfaces ---

fn struct_names(repo: &Repo, iface: &str) -> Vec<String> {
    repo.structs().implementing(iface).collect().iter().map(|si| si.item.name().name.clone()).collect()
}

#[test]
fn test_implementing_stringer() {
    let repo = fixture_repo();
    // User has String() string → implements Stringer
    // Server has String() string → implements Stringer
    // Admin, Config, Client do NOT have String() → don't implement Stringer
    let names = struct_names(&repo, "Stringer");

    assert!(names.contains(&"User".to_owned()), "User should implement Stringer: {names:?}");
    assert!(names.contains(&"Server".to_owned()), "Server should implement Stringer: {names:?}");
    assert!(!names.contains(&"Admin".to_owned()), "Admin should not implement Stringer: {names:?}");
    assert!(!names.contains(&"Config".to_owned()), "Config should not implement Stringer: {names:?}");
    assert!(!names.contains(&"Client".to_owned()), "Client should not implement Stringer: {names:?}");
}

#[test]
fn test_implementing_starter() {
    let repo = fixture_repo();
    // Server has Start() error → implements Starter
    // Nothing else has Start()
    let names = struct_names(&repo, "Starter");

    assert_eq!(names.len(), 1, "only Server should implement Starter: {names:?}");
    assert!(names.contains(&"Server".to_owned()));
}

#[test]
fn test_implementing_count() {
    let repo = fixture_repo();
    assert_eq!(repo.structs().implementing("Stringer").count(), 2);
    assert_eq!(repo.structs().implementing("Starter").count(), 1);
}

#[test]
fn test_implementing_unknown_interface() {
    let repo = fixture_repo();
    // NonExistent interface → empty selection
    assert_eq!(repo.structs().implementing("NonExistent").count(), 0);
}

#[test]
fn test_implementing_chained_with_exported() {
    let repo = fixture_repo();
    // All Stringer implementors that are exported
    let count = repo.structs().exported().implementing("Stringer").count();
    // Both User and Server are exported
    assert_eq!(count, 2);
}

// --- Query items ---

#[test]
fn test_query_item_from_func_has_location() {
    let repo = fixture_repo();
    let funcs = repo.functions();
    let item = funcs.collect().iter().find(|si| si.item.name.name == "NewUser").expect("NewUser not found");

    let qi = QueryItem::from_func(item.item, &item.file);
    assert_eq!(qi.name, "NewUser");
    assert_eq!(qi.kind, "function");
    assert!(qi.line > 0);
    assert!(qi.file.ends_with(".go"));
    assert!(qi.exported);
    assert!(qi.signature.contains("NewUser"));
}

#[test]
fn test_query_item_from_method_has_receiver() {
    let repo = fixture_repo();
    let methods = repo.methods();
    let item = methods
        .collect()
        .iter()
        .find(|si| si.item.name.name == "String" && si.file.contains("alpha"))
        .expect("String method not found in alpha");

    let qi = QueryItem::from_method(item.item, &item.file);
    assert!(qi.receiver.is_some());
    let recv = qi.receiver.as_ref().unwrap();
    assert!(recv.contains("User"), "receiver should contain User, got: {recv}");
}

#[test]
fn test_query_item_from_type_spec() {
    let repo = fixture_repo();
    let structs = repo.structs();
    let item = structs.collect().iter().find(|si| si.item.name().name == "User").expect("User struct not found");

    let qi = QueryItem::from_type_spec(item.item, &item.file);
    assert_eq!(qi.kind, "struct");
    assert!(qi.exported);
}

// --- Query builder ---

#[test]
fn test_query_all_functions() {
    let repo = fixture_repo();
    let items = build_query(&repo, &SelectKind::Functions, &[]);
    // alpha: NewUser, NewConfig, helperFunc; beta: RunServer
    assert!(items.len() >= 3, "expected >= 3 functions, got {}", items.len());
}

#[test]
fn test_query_exported_functions() {
    let repo = fixture_repo();
    let items = build_query(&repo, &SelectKind::Functions, &[Filter::Exported(true)]);
    assert!(!items.is_empty());
    for item in &items {
        assert!(item.exported, "{} should be exported", item.name);
    }
}

#[test]
fn test_query_methods_on_type() {
    let repo = fixture_repo();
    let items = build_query(&repo, &SelectKind::Methods, &[Filter::OnType("Server".to_owned())]);
    assert!(!items.is_empty());
    for item in &items {
        let recv = item.receiver.as_ref().expect("method should have receiver");
        assert!(recv.contains("Server"), "receiver should contain Server, got: {recv}");
    }
}

#[test]
fn test_query_structs_implementing_interface() {
    let repo = fixture_repo();
    let items = build_query(&repo, &SelectKind::Structs, &[Filter::Implementing("Stringer".to_owned())]);
    let names: Vec<&str> = items.iter().map(|i| i.name.as_str()).collect();
    assert!(names.contains(&"User"), "User should implement Stringer, got: {names:?}");
    assert!(names.contains(&"Server"), "Server should implement Stringer, got: {names:?}");
}

#[test]
fn test_query_named_function() {
    let repo = fixture_repo();
    let items = build_query(&repo, &SelectKind::Functions, &[Filter::Named("NewUser".to_owned())]);
    assert_eq!(
        items.len(),
        1,
        "expected exactly 1 result, got {:?}",
        items.iter().map(|i| &i.name).collect::<Vec<_>>()
    );
    assert_eq!(items[0].name, "NewUser");
}

#[test]
fn test_query_in_package() {
    let repo = fixture_repo();
    let items = build_query(&repo, &SelectKind::Functions, &[Filter::InPackage("beta".to_owned())]);
    assert!(!items.is_empty());
    for item in &items {
        assert_eq!(item.package, "beta", "expected package beta, got: {}", item.package);
    }
}

#[test]
fn test_inapplicable_filter_is_ignored() {
    let repo = fixture_repo();
    let unfiltered = build_query(&repo, &SelectKind::Functions, &[]);
    let with_on_type = build_query(&repo, &SelectKind::Functions, &[Filter::OnType("Server".to_owned())]);
    assert_eq!(unfiltered.len(), with_on_type.len(), "OnType filter should be ignored for functions");
}

// --- Server state ---

#[test]
fn test_lazy_load_on_first_access() {
    let mut state = ServerState::new(ROOT.to_string());
    assert!(state.repo().is_none());
    assert!(state.needs_load());
    state.reload(Ok(fixture_repo())).unwrap();
    let repo = state.repo().unwrap();
    assert!(repo.file_count() > 0);
}

#[test]
fn test_load_nonexistent_path_returns_error() {
    let mut state = ServerState::new("/nonexistent/path".to_string());
    let failure = StateError::LoadFailed {
        path: "/nonexistent/path".to_string(),
        message: "No such file or directory (os error 2)".to_string(),
    };
    assert!(state.reload(Err(failure)).is_err());
    assert!(state.repo().is_none());
}

#[test]
fn test_reload_refreshes_repo() {
    let mut state = fixture_state();
    let _ = state.repo().unwrap();
    state.reload(Ok(fixture_repo())).unwrap();
    assert!(state.repo().is_some());
}

// --- Query tool ---

#[test]
fn test_handle_query_returns_items() {
    let state = fixture_state();
    let input = QueryInput { select: SelectKind::Structs, filters: vec![] };

    let output = handle_query(state.repo().unwrap(), &input);

    assert!(output.count > 0, "expected at least one struct");
    assert_eq!(output.count, output.items.len(), "count must match items.len()");
}

#[test]
fn test_handle_query_with_filters() {
    let state = fixture_state();
    let input = QueryInput { select: SelectKind::Methods, filters: vec![Filter::OnType("Server".to_owned())] };

    let output = handle_query(state.repo().unwrap(), &input);

    assert!(!output.items.is_empty(), "expected methods on Server");
    for item in &output.items {
        let recv = item.receiver.as_ref().expect("method should have a receiver");
        assert!(recv.contains("Server"), "receiver should contain Server, got: {recv}");
    }
}

// --- Call graph tool ---

#[test]
fn test_callees_of_known_function() {
    let state = fixture_state();
    let input = CallGraphInput { action: CallGraphAction::Callees, symbol: Some("RunServer".to_owned()) };

    let result = handle_call_graph(state.repo().unwrap(), &input).unwrap();

    // RunServer builds a Server and calls Start on it, so expect at least one callee
    assert!(!result.nodes.is_empty(), "expected at least one callee node for RunServer");
    assert!(!result.edges.is_empty(), "expected at least one callee edge for RunServer");
}

#[test]
fn test_dead_code_finds_unreachable() {
    let state = fixture_state();
    let input = CallGraphInput { action: CallGraphAction::DeadCode, symbol: None };

    let result = handle_call_graph(state.repo().unwrap(), &input).unwrap();

    // helperFunc is unexported and uncalled, should appear in dead code
    let found = result.nodes.iter().any(|n| n.symbol.contains("helperFunc"));
    assert!(
        found,
        "expected helperFunc in dead code results, got: {:?}",
        result.nodes.iter().map(|n| &n.symbol).collect::<Vec<_>>()
    );
}

#[test]
fn test_callers_of_nonexistent_returns_error() {
    let state = fixture_state();
    let input = CallGraphInput { action: CallGraphAction::Callers, symbol: Some("nonexistent_xyz".to_owned()) };

    let err = handle_call_graph(state.repo().unwrap(), &input).unwrap_err();
    assert!(matches!(err, CallGraphError::SymbolNotFound(_)), "expected SymbolNotFound, got: {}", err.message());
}

#[test]
fn test_missing_symbol_returns_error() {
    let state = fixture_state();
    let input = CallGraphInput { action: CallGraphAction::Callers, symbol: None };

    let err = handle_call_graph(state.repo().unwrap(), &input).unwrap_err();
    assert!(matches!(err, CallGraphError::MissingSymbol(_)), "expected MissingSymbol, got: {}", err.message());
}

// --- Describe tools ---

#[test]
fn test_describe_file_has_types_and_functions() {
    let (_, sf) = models_go();
    let overview = build_file_overview(&sf, &format!("{ROOT}/alpha/models.go"), false);

    assert_eq!(overview.package, "alpha");
    let type_names: Vec<&str> = overview.types.iter().map(|t| t.name.as_str()).collect();
    assert!(type_names.contains(&"User"), "expected User, got: {type_names:?}");
    assert!(type_names.contains(&"Admin"), "expected Admin, got: {type_names:?}");
    assert!(type_names.contains(&"Config"), "expected Config, got: {type_names:?}");
    assert!(!overview.functions.is_empty(), "expected non-empty functions");
    assert!(!overview.methods.is_empty(), "expected non-empty methods");
}

#[test]
fn test_describe_file_includes_imports() {
    let (_, sf) = models_go();
    let overview = build_file_overview(&sf, &format!("{ROOT}/alpha/models.go"), false);

    assert!(
        overview.imports.contains(&"fmt".to_owned()),
        "expected 'fmt' in imports, got: {:?}",
        overview.imports
    );
}

#[test]
fn test_describe_module_lists_packages() {
    let overview = describe_module(None);

    let import_paths: Vec<&str> = overview.packages.iter().map(|p| p.import_path.as_str()).collect();
    let has_alpha = import_paths.iter().any(|p| p.contains("alpha"));
    let has_beta = import_paths.iter().any(|p| p.contains("beta"));
    assert!(has_alpha, "expected alpha package, got: {import_paths:?}");
    assert!(has_beta, "expected beta package, got: {import_paths:?}");
}

#[test]
fn test_describe_module_has_counts() {
    let overview = describe_module(None);

    let alpha = overview.packages.iter().find(|p| p.import_path.contains("alpha")).expect("alpha package not found");

    assert!(alpha.types > 0, "expected types > 0 in alpha");
    assert!(alpha.functions > 0, "expected functions > 0 in alpha");
}

#[test]
fn test_describe_module_respects_depth() {
    let shallow = describe_module(Some(0));
    let deep = describe_module(None);

    assert!(
        shallow.packages.len() <= deep.packages.len(),
        "depth 0 should have <= packages compared to depth None: {} vs {}",
        shallow.packages.len(),
        deep.packages.len()
    );
}

// --- Edit tool ---

#[test]
fn test_edit_dry_run_returns_diff_without_writing() {
    let state = fixture_state();
    let repo = state.repo().unwrap();
    let input = EditInput {
        select: SelectKind::Functions,
        filters: vec![Filter::Named("helperFunc".to_owned())],
        action: EditAction::Rename("renamedHelper".to_owned()),
        dry_run: true,
    };

    let applied = handle_edit(repo, &input, None).unwrap();
    let result = edit_result(&applied, &old_texts_of(&applied));

    assert!(result.diff.contains("renamedHelper"), "diff should contain the new name, got:\n{}", result.diff);
    assert!(result.edits_applied > 0);

    // The repository itself is unchanged
    assert_eq!(repo.functions().named("helperFunc").count(), 1);
}

#[test]
fn test_edit_empty_selection_returns_error() {
    let state = fixture_state();
    let input = EditInput {
        select: SelectKind::Functions,
        filters: vec![Filter::Named("nonexistent_function_xyz".to_owned())],
        action: EditAction::Delete,
        dry_run: true,
    };

    let result = handle_edit(state.repo().unwrap(), &input, None);

    assert!(result.is_err(), "expected error for empty selection");
    let err = result.err().unwrap();
    assert!(matches!(err, EditError::EmptySelection { .. }), "expected EmptySelection error, got: {}", err.message());
}

// --- Smoke runs against a checkout of mongodb-atlas-cli ---
//
// These runs need that large repository loaded from disk, which these tests
// cannot read; as when the checkout is absent, each run is skipped.

fn atlas_state() -> Option<ServerState> {
    None
}

#[test]
fn smoke_describe_module() {
    let Some(state) = atlas_state() else {
        return;
    };
    let result = handle_describe_module(state.repo().unwrap(), "atlas".to_string(), Vec::new());
    assert!(!result.packages.is_empty(), "expected packages in atlas-cli");
}

#[test]
fn smoke_describe_module_full() {
    let Some(state) = atlas_state() else {
        return;
    };
    let result = handle_describe_module(state.repo().unwrap(), "atlas".to_string(), Vec::new());
    assert!(result.packages.len() > 10, "expected many packages, got {}", result.packages.len());
}

#[test]
fn smoke_query_all_structs() {
    let Some(state) = atlas_state() else {
        return;
    };
    let result = handle_query(
        state.repo().unwrap(),
        &QueryInput { select: SelectKind::Structs, filters: vec![Filter::Exported(true)] },
    );
    assert!(result.count > 50, "expected many exported structs, got {}", result.count);
    for item in &result.items {
        assert!(item.file.starts_with('/'), "non-absolute path: {:?}", item.file);
        assert!(item.line > 0, "zero line for {}", item.name);
        assert!(!item.signature.is_empty(), "empty sig for {}", item.name);
    }
}

#[test]
fn smoke_query_methods_on_type() {
    let Some(state) = atlas_state() else {
        return;
    };
    let result = handle_query(
        state.repo().unwrap(),
        &QueryInput { select: SelectKind::Methods, filters: vec![Filter::Exported(true)] },
    );
    assert!(result.count > 100, "expected many methods, got {}", result.count);
}

#[test]
fn smoke_query_interfaces() {
    let Some(state) = atlas_state() else {
        return;
    };
    let result = handle_query(
        state.repo().unwrap(),
        &QueryInput { select: SelectKind::Interfaces, filters: vec![Filter::Exported(true)] },
    );
    for item in result.items.iter().take(10) {
        assert!(!item.name.is_empty());
    }
}

#[test]
fn smoke_call_graph_dead_code() {
    let Some(state) = atlas_state() else {
        return;
    };
    let result = handle_call_graph(
        state.repo().unwrap(),
        &CallGraphInput { action: CallGraphAction::DeadCode, symbol: None },
    )
    .unwrap();
    for node in result.nodes.iter().take(10) {
        assert!(!node.symbol.is_empty());
    }
}

#[test]
fn smoke_edit_dry_run() {
    let Some(state) = atlas_state() else {
        return;
    };
    let repo = state.repo().unwrap();
    let query = handle_query(
        repo,
        &QueryInput {
            select: SelectKind::Functions,
            filters: vec![Filter::Exported(false), Filter::ExcludingTests(true)],
        },
    );
    if query.items.is_empty() {
        return;
    }
    let target = &query.items[0];
    let input = EditInput {
        select: SelectKind::Functions,
        filters: vec![Filter::Named(target.name.clone())],
        action: EditAction::Rename("renamedBySmoke".to_string()),
        dry_run: true,
    };
    let applied = handle_edit(repo, &input, None).unwrap();
    let result = edit_result(&applied, &old_texts_of(&applied));
    assert!(!result.diff.is_empty(), "expected non-empty diff");
    assert!(result.diff.contains("renamedBySmoke"));
}

// --- Properties on the fixture ---

fn sym(dir: &str, name: &str) -> Symbol {
    Symbol { pkg_dir: format!("{ROOT}/{dir}"), name: name.to_string() }
}

#[test]
fn applying_no_changes_changes_no_file() {
    let repo = fixture_repo();
    let applied = repo.apply(Changes::none());
    assert!(applied.results().is_empty());
    assert!(applied.failures().is_empty());
    assert_eq!(applied.edit_count(), 0);
}

#[test]
fn applied_edit_count_never_exceeds_edits() {
    let repo = fixture_repo();
    let changes = repo.methods().named("String").delete();
    let n = changes.edit_count();
    let applied = repo.apply(changes);
    assert_eq!(n, 2);
    assert_eq!(applied.edit_count(), 2);
}

#[test]
fn only_edited_files_change() {
    let repo = fixture_repo();
    let applied = repo.apply(repo.functions().named("helperFunc").rename("renamedHelper"));
    assert_eq!(applied.affected_files(), vec!["/fixture/alpha/models.go"]);
    let dry = applied.dry_run();
    assert_eq!(dry.len(), 1);
    let expected = fixture_text("/fixture/alpha/models.go").unwrap().replace("func helperFunc()", "func renamedHelper()");
    assert_eq!(dry[0].0, "/fixture/alpha/models.go");
    assert_eq!(dry[0].1, expected);
}

#[test]
fn deleting_a_function_removes_its_lines() {
    let repo = fixture_repo();
    let applied = repo.apply(repo.functions().named("helperFunc").delete());
    let dry = applied.dry_run();
    assert_eq!(dry.len(), 1);
    assert!(!dry[0].1.contains("helperFunc"));
    assert!(dry[0].1.contains("func NewConfig()"));
}

#[test]
fn callers_mirror_callees() {
    let repo = fixture_repo();
    let graph = CallGraph::build(&repo);
    let run = sym("beta", "RunServer");
    let server = sym("beta", "Server");
    let callees: Vec<String> = graph.callees_of(&run).iter().map(|s| s.display()).collect();
    assert!(callees.contains(&server.display()), "callees of RunServer: {callees:?}");
    let callers: Vec<String> = graph.callers_of(&server).iter().map(|s| s.display()).collect();
    assert!(callers.contains(&run.display()), "callers of Server: {callers:?}");
}

#[test]
fn reachability_grows_with_entries() {
    let repo = fixture_repo();
    let graph = CallGraph::build(&repo);
    let small: Vec<String> = graph.reachable_from(&[sym("beta", "RunServer")]).iter().map(|s| s.display()).collect();
    let large: Vec<String> = graph
        .reachable_from(&[sym("beta", "RunServer"), sym("alpha", "NewUser")])
        .iter()
        .map(|s| s.display())
        .collect();
    assert!(small.contains(&sym("beta", "RunServer").display()));
    for s in &small {
        assert!(large.contains(s), "{s} reachable from fewer entries but not from more");
    }
    assert!(large.len() > small.len());
}

#[test]
fn every_selection_splits_by_export_and_presence() {
    let repo = fixture_repo();
    let all = repo.functions().count();
    assert_eq!(repo.functions().exported().count() + repo.functions().unexported().count(), all);
    let structs = repo.structs().count();
    let existing = repo.structs().method("Connect").existing().count();
    let absent = repo.structs().method("Connect").absent().count();
    assert_eq!(existing, 1);
    assert_eq!(existing + absent, structs);
}

#[test]
fn package_overview_counts_and_sorts_files() {
    let files = fixture_files();
    let alpha: Vec<(String, &SourceFile)> = files
        .iter()
        .filter(|(p, _, _)| p.contains("/alpha/"))
        .map(|(p, _, sf)| (p.rsplit('/').next().unwrap().to_string(), sf))
        .collect();
    let p = build_package_overview("/fixture/alpha", "alpha", "example.com/fixture", &alpha);
    assert_eq!(p.name, "alpha");
    assert_eq!(p.import_path, "example.com/fixture/alpha");
    assert_eq!(p.path, "/fixture/alpha");
    assert_eq!(p.files, vec!["iface.go".to_string(), "models.go".to_string()]);
    assert_eq!(p.types, 4);
    assert_eq!(p.functions, 3);
    assert_eq!(p.methods, 1);
    assert_eq!(p.constants, 0);
    assert!(p.doc.is_none());
}

#[test]
fn module_overview_sorts_packages() {
    let state = fixture_state();
    let mut packages = scan_fixture(None);
    packages.reverse();
    let o = handle_describe_module(state.repo().unwrap(), "example.com/fixture".to_string(), packages);
    let paths: Vec<&str> = o.packages.iter().map(|p| p.import_path.as_str()).collect();
    assert_eq!(paths, vec!["example.com/fixture/alpha", "example.com/fixture/beta"]);
    assert_eq!(o.path, "/fixture");
    assert_eq!(o.module, "example.com/fixture");
}

#[test]
fn edit_rejects_field_actions_on_functions() {
    let state = fixture_state();
    let input = EditInput {
        select: SelectKind::Functions,
        filters: vec![],
        action: EditAction::AddField { name: "X".to_string(), ty: "int".to_string() },
        dry_run: true,
    };
    let err = handle_edit(state.repo().unwrap(), &input, None).err().unwrap();
    assert_eq!(err.message(), "invalid action for this selection: add_field is not valid for functions");
}

#[test]
fn edit_empty_selection_message_names_the_request() {
    let state = fixture_state();
    let input = EditInput {
        select: SelectKind::Functions,
        filters: vec![Filter::Named("nope".to_owned()), Filter::Exported(true)],
        action: EditAction::Delete,
        dry_run: true,
    };
    let err = handle_edit(state.repo().unwrap(), &input, None).err().unwrap();
    assert_eq!(err.message(), "no items matched (select: Functions, filters: [Named(\"nope\"), Exported(true)])");
}

#[test]
fn edit_diff_shows_the_rename() {
    let state = fixture_state();
    let repo = state.repo().unwrap();
    let input = EditInput {
        select: SelectKind::Functions,
        filters: vec![Filter::Named("NewConfig".to_owned())],
        action: EditAction::Rename("MakeConfig".to_owned()),
        dry_run: true,
    };
    let applied = handle_edit(repo, &input, None).unwrap();
    let result = edit_result(&applied, &old_texts_of(&applied));
    assert_eq!(result.files_modified, vec!["/fixture/alpha/models.go".to_string()]);
    assert_eq!(result.edits_applied, 1);
    assert!(result.diff.starts_with("--- a//fixture/alpha/models.go\n+++ b//fixture/alpha/models.go\n@@ "));
    assert!(result.diff.contains("\n-func NewConfig() *Config {\n+func MakeConfig() *Config {\n"));
}

// --- Small repositories for interfaces, method lookup and fields ---

/// A repository under `/tmp/r` of the given files, each parsed from its text.
fn repo_from(files: &[(&str, &str)]) -> Repo {
    let files = files
        .iter()
        .map(|(path, text)| RepoFile {
            path: format!("/tmp/r/{path}"),
            source: text.as_bytes().to_vec(),
            ast: parse_and_walk(text.as_bytes()).expect("file parses"),
        })
        .collect();
    Repo::new("/tmp/r".to_string(), files)
}

fn names_implementing(repo: &Repo, iface: &str) -> Vec<String> {
    repo.structs().implementing(iface).collect().iter().map(|si| si.item.name().name.clone()).collect()
}

#[test]
fn test_implementing_empty_interface() {
    let repo = repo_from(&[(
        "pkg/types.go",
        "package pkg\n\ntype Any interface{}\n\ntype Foo struct{}\n\ntype Bar struct{}\n",
    )]);
    // Empty interface has no required methods → every struct satisfies it
    let count = repo.structs().implementing("Any").count();
    assert_eq!(count, 2, "all structs implement empty interface");
}

#[test]
fn test_implementing_multi_method_interface() {
    let repo = repo_from(&[(
        "pkg/types.go",
        r#"package pkg

type ReadWriter interface {
	Read(p []byte) (int, error)
	Write(p []byte) (int, error)
}

type Full struct{}

func (f *Full) Read(p []byte) (int, error) { return 0, nil }
func (f *Full) Write(p []byte) (int, error) { return 0, nil }

type ReadOnly struct{}

func (r *ReadOnly) Read(p []byte) (int, error) { return 0, nil }

type Empty struct{}
"#,
    )]);

    let names = names_implementing(&repo, "ReadWriter");
    assert!(names.contains(&"Full".to_owned()), "Full implements ReadWriter: {names:?}");
    assert!(!names.contains(&"ReadOnly".to_owned()), "ReadOnly only has Read: {names:?}");
    assert!(!names.contains(&"Empty".to_owned()), "Empty has nothing: {names:?}");
}

#[test]
fn test_implementing_partial_three_method_interface() {
    let repo = repo_from(&[(
        "pkg/types.go",
        r#"package pkg

type Storage interface {
	Get(key string) (string, error)
	Set(key string, value string) error
	Delete(key string) error
}

type FullStore struct{}

func (s *FullStore) Get(key string) (string, error) { return "", nil }
func (s *FullStore) Set(key string, value string) error { return nil }
func (s *FullStore) Delete(key string) error { return nil }

type PartialStore struct{}

func (s *PartialStore) Get(key string) (string, error) { return "", nil }
func (s *PartialStore) Set(key string, value string) error { return nil }
"#,
    )]);

    let names = names_implementing(&repo, "Storage");
    assert!(names.contains(&"FullStore".to_owned()), "FullStore has all 3 methods: {names:?}");
    assert!(!names.contains(&"PartialStore".to_owned()), "PartialStore only has 2 of 3 methods: {names:?}");
}

#[test]
fn test_method_lookup_scoped_to_package() {
    let repo = repo_from(&[
        // Package a: Config struct, no String() method
        ("a/a.go", "package a\n\ntype Config struct{ X int }\n"),
        // Package b: Config struct WITH String() method
        (
            "b/b.go",
            "package b\n\nimport \"fmt\"\n\ntype Config struct{ Y int }\n\nfunc (c *Config) String() string { return fmt.Sprintf(\"%+v\", *c) }\n",
        ),
    ]);

    // a.Config should NOT have String() — it's only on b.Config
    assert_eq!(
        repo.structs().in_package("a").method("String").existing().count(),
        0,
        "a.Config should not match b.Config's String() method"
    );
    assert_eq!(repo.structs().in_package("a").method("String").absent().count(), 1);

    // b.Config SHOULD have String()
    assert_eq!(repo.structs().in_package("b").method("String").existing().count(), 1);
}

#[test]
fn test_method_entry_delete_targets_correct_file() {
    // Type in one file, method in another (standard Go pattern)
    let repo = repo_from(&[
        ("pkg/types.go", "package pkg\n\ntype Foo struct{ X int }\n"),
        (
            "pkg/methods.go",
            "package pkg\n\nimport \"fmt\"\n\nfunc (f *Foo) String() string { return fmt.Sprintf(\"%+v\", *f) }\n",
        ),
    ]);

    // Delete String() via the type entry API
    let changes = repo.structs().method("String").delete();
    assert_eq!(changes.edit_count(), 1);

    let applied = repo.apply(changes);
    // types.go should be untouched; methods.go should have String() removed
    assert_eq!(applied.affected_files(), vec!["/tmp/r/pkg/methods.go"]);
    let dry = applied.dry_run();
    assert!(!dry[0].1.contains("func (f *Foo) String()"), "String() should be deleted from methods.go");
}

#[test]
fn test_method_entry_or_add_targets_type_file() {
    let repo = repo_from(&[("pkg/types.go", "package pkg\n\ntype Bar struct{ Y int }\n")]);

    let changes = repo.structs().method("String").or_add(|ts| {
        let name = &ts.name().name;
        build::method(
            build::pointer_receiver("x", name),
            "String",
            vec![],
            vec![build::unnamed_param(build::named("string"))],
            build::block(vec![build::ret(vec![build::string("bar")])]),
        )
    });
    assert_eq!(changes.edit_count(), 1);

    // The new method should be in types.go (same file as the type)
    let applied = repo.apply(changes);
    let dry = applied.dry_run();
    assert_eq!(dry[0].0, "/tmp/r/pkg/types.go");
    assert!(dry[0].1.contains("func (x *Bar) String()"), "String() should be added to types.go");
}

#[test]
fn test_add_field_to_empty_struct() {
    let repo = repo_from(&[("pkg/types.go", "package pkg\n\ntype Empty struct{}\n")]);
    let changes = repo.structs().named("Empty").add_field("Name", build::named("string"));

    // If the struct is empty (`struct{}`), add_field should still work
    if !changes.is_empty() {
        let applied = repo.apply(changes);
        let dry = applied.dry_run();
        assert!(dry[0].1.contains("Name"), "field should be added:\n{}", dry[0].1);
    }
}

#[test]
fn test_remove_field_does_not_delete_siblings() {
    let repo = repo_from(&[("pkg/types.go", "package pkg\n\ntype Point struct {\n\tX, Y int\n\tZ    float64\n}\n")]);

    // Removing "X" should NOT also remove "Y" (they share a field declaration)
    let changes = repo.structs().named("Point").remove_field("X");
    if !changes.is_empty() {
        let applied = repo.apply(changes);
        let dry = applied.dry_run();
        assert!(dry[0].1.contains("Y"), "Y should not be deleted when removing X from 'X, Y int':\n{}", dry[0].1);
    }

    // A field declared alone is removed with its line.
    let changes = repo.structs().named("Point").remove_field("Z");
    assert_eq!(changes.edit_count(), 1);
    let applied = repo.apply(changes);
    let dry = applied.dry_run();
    assert_eq!(dry[0].1, "package pkg\n\ntype Point struct {\n\tX, Y int\n}\n");
}

// --- Committing in memory: the new texts are parsed again ---

/// The fixture's texts after `applied` is written: each edited file takes its
/// new text.
fn texts_after(texts: &[(String, String)], applied: &Applied) -> Vec<(String, String)> {
    texts
        .iter()
        .map(|(path, text)| {
            let new = applied
                .results()
                .iter()
                .find(|(p, _)| p == path)
                .map(|(_, bytes)| String::from_utf8(bytes.clone()).unwrap())
                .unwrap_or_else(|| text.clone());
            (path.clone(), new)
        })
        .collect()
}

/// A repository of the given texts, each parsed.
fn repo_of_texts(texts: &[(String, String)]) -> Repo {
    let files = texts
        .iter()
        .map(|(path, text)| RepoFile {
            path: path.clone(),
            source: text.as_bytes().to_vec(),
            ast: parse_and_walk(text.as_bytes()).expect("file parses"),
        })
        .collect();
    Repo::new(ROOT.to_string(), files)
}

fn fixture_texts() -> Vec<(String, String)> {
    fixture_files().into_iter().map(|(p, t, _)| (p, t)).collect()
}

#[test]
fn test_delete_string_methods() {
    let texts = fixture_texts();
    let repo = repo_of_texts(&texts);

    // Verify String() methods exist
    let before = repo.structs().method("String").existing().count();
    assert!(before > 0, "fixture should have String() methods");

    // Delete all String() methods
    let changes = repo.structs().method("String").delete();
    assert!(!changes.is_empty());
    let texts = texts_after(&texts, &repo.apply(changes));

    // Verify no String() methods remain
    let repo2 = repo_of_texts(&texts);
    let after = repo2.structs().method("String").existing().count();
    assert_eq!(after, 0, "all String() methods should be deleted");
}

#[test]
fn test_add_string_methods() {
    let texts = fixture_texts();

    // First, delete existing String() methods so we can add them back
    let texts = {
        let repo = repo_of_texts(&texts);
        let changes = repo.structs().method("String").delete();
        texts_after(&texts, &repo.apply(changes))
    };

    // Now add String() to all exported structs
    let repo = repo_of_texts(&texts);
    let absent_before = repo.structs().exported().method("String").absent().count();
    assert!(absent_before > 0, "should have structs without String()");

    let changes = repo.structs().exported().method("String").or_add(|ts| {
        let name = &ts.name().name;
        build::method(
            build::pointer_receiver("x", name),
            "String",
            vec![],
            vec![build::unnamed_param(build::named("string"))],
            build::block(vec![build::ret(vec![build::call(
                build::selector(build::ident("fmt"), "Sprintf"),
                vec![build::string("%+v"), build::deref(build::ident("x"))],
            )])]),
        )
    });
    assert!(!changes.is_empty());
    let texts = texts_after(&texts, &repo.apply(changes));

    // Verify every exported struct now has String()
    let repo3 = repo_of_texts(&texts);
    let absent_after = repo3.structs().exported().method("String").absent().count();
    assert_eq!(absent_after, 0, "all exported structs should have String()");
}

#[test]
fn test_combine_changes() {
    let texts = fixture_texts();
    let repo = repo_of_texts(&texts);

    // Change 1: delete String() methods
    let c1 = repo.structs().method("String").delete();
    let c1_count = c1.edit_count();

    // Change 2: rename helperFunc to internalHelper
    let c2 = repo.functions().named("helperFunc").rename("internalHelper");
    let c2_count = c2.edit_count();

    assert!(c1_count > 0);
    assert!(c2_count > 0);

    let combined = Changes::combine(vec![c1, c2]);
    assert_eq!(combined.edit_count(), c1_count + c2_count);
    let texts = texts_after(&texts, &repo.apply(combined));

    // Verify both changes applied
    let repo2 = repo_of_texts(&texts);
    assert_eq!(repo2.structs().method("String").existing().count(), 0, "String methods should be deleted");
    assert_eq!(repo2.functions().named("internalHelper").count(), 1, "helperFunc should be renamed");
    assert_eq!(repo2.functions().named("helperFunc").count(), 0, "old name should not exist");
}

#[test]
fn test_dry_run_no_disk_modification() {
    let repo = fixture_repo();

    let changes = repo.structs().method("String").delete();
    assert!(!changes.is_empty());

    let applied = repo.apply(changes);
    let dry = applied.dry_run();

    // dry_run returns modified source but doesn't write
    assert!(!dry.is_empty());

    // The repository's files are unchanged — String() still exists
    let still_there = repo.structs().method("String").existing().count();
    assert!(still_there > 0, "dry_run should not modify the files");
    let repo2 = fixture_repo();
    assert!(repo2.structs().method("String").existing().count() > 0, "dry_run should not modify the files");
}

#[test]
fn test_dry_run_no_disk_write() {
    let repo = fixture_repo();
    let changes = repo.methods().named("String").delete();
    assert!(!changes.is_empty());

    let applied = repo.apply(changes);
    let dry = applied.dry_run();

    // Should have at least one affected file
    assert!(!dry.is_empty());

    // Same struct count — nothing was actually deleted
    let repo2 = fixture_repo();
    assert_eq!(repo2.structs().count(), 5);
}

#[test]
fn test_preview_returns_self() {
    let repo = fixture_repo();
    let changes = repo.functions().named("helperFunc").delete();
    let applied = repo.apply(changes);
    let edit_count = applied.edit_count();
    // Rendering the preview leaves the application as it was
    let preview = applied.preview_text();
    assert!(preview.contains("-func helperFunc() int {"), "preview shows the deletion:\n{preview}");
    assert_eq!(applied.edit_count(), edit_count);
}

#[test]
fn test_preview_before_commit() {
    let texts = fixture_texts();
    let repo = repo_of_texts(&texts);

    let changes = repo.functions().named("helperFunc").delete();
    let applied = repo.apply(changes);
    let _ = applied.preview_text();

    // Nothing is written yet
    assert_eq!(repo_of_texts(&texts).functions().named("helperFunc").count(), 1, "preview should not modify the files");

    // Now commit
    let texts = texts_after(&texts, &applied);
    assert_eq!(repo_of_texts(&texts).functions().named("helperFunc").count(), 0, "commit should have deleted helperFunc");
}

#[test]
fn test_edit_count_reflects_actual_applied() {
    let repo = fixture_repo();

    // Create a valid change
    let changes = repo.functions().named("helperFunc").delete();
    assert!(!changes.is_empty());

    let applied = repo.apply(changes);
    // edit_count should match actual number of edits that succeeded
    assert!(applied.edit_count() > 0);

    let summary = applied.summary();
    assert_eq!(summary.edits_applied, summary.files_modified.max(1));
}
