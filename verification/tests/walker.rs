//! Converting parsed Go source into the library's syntax tree.

use go_analyzer::ast::{
    ChanDir, CommCase, FieldDecl, ImportAlias, InterfaceElem, RangeAssign, SourceFile, Stmt, TopLevelDecl, TypeExpr,
    TypeSpec,
};
use go_analyzer::test_support::{print_func_decl, print_method_decl};
use go_analyzer::walker::{first_func_body, parse_and_walk, parse_go_block, wrap_body};

const IMPORTS: &str = "package fixtures

import (
\t\"fmt\"
\t. \"math\"
\t_ \"database/sql\"
\tmypkg \"example.com/mypkg\"
)
";

const FUNCTIONS: &str = "package fixtures

func Simple() {}

func WithParams(a int, b string) (int, error) {
\treturn a, nil
}

func Variadic(prefix string, xs ...int) {}

func Generic[T any](x T) T {
\treturn x
}
";

const METHODS: &str = "package fixtures

type Foo struct{}

func (f *Foo) PointerMethod() {}

func (f Foo) ValueMethod() {}
";

const TYPES: &str = "package fixtures

type MyStruct struct {
\tX int
\tY string
}

type MyInterface interface {
\tM() int
}

type MyAlias = int

type MyNewtype int

type GenericType[T any] struct {
\tv T
}
";

const STATEMENTS: &str = "package fixtures

func f(m map[string]int) int {
\tvar x int
\tconst c = 1
\ty := 2
\tx = y
\tx++
\tx--
\tif x > 0 {
\t\tx = 0
\t}
\tfor i := 0; i < 3; i++ {
\t}
\tfor k, v := range m {
\t\t_ = k
\t\t_ = v
\t}
\tswitch x {
\tcase 1:
\tdefault:
\t}
\treturn x + c
}
";

const EXPRESSIONS: &str = "package fixtures

func f() {
\ta := 1 + 2*3
\tb := []int{1, 2}
\tc := b[0]
\td := b[0:1]
\te := map[string]int{\"a\": 1}
\tg := func(x int) int { return x }
\th := &a
\ti := *h
\tj := !true
\tk := g(c)
\tvar l interface{} = 1
\tm := l.(int)
\tn := int64(k)
\t_, _, _, _, _, _, _ = d, e, i, j, m, n, \"s\"
}
";

const CHANNELS: &str = "package fixtures

func f() {
\tvar r <-chan int
\tvar s chan<- int
\tch := make(chan int)
\tch <- 42
\t_, _ = r, s
}
";

fn walk_fixture(src: &str) -> SourceFile {
    match parse_and_walk(src.as_bytes()) {
        Ok(sf) => sf,
        Err(e) => panic!("walk failed: {}", e.message()),
    }
}

#[test]
fn test_walk_imports() {
    let sf = walk_fixture(IMPORTS);
    assert_eq!(sf.package.name, "fixtures");
    assert_eq!(sf.imports.len(), 4);
    assert!(matches!(sf.imports[0].alias, ImportAlias::Implicit));
    assert!(sf.imports[0].path.raw.contains("fmt"));
    assert!(matches!(sf.imports[1].alias, ImportAlias::Dot));
    assert!(sf.imports[1].path.raw.contains("math"));
    assert!(matches!(sf.imports[2].alias, ImportAlias::Blank));
    assert!(sf.imports[2].path.raw.contains("database/sql"));
    match &sf.imports[3].alias {
        ImportAlias::Named(id) => assert_eq!(id.name, "mypkg"),
        other => panic!("expected Named, got {other:?}"),
    }
}

#[test]
fn test_walk_functions() {
    let sf = walk_fixture(FUNCTIONS);
    let funcs: Vec<_> = sf
        .decls
        .iter()
        .filter_map(|d| match d {
            TopLevelDecl::Func(f) => Some(f),
            _ => None,
        })
        .collect();
    assert_eq!(funcs.len(), 4);
    assert_eq!(funcs[0].name.name, "Simple");
    assert!(funcs[0].ty.params.is_empty());
    assert!(funcs[0].ty.results.is_empty());
    assert_eq!(funcs[1].name.name, "WithParams");
    assert_eq!(funcs[1].ty.params.len(), 2);
    assert_eq!(funcs[1].ty.results.len(), 2);
    assert_eq!(funcs[2].name.name, "Variadic");
    assert!(funcs[2].ty.params.last().unwrap().variadic);
    assert_eq!(funcs[3].name.name, "Generic");
    assert!(!funcs[3].ty.type_params.is_empty());
}

#[test]
fn test_walk_methods() {
    let sf = walk_fixture(METHODS);
    let methods: Vec<_> = sf
        .decls
        .iter()
        .filter_map(|d| match d {
            TopLevelDecl::Method(m) => Some(m),
            _ => None,
        })
        .collect();
    assert_eq!(methods.len(), 2);
    let pm = &methods[0];
    assert_eq!(pm.name.name, "PointerMethod");
    assert!(matches!(pm.receiver.ty, TypeExpr::Pointer(_)));
    assert_eq!(pm.receiver.name.as_ref().unwrap().name, "f");
    let vm = &methods[1];
    assert_eq!(vm.name.name, "ValueMethod");
    assert!(matches!(vm.receiver.ty, TypeExpr::Named(ref id) if id.name == "Foo"));
}

#[test]
fn test_walk_types() {
    let sf = walk_fixture(TYPES);
    let type_decls: Vec<_> = sf
        .decls
        .iter()
        .filter_map(|d| match d {
            TopLevelDecl::Type(specs) => Some(specs),
            _ => None,
        })
        .collect();
    assert_eq!(type_decls.len(), 5);
    let s = &type_decls[0][0];
    assert_eq!(s.name().name, "MyStruct");
    assert!(s.is_struct());
    let i = &type_decls[1][0];
    assert_eq!(i.name().name, "MyInterface");
    assert!(i.is_interface());
    let a = &type_decls[2][0];
    assert_eq!(a.name().name, "MyAlias");
    assert!(matches!(a, TypeSpec::Alias { .. }));
    let n = &type_decls[3][0];
    assert_eq!(n.name().name, "MyNewtype");
    assert!(matches!(n, TypeSpec::Def { .. }));
    let g = &type_decls[4][0];
    assert_eq!(g.name().name, "GenericType");
}

fn first_func_stmts(sf: &SourceFile) -> &Vec<Stmt> {
    match &sf.decls[0] {
        TopLevelDecl::Func(f) => &f.body.as_ref().unwrap().stmts,
        _ => panic!("expected func"),
    }
}

#[test]
fn test_walk_statements() {
    let sf = walk_fixture(STATEMENTS);
    let stmts = first_func_stmts(&sf);
    assert!(!stmts.is_empty(), "should have statements");
    assert!(stmts.iter().any(|s| matches!(s, Stmt::VarDecl(..))), "missing var");
    assert!(stmts.iter().any(|s| matches!(s, Stmt::ConstDecl(..))), "missing const");
    assert!(stmts.iter().any(|s| matches!(s, Stmt::ShortVarDecl { .. })), "missing short var decl");
    assert!(stmts.iter().any(|s| matches!(s, Stmt::Assign { .. })), "missing assign");
    assert!(stmts.iter().any(|s| matches!(s, Stmt::Inc(..))), "missing inc");
    assert!(stmts.iter().any(|s| matches!(s, Stmt::Dec(..))), "missing dec");
    assert!(stmts.iter().any(|s| matches!(s, Stmt::If { .. })), "missing if");
    assert!(stmts.iter().any(|s| matches!(s, Stmt::For { .. })), "missing for");
    assert!(stmts.iter().any(|s| matches!(s, Stmt::ForRange { .. })), "missing for range");
    assert!(stmts.iter().any(|s| matches!(s, Stmt::Switch { .. })), "missing switch");
    assert!(stmts.iter().any(|s| matches!(s, Stmt::Return { .. })), "missing return");
}

#[test]
fn test_walk_for_range_key_value() {
    let sf = walk_fixture(STATEMENTS);
    let stmts = first_func_stmts(&sf);
    let range_stmt = stmts.iter().find(|s| matches!(s, Stmt::ForRange { .. })).unwrap();
    match range_stmt {
        Stmt::ForRange { key, value, assign, .. } => {
            assert!(key.is_some(), "range should have key");
            assert!(value.is_some(), "range should have value");
            assert_eq!(*assign, RangeAssign::Define);
        },
        _ => unreachable!(),
    }
}

#[test]
fn test_walk_expressions() {
    let sf = walk_fixture(EXPRESSIONS);
    let stmts = first_func_stmts(&sf);
    assert!(!stmts.is_empty(), "should have statements");
}

#[test]
fn test_walk_channels() {
    let sf = walk_fixture(CHANNELS);
    let stmts = first_func_stmts(&sf);
    assert!(stmts.iter().any(|s| matches!(s, Stmt::Send { .. })), "missing send statement");
    let vars: Vec<_> = stmts
        .iter()
        .filter_map(|s| match s {
            Stmt::VarDecl(vs, _) => Some(vs),
            _ => None,
        })
        .collect();
    assert_eq!(vars.len(), 2);
    match &vars[0][0].ty {
        Some(TypeExpr::Channel { direction, .. }) => assert_eq!(*direction, ChanDir::Recv),
        other => panic!("expected a channel type, got {other:?}"),
    }
    match &vars[1][0].ty {
        Some(TypeExpr::Channel { direction, .. }) => assert_eq!(*direction, ChanDir::Send),
        other => panic!("expected a channel type, got {other:?}"),
    }
}

#[test]
fn test_walker_no_synthetic_spans() {
    let sf = walk_fixture(FUNCTIONS);
    assert!(!sf.package.span.is_synthetic());
    assert!(!sf.span.is_synthetic());
    match &sf.decls[0] {
        TopLevelDecl::Func(f) => {
            assert!(!f.span.is_synthetic());
            assert!(!f.name.span.is_synthetic());
        },
        _ => panic!("expected func"),
    }
}

#[test]
fn replacement_body_is_read_as_a_function_body() {
    let wrapped = wrap_body("x := 1\nreturn");
    assert_eq!(wrapped, "package p\nfunc _() {\nx := 1\nreturn\n}");
    let sf = parse_and_walk(wrapped.as_bytes()).unwrap();
    let block = first_func_body(sf).unwrap();
    assert_eq!(block.stmts.len(), 2);
}

#[test]
fn replacement_body_parses_to_its_statements() {
    let block = parse_go_block("x := 1\nreturn").unwrap();
    assert_eq!(block.stmts.len(), 2);
    let empty = parse_go_block("").unwrap();
    assert!(empty.stmts.is_empty());
}

#[test]
fn file_without_function_body_has_no_block() {
    let sf = parse_and_walk(b"package p\nvar x int\n").unwrap();
    assert_eq!(first_func_body(sf).err().unwrap(), "could not extract block");
}

// --- Regression cases ---

fn func_of(sf: &SourceFile, k: usize) -> &go_analyzer::ast::FuncDecl {
    match &sf.decls[k] {
        TopLevelDecl::Func(f) => f,
        _ => panic!("expected func"),
    }
}

fn first_func(sf: &SourceFile) -> &go_analyzer::ast::FuncDecl {
    sf.decls
        .iter()
        .find_map(|d| match d {
            TopLevelDecl::Func(f) => Some(&**f),
            _ => None,
        })
        .expect("expected a function")
}

#[test]
fn test_struct_field_tags_preserved() {
    let src = b"package p

type Config struct {
\tHost string `json:\"host\" yaml:\"host\"`
\tPort int    `json:\"port\"`
}
";
    let sf = parse_and_walk(src).unwrap();
    let ts = sf
        .decls
        .iter()
        .find_map(|d| match d {
            TopLevelDecl::Type(specs) => specs.first(),
            _ => None,
        })
        .expect("should have type decl");
    match ts.ty() {
        TypeExpr::Struct(st) => {
            for k in 0..2 {
                match &st.fields[k] {
                    FieldDecl::Named { tag, .. } => {
                        let tag = tag.as_ref().expect("field should have a tag");
                        assert!(tag.raw.contains("json"), "tag should contain json, got: {:?}", tag.raw);
                    },
                    _ => panic!("expected named field"),
                }
            }
        },
        _ => panic!("expected struct type"),
    }
}

const BARE_RECEIVE: &[u8] = b"package p

func f() {
\tch := make(chan int)
\tselect {
\tcase <-ch:
\t\treturn
\t}
}
";

#[test]
fn test_bare_receive_in_select_preserved() {
    let sf = parse_and_walk(BARE_RECEIVE).unwrap();
    let body = func_of(&sf, 0).body.as_ref().unwrap();
    let cases = body
        .stmts
        .iter()
        .find_map(|s| match s {
            Stmt::Select { cases, .. } => Some(cases),
            _ => None,
        })
        .expect("should have select");
    assert_eq!(cases.len(), 1);
    match &cases[0] {
        CommCase::Recv { stmt, recv_expr, .. } => {
            assert!(stmt.is_none(), "bare receive should have no assignment");
            assert!(recv_expr.is_some(), "bare receive should have recv_expr populated");
        },
        other => panic!("expected Recv, got {other:?}"),
    }
}

fn first_body_stmts(sf: &SourceFile) -> &Vec<Stmt> {
    let func = match &sf.decls[0] {
        TopLevelDecl::Func(f) => f,
        _ => panic!("expected func"),
    };
    &func.body.as_ref().unwrap().stmts
}

#[test]
fn test_grouped_var_decl_all_specs_preserved() {
    let src = br#"package p

func f() {
	var (
		x int
		y string
		z float64
	)
	_ = x
	_ = y
	_ = z
}
"#;
    let sf = parse_and_walk(src).unwrap();
    let var_decl = first_body_stmts(&sf).iter().find_map(|s| match s {
        Stmt::VarDecl(specs, _) => Some(specs),
        _ => None,
    });
    let specs = var_decl.expect("should have var decl");
    assert_eq!(specs.len(), 3, "all 3 var specs should be preserved, got {}", specs.len());
    assert_eq!(specs[0].names[0].name, "x");
    assert_eq!(specs[1].names[0].name, "y");
    assert_eq!(specs[2].names[0].name, "z");
}

#[test]
fn test_grouped_const_decl_all_specs_preserved() {
    let src = br#"package p

func f() {
	const (
		A = 1
		B = 2
		C = 3
	)
	_ = A
	_ = B
	_ = C
}
"#;
    let sf = parse_and_walk(src).unwrap();
    let const_decl = first_body_stmts(&sf).iter().find_map(|s| match s {
        Stmt::ConstDecl(specs, _) => Some(specs),
        _ => None,
    });
    let specs = const_decl.expect("should have const decl");
    assert_eq!(specs.len(), 3, "all 3 const specs should be preserved");
}

#[test]
fn test_grouped_type_decl_all_specs_preserved() {
    let src = br#"package p

func f() {
	type (
		MyInt int
		MyStr string
	)
	var _ MyInt
	var _ MyStr
}
"#;
    let sf = parse_and_walk(src).unwrap();
    let type_decl = first_body_stmts(&sf).iter().find_map(|s| match s {
        Stmt::TypeDecl(specs, _) => Some(specs),
        _ => None,
    });
    let specs = type_decl.expect("should have type decl");
    assert_eq!(specs.len(), 2, "both type specs should be preserved");
}

#[test]
fn grouped_declarations_print_one_spec_per_line() {
    let sf = parse_and_walk(b"package p\n\nfunc f() {\n\tvar (\n\t\tx int\n\t\ty = 2\n\t)\n\tconst c = 1\n}\n").unwrap();
    let printed = print_func_decl(func_of(&sf, 0));
    assert_eq!(printed, "func f() {\n\tvar (\n\t\tx int\n\t\ty = 2\n\t)\n\tconst c = 1\n}");
}

#[test]
fn test_bare_receive_roundtrips_through_printer() {
    let sf = parse_and_walk(BARE_RECEIVE).unwrap();
    let printed = print_func_decl(func_of(&sf, 0));
    assert!(printed.contains("case <-ch"), "printed should contain 'case <-ch', got:\n{printed}");
}

#[test]
fn test_tilde_in_type_constraint_preserved() {
    let src = b"package p

type Number interface {
\t~int | ~float64
}
";
    let sf = parse_and_walk(src).unwrap();
    let ts = sf
        .decls
        .iter()
        .find_map(|d| match d {
            TopLevelDecl::Type(specs) => specs.first(),
            _ => None,
        })
        .expect("should have type decl");
    match ts.ty() {
        TypeExpr::Interface(it) => {
            let term = match &it.elements[0] {
                InterfaceElem::TypeTerm(tt) => tt,
                other => panic!("expected TypeTerm, got {other:?}"),
            };
            assert!(term.terms[0].tilde, "~int should have tilde=true");
            assert!(term.terms[1].tilde, "~float64 should have tilde=true");
        },
        _ => panic!("expected interface type"),
    }
}

#[test]
fn test_pointer_type_conversion_has_parens() {
    let src = b"package p

type MyInt int

func f() {
\tvar x int = 42
\t_ = (*MyInt)(&x)
}
";
    let sf = parse_and_walk(src).unwrap();
    let printed = print_func_decl(first_func(&sf));
    assert!(printed.contains("(*MyInt)"), "pointer type conversion should have parens: (*MyInt)(...), got:\n{printed}");
}

#[test]
fn test_channel_direction_with_whitespace_variations() {
    for src in [&b"package p\nvar ch chan<- int\n"[..], &b"package p\nvar ch chan <- int\n"[..]] {
        let sf = parse_and_walk(src).unwrap();
        let var = sf.decls.iter().find_map(|d| match d {
            TopLevelDecl::Var(specs) => specs.first(),
            _ => None,
        });
        match var.unwrap().ty.as_ref().unwrap() {
            TypeExpr::Channel { direction, .. } => assert_eq!(*direction, ChanDir::Send),
            _ => panic!("expected channel type"),
        }
    }
}

#[test]
fn test_bare_for_range_no_assign() {
    let src = b"package p

func f() {
\ts := []int{1, 2, 3}
\tfor range s {
\t}
}
";
    let sf = parse_and_walk(src).unwrap();
    let body = func_of(&sf, 0).body.as_ref().unwrap();
    let (key, value, assign) = body
        .stmts
        .iter()
        .find_map(|s| match s {
            Stmt::ForRange { key, value, assign, .. } => Some((key, value, assign)),
            _ => None,
        })
        .expect("should have for-range");
    assert!(key.is_none(), "bare range should have no key");
    assert!(value.is_none(), "bare range should have no value");
    assert_ne!(*assign, RangeAssign::Define, "bare for-range with no variables should not be RangeAssign::Define");
}

#[test]
fn test_type_switch_assign_span_not_entire_switch() {
    let src = b"package p

func f() {
\tvar x interface{} = 42
\tswitch v := x.(type) {
\tcase int:
\t\t_ = v
\t}
}
";
    let sf = parse_and_walk(src).unwrap();
    let body = func_of(&sf, 0).body.as_ref().unwrap();
    let (assign, switch_span) = body
        .stmts
        .iter()
        .find_map(|s| match s {
            Stmt::TypeSwitch { assign, span, .. } => Some((assign, span)),
            _ => None,
        })
        .expect("should have type switch");
    let assign_size = assign.span.end_byte - assign.span.start_byte;
    let switch_size = switch_span.end_byte - switch_span.start_byte;
    assert!(assign_size < switch_size);
}

#[test]
fn test_for_no_post_no_double_space() {
    let src = b"package p

func f() {
\tfor i := 0; i < 10; {
\t\t_ = i
\t}
}
";
    let sf = parse_and_walk(src).unwrap();
    let printed = print_func_decl(func_of(&sf, 0));
    assert!(!printed.contains(";  {"), "should not have double space before opening brace:\n{printed}");
}

#[test]
fn test_generic_instantiation_no_spurious_parens() {
    let src = b"package p

func f() {
\ttype Set[T any] struct{}
\tvar _ Set[int]
}
";
    let sf = parse_and_walk(src).unwrap();
    let printed = print_func_decl(func_of(&sf, 0));
    assert!(!printed.contains("(Set[int])"), "generic instantiation should not have spurious parens:\n{printed}");
}

// --- Printed declarations read back to the same declarations ---

fn roundtrip_test(src: &str) {
    let sf = parse_and_walk(src.as_bytes()).expect("walk failed");
    for decl in &sf.decls {
        let printed = match decl {
            TopLevelDecl::Func(f) => print_func_decl(f),
            TopLevelDecl::Method(m) => print_method_decl(m),
            _ => continue,
        };
        let wrapped = format!("package p\n\n{printed}\n");
        let again = match parse_and_walk(wrapped.as_bytes()) {
            Ok(sf) => sf,
            Err(e) => panic!("printed declaration does not parse:\n{wrapped}\nError: {}", e.message()),
        };
        let reprinted = match &again.decls[0] {
            TopLevelDecl::Func(f) => print_func_decl(f),
            TopLevelDecl::Method(m) => print_method_decl(m),
            _ => panic!("expected a function or method"),
        };
        assert_eq!(reprinted, printed, "printing is not stable:\n{wrapped}");
    }
}

#[test]
fn test_roundtrip_select() {
    roundtrip_test("package p\n\nfunc f() {\n\tch := make(chan int)\n\tselect {\n\tcase x := <-ch:\n\t\t_ = x\n\tdefault:\n\t\treturn\n\t}\n}\n");
}

#[test]
fn test_roundtrip_nested_if() {
    roundtrip_test("package p\n\nfunc f() {\n\tif true {\n\t\tif false {\n\t\t\treturn\n\t\t}\n\t}\n}\n");
}

#[test]
fn test_roundtrip_switch_in_for() {
    roundtrip_test(
        "package p\n\nfunc f() {\n\tfor i := 0; i < 10; i++ {\n\t\tswitch i {\n\t\tcase 0:\n\t\t\tbreak\n\t\tdefault:\n\t\t\tcontinue\n\t\t}\n\t}\n}\n",
    );
}

#[test]
fn test_roundtrip_grouped_decls() {
    roundtrip_test("package p\n\nfunc f() {\n\ttype (\n\t\tA int\n\t\tB = string\n\t)\n\tconst (\n\t\tx = iota\n\t\ty\n\t)\n\tvar z A\n\t_ = z\n}\n");
}

#[test]
fn test_roundtrip_func_lit() {
    roundtrip_test("package p\n\nfunc f() {\n\tg := func(x int) int {\n\t\treturn x + 1\n\t}\n\t_ = g\n}\n");
}

#[test]
fn printed_source_keeps_its_text() {
    let src = "package p\n\nfunc f() {\n\tif true {\n\t\tif false {\n\t\t\treturn\n\t\t}\n\t}\n}\n";
    let sf = parse_and_walk(src.as_bytes()).unwrap();
    assert_eq!(
        print_func_decl(func_of(&sf, 0)),
        "func f() {\n\tif true {\n\t\tif false {\n\t\t\treturn\n\t\t}\n\t}\n}"
    );
}

#[test]
fn syntax_errors_are_found() {
    assert!(!go_analyzer::walker::parse_has_error(b"package p\n\nfunc f() {}\n"));
    assert!(go_analyzer::walker::parse_has_error(b"package p\n\nfunc f( {\n"));
}

#[test]
fn variadic_receiver_is_rejected() {
    let e = parse_and_walk(b"package p\n\nfunc (xs ...int) M() {}\n").err().unwrap();
    assert_eq!(e.message(), "unexpected node: variadic receiver");
}

#[test]
fn empty_receiver_is_rejected() {
    let e = parse_and_walk(b"package p\n\nfunc () M() {}\n").err().unwrap();
    assert_eq!(e.message(), "missing required field: receiver parameter");
}

#[test]
fn missing_package_is_rejected() {
    let e = parse_and_walk(b"func f() {}\n").err().unwrap();
    assert_eq!(e.message(), "missing required field: package");
}

#[test]
fn malformed_tree_is_a_parse_error() {
    let leaf = |kind: &str| go_analyzer::cst::CstNode {
        kind: kind.to_string(),
        field: None,
        named: true,
        extra: false,
        error: false,
        span: go_analyzer::span::Span::synthetic(),
        children: vec![],
    };
    // A selector without its operand and field, and a node of no known kind.
    for n in [leaf("selector_expression"), leaf("ERROR")] {
        let e = go_analyzer::walker::walk_expr(&n, b"").err().unwrap();
        assert_eq!(e.message(), "tree-sitter parse error");
    }
    let id = go_analyzer::walker::walk_expr(&leaf("identifier"), b"").unwrap();
    assert!(matches!(id, go_analyzer::ast::Expr::Ident(ref i) if i.name.is_empty()));
}
