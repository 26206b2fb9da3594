//! Rendering of syntax nodes as Go source text.

use go_analyzer::ast::{AssignOp, BinaryOp, Block, ChanDir, Expr, FieldDecl, FuncDecl, FuncType, InterfaceElem, InterfaceType, KeyedElem, ParamDecl, RangeAssign, Stmt, StructType, TypeExpr, TypeSpec, UnaryOp, VarSpec};
use go_analyzer::build;
use go_analyzer::leaf::{Ident, IntLit};
use go_analyzer::printer::Printer;
use go_analyzer::span::Span;

// --- Type expression tests ---

#[test]
fn test_print_named_type() {
    let s = Printer::type_expr(&TypeExpr::Named(Ident::synthetic("int")));
    assert_eq!(s, "int");
}

#[test]
fn test_print_qualified_type() {
    let s = Printer::type_expr(&TypeExpr::Qualified {
        package: Ident::synthetic("fmt"),
        name: Ident::synthetic("Stringer"),
    });
    assert_eq!(s, "fmt.Stringer");
}

#[test]
fn test_print_pointer_type() {
    let s = Printer::type_expr(&build::pointer(build::named("int")));
    assert_eq!(s, "*int");
}

#[test]
fn test_print_slice_type() {
    let s = Printer::type_expr(&build::slice(build::named("byte")));
    assert_eq!(s, "[]byte");
}

#[test]
fn test_print_array_type() {
    let s = Printer::type_expr(&TypeExpr::Array {
        len: Box::new(Expr::Int(IntLit {
            raw: "10".into(),
            span: Span::synthetic(),
        })),
        elem: Box::new(TypeExpr::Named(Ident::synthetic("int"))),
    });
    assert_eq!(s, "[10]int");
}

#[test]
fn test_print_map_type() {
    let s = Printer::type_expr(&build::map_type(
        build::named("string"),
        build::named("int"),
    ));
    assert_eq!(s, "map[string]int");
}

#[test]
fn test_print_chan_types() {
    let both = Printer::type_expr(&TypeExpr::Channel {
        direction: ChanDir::Both,
        elem: Box::new(TypeExpr::Named(Ident::synthetic("int"))),
    });
    assert_eq!(both, "chan int");

    let recv = Printer::type_expr(&TypeExpr::Channel {
        direction: ChanDir::Recv,
        elem: Box::new(TypeExpr::Named(Ident::synthetic("int"))),
    });
    assert_eq!(recv, "<-chan int");

    let send = Printer::type_expr(&TypeExpr::Channel {
        direction: ChanDir::Send,
        elem: Box::new(TypeExpr::Named(Ident::synthetic("int"))),
    });
    assert_eq!(send, "chan<- int");
}

#[test]
fn test_print_func_type() {
    let ft = FuncType {
        type_params: vec![],
        params: vec![ParamDecl {
            names: vec![Ident::synthetic("x")],
            ty: TypeExpr::Named(Ident::synthetic("int")),
            variadic: false,
            span: Span::synthetic(),
        }],
        results: vec![ParamDecl {
            names: vec![],
            ty: TypeExpr::Named(Ident::synthetic("error")),
            variadic: false,
            span: Span::synthetic(),
        }],
        span: Span::synthetic(),
    };
    let s = Printer::type_expr(&TypeExpr::Func(ft));
    assert_eq!(s, "func(x int) error");
}

#[test]
fn test_print_struct_type() {
    let st = StructType {
        fields: vec![FieldDecl::Named {
            names: vec![Ident::synthetic("Name")],
            ty: TypeExpr::Named(Ident::synthetic("string")),
            tag: None,
            span: Span::synthetic(),
        }],
        span: Span::synthetic(),
    };
    let s = Printer::type_expr(&TypeExpr::Struct(st));
    assert!(s.contains("struct"));
    assert!(s.contains("Name string"));
}

#[test]
fn test_print_empty_struct() {
    let st = StructType {
        fields: vec![],
        span: Span::synthetic(),
    };
    let s = Printer::type_expr(&TypeExpr::Struct(st));
    assert_eq!(s, "struct{}");
}

#[test]
fn test_print_interface_type() {
    let it = InterfaceType {
        elements: vec![InterfaceElem::Method {
            name: Ident::synthetic("String"),
            ty: FuncType {
                type_params: vec![],
                params: vec![],
                results: vec![ParamDecl {
                    names: vec![],
                    ty: TypeExpr::Named(Ident::synthetic("string")),
                    variadic: false,
                    span: Span::synthetic(),
                }],
                span: Span::synthetic(),
            },
            span: Span::synthetic(),
        }],
        span: Span::synthetic(),
    };
    let s = Printer::type_expr(&TypeExpr::Interface(it));
    assert!(s.contains("String() string"));
}

#[test]
fn test_print_empty_interface() {
    let it = InterfaceType {
        elements: vec![],
        span: Span::synthetic(),
    };
    let s = Printer::type_expr(&TypeExpr::Interface(it));
    assert_eq!(s, "interface{}");
}

#[test]
fn test_print_generic_type() {
    let s = Printer::type_expr(&TypeExpr::Generic {
        base: Box::new(TypeExpr::Named(Ident::synthetic("List"))),
        args: vec![TypeExpr::Named(Ident::synthetic("int"))],
    });
    assert_eq!(s, "List[int]");
}

// --- Expression tests ---

#[test]
fn test_print_ident_expr() {
    let s = Printer::expr(&build::ident("x"));
    assert_eq!(s, "x");
}

#[test]
fn test_print_int_expr() {
    let s = Printer::expr(&build::integer(42));
    assert_eq!(s, "42");
}

#[test]
fn test_print_string_expr() {
    let s = Printer::expr(&build::string("hello"));
    assert_eq!(s, "\"hello\"");
}

#[test]
fn test_print_bool_nil_iota() {
    assert_eq!(Printer::expr(&Expr::True(Span::synthetic())), "true");
    assert_eq!(Printer::expr(&Expr::False(Span::synthetic())), "false");
    assert_eq!(Printer::expr(&Expr::Nil(Span::synthetic())), "nil");
    assert_eq!(Printer::expr(&Expr::Iota(Span::synthetic())), "iota");
}

#[test]
fn test_print_call_expr() {
    let e = build::call(
        build::selector(build::ident("fmt"), "Println"),
        vec![build::string("hello")],
    );
    let s = Printer::expr(&e);
    assert_eq!(s, "fmt.Println(\"hello\")");
}

#[test]
fn test_print_selector_expr() {
    let s = Printer::expr(&build::selector(build::ident("x"), "Field"));
    assert_eq!(s, "x.Field");
}

#[test]
fn test_print_unary_ops() {
    let deref = Printer::expr(&build::deref(build::ident("x")));
    assert_eq!(deref, "*x");
    let addr = Printer::expr(&build::addr(build::ident("x")));
    assert_eq!(addr, "&x");
    let neg = Printer::expr(&Expr::Unary {
        op: UnaryOp::Neg,
        operand: Box::new(build::integer(1)),
        span: Span::synthetic(),
    });
    assert_eq!(neg, "-1");
    let not = Printer::expr(&Expr::Unary {
        op: UnaryOp::Not,
        operand: Box::new(build::ident("x")),
        span: Span::synthetic(),
    });
    assert_eq!(not, "!x");
    let bitnot = Printer::expr(&Expr::Unary {
        op: UnaryOp::BitNot,
        operand: Box::new(build::ident("x")),
        span: Span::synthetic(),
    });
    assert_eq!(bitnot, "^x");
    let recv = Printer::expr(&Expr::Unary {
        op: UnaryOp::Recv,
        operand: Box::new(build::ident("ch")),
        span: Span::synthetic(),
    });
    assert_eq!(recv, "<-ch");
}

#[test]
fn test_print_all_binary_ops() {
    let ops = [
        (BinaryOp::Add, "+"),
        (BinaryOp::Sub, "-"),
        (BinaryOp::Mul, "*"),
        (BinaryOp::Div, "/"),
        (BinaryOp::Rem, "%"),
        (BinaryOp::And, "&"),
        (BinaryOp::Or, "|"),
        (BinaryOp::Xor, "^"),
        (BinaryOp::AndNot, "&^"),
        (BinaryOp::Shl, "<<"),
        (BinaryOp::Shr, ">>"),
        (BinaryOp::LogAnd, "&&"),
        (BinaryOp::LogOr, "||"),
        (BinaryOp::Eq, "=="),
        (BinaryOp::Ne, "!="),
        (BinaryOp::Lt, "<"),
        (BinaryOp::Le, "<="),
        (BinaryOp::Gt, ">"),
        (BinaryOp::Ge, ">="),
    ];
    for (op, expected_str) in ops {
        let e = Expr::Binary {
            op,
            left: Box::new(build::ident("a")),
            right: Box::new(build::ident("b")),
            span: Span::synthetic(),
        };
        let s = Printer::expr(&e);
        assert_eq!(s, format!("a {expected_str} b"), "op: {expected_str}");
    }
}

#[test]
fn test_print_paren_expr() {
    let e = Expr::Paren(Box::new(build::ident("x")), Span::synthetic());
    assert_eq!(Printer::expr(&e), "(x)");
}

#[test]
fn test_print_index_expr() {
    let e = Expr::Index {
        operand: Box::new(build::ident("arr")),
        index: Box::new(build::integer(0)),
        span: Span::synthetic(),
    };
    assert_eq!(Printer::expr(&e), "arr[0]");
}

#[test]
fn test_print_slice_expr() {
    let e = Expr::Slice {
        operand: Box::new(build::ident("s")),
        low: Some(Box::new(build::integer(1))),
        high: Some(Box::new(build::integer(3))),
        max: None,
        span: Span::synthetic(),
    };
    assert_eq!(Printer::expr(&e), "s[1:3]");

    // 3-index slice
    let e2 = Expr::Slice {
        operand: Box::new(build::ident("s")),
        low: Some(Box::new(build::integer(1))),
        high: Some(Box::new(build::integer(3))),
        max: Some(Box::new(build::integer(5))),
        span: Span::synthetic(),
    };
    assert_eq!(Printer::expr(&e2), "s[1:3:5]");
}

#[test]
fn test_print_type_assert() {
    let e = Expr::TypeAssert {
        operand: Box::new(build::ident("x")),
        ty: Box::new(build::named("int")),
        span: Span::synthetic(),
    };
    assert_eq!(Printer::expr(&e), "x.(int)");
}

#[test]
fn test_print_composite_lit() {
    let e = Expr::Composite {
        ty: Box::new(TypeExpr::Named(Ident::synthetic("Point"))),
        elems: vec![
            KeyedElem {
                key: Some(build::ident("X")),
                value: build::integer(1),
                span: Span::synthetic(),
            },
            KeyedElem {
                key: Some(build::ident("Y")),
                value: build::integer(2),
                span: Span::synthetic(),
            },
        ],
        span: Span::synthetic(),
    };
    let s = Printer::expr(&e);
    assert_eq!(s, "Point{X: 1, Y: 2}");
}

// --- needs_parens tests ---

#[test]
fn test_needs_parens_lower_prec_child() {
    // a + b inside a * context → needs parens
    let child = Expr::Binary {
        op: BinaryOp::Add,
        left: Box::new(build::ident("a")),
        right: Box::new(build::ident("b")),
        span: Span::synthetic(),
    };
    assert!(Printer::needs_parens(BinaryOp::Mul, &child, true));
    assert!(Printer::needs_parens(BinaryOp::Mul, &child, false));
}

#[test]
fn test_needs_parens_same_prec_left() {
    // a + b on left side of + → no parens (left-associative)
    let child = Expr::Binary {
        op: BinaryOp::Add,
        left: Box::new(build::ident("a")),
        right: Box::new(build::ident("b")),
        span: Span::synthetic(),
    };
    assert!(!Printer::needs_parens(BinaryOp::Add, &child, true));
}

#[test]
fn test_needs_parens_same_prec_right() {
    // a + b on right side of + → needs parens (preserve left-associativity)
    let child = Expr::Binary {
        op: BinaryOp::Add,
        left: Box::new(build::ident("a")),
        right: Box::new(build::ident("b")),
        span: Span::synthetic(),
    };
    assert!(Printer::needs_parens(BinaryOp::Add, &child, false));
}

#[test]
fn test_needs_parens_higher_prec_child() {
    // a * b inside a + context → no parens
    let child = Expr::Binary {
        op: BinaryOp::Mul,
        left: Box::new(build::ident("a")),
        right: Box::new(build::ident("b")),
        span: Span::synthetic(),
    };
    assert!(!Printer::needs_parens(BinaryOp::Add, &child, true));
    assert!(!Printer::needs_parens(BinaryOp::Add, &child, false));
}

#[test]
fn test_needs_parens_non_binary_child() {
    let child = build::ident("x");
    assert!(!Printer::needs_parens(BinaryOp::Add, &child, true));
}

#[test]
fn test_needs_parens_exhaustive_precedence_levels() {
    // Test every pair of precedence levels
    let ops_by_prec: Vec<(u8, BinaryOp)> = vec![
        (1, BinaryOp::LogOr),
        (2, BinaryOp::LogAnd),
        (3, BinaryOp::Eq),
        (4, BinaryOp::Add),
        (5, BinaryOp::Mul),
    ];

    for &(parent_prec, parent_op) in &ops_by_prec {
        for &(child_prec, child_op) in &ops_by_prec {
            let child = Expr::Binary {
                op: child_op,
                left: Box::new(build::ident("a")),
                right: Box::new(build::ident("b")),
                span: Span::synthetic(),
            };

            if child_prec < parent_prec {
                // Lower-prec child always needs parens
                assert!(
                    Printer::needs_parens(parent_op, &child, true),
                    "child_prec={child_prec} < parent_prec={parent_prec}, left"
                );
                assert!(
                    Printer::needs_parens(parent_op, &child, false),
                    "child_prec={child_prec} < parent_prec={parent_prec}, right"
                );
            } else if child_prec == parent_prec {
                // Same prec: no parens on left, parens on right
                assert!(
                    !Printer::needs_parens(parent_op, &child, true),
                    "child_prec={child_prec} == parent_prec={parent_prec}, left"
                );
                assert!(
                    Printer::needs_parens(parent_op, &child, false),
                    "child_prec={child_prec} == parent_prec={parent_prec}, right"
                );
            } else {
                // Higher-prec child never needs parens
                assert!(
                    !Printer::needs_parens(parent_op, &child, true),
                    "child_prec={child_prec} > parent_prec={parent_prec}, left"
                );
                assert!(
                    !Printer::needs_parens(parent_op, &child, false),
                    "child_prec={child_prec} > parent_prec={parent_prec}, right"
                );
            }
        }
    }
}

// --- Statement tests ---

#[test]
fn test_print_return_stmt() {
    let s = Printer::stmt(&Stmt::Return {
        values: vec![build::ident("x")],
        span: Span::synthetic(),
    });
    assert_eq!(s, "return x");
}

#[test]
fn test_print_empty_return() {
    let s = Printer::stmt(&Stmt::Return {
        values: vec![],
        span: Span::synthetic(),
    });
    assert_eq!(s, "return");
}

#[test]
fn test_print_assign_stmt() {
    let s = Printer::stmt(&Stmt::Assign {
        lhs: vec![build::ident("x")],
        op: AssignOp::Assign,
        rhs: vec![build::integer(1)],
        span: Span::synthetic(),
    });
    assert_eq!(s, "x = 1");
}

#[test]
fn test_print_short_var_decl() {
    let s = Printer::stmt(&Stmt::ShortVarDecl {
        names: vec![Ident::synthetic("x")],
        values: vec![build::integer(1)],
        span: Span::synthetic(),
    });
    assert_eq!(s, "x := 1");
}

#[test]
fn test_print_inc_dec() {
    let inc = Printer::stmt(&Stmt::Inc(build::ident("x"), Span::synthetic()));
    assert_eq!(inc, "x++");

    let dec = Printer::stmt(&Stmt::Dec(build::ident("x"), Span::synthetic()));
    assert_eq!(dec, "x--");
}

#[test]
fn test_print_send_stmt() {
    let s = Printer::stmt(&Stmt::Send {
        channel: build::ident("ch"),
        value: build::integer(1),
        span: Span::synthetic(),
    });
    assert_eq!(s, "ch <- 1");
}

#[test]
fn test_print_go_defer() {
    let go = Printer::stmt(&Stmt::Go(
        build::call(build::ident("f"), vec![]),
        Span::synthetic(),
    ));
    assert_eq!(go, "go f()");

    let defer = Printer::stmt(&Stmt::Defer(
        build::call(build::ident("f"), vec![]),
        Span::synthetic(),
    ));
    assert_eq!(defer, "defer f()");
}

#[test]
fn test_print_break_continue_goto_fallthrough() {
    assert_eq!(
        Printer::stmt(&Stmt::Break(None, Span::synthetic())),
        "break"
    );
    assert_eq!(
        Printer::stmt(&Stmt::Continue(None, Span::synthetic())),
        "continue"
    );
    assert_eq!(
        Printer::stmt(&Stmt::Break(
            Some(Ident::synthetic("outer")),
            Span::synthetic()
        )),
        "break outer"
    );
    assert_eq!(
        Printer::stmt(&Stmt::Goto(Ident::synthetic("done"), Span::synthetic())),
        "goto done"
    );
    assert_eq!(
        Printer::stmt(&Stmt::Fallthrough(Span::synthetic())),
        "fallthrough"
    );
}

#[test]
fn test_print_if_stmt() {
    let s = Printer::stmt(&Stmt::If {
        init: None,
        cond: build::ident("x"),
        body: Block {
            stmts: vec![Stmt::Return {
                values: vec![],
                span: Span::synthetic(),
            }],
            span: Span::synthetic(),
        },
        else_: None,
        span: Span::synthetic(),
    });
    assert!(s.starts_with("if x {"));
}

#[test]
fn test_print_if_else_stmt() {
    let s = Printer::stmt(&Stmt::If {
        init: None,
        cond: build::ident("x"),
        body: Block {
            stmts: vec![],
            span: Span::synthetic(),
        },
        else_: Some(Box::new(Stmt::Block(Block {
            stmts: vec![],
            span: Span::synthetic(),
        }))),
        span: Span::synthetic(),
    });
    assert!(s.contains("else"));
}

#[test]
fn test_print_for_loop() {
    // Simple condition-only loop
    let s = Printer::stmt(&Stmt::For {
        init: None,
        cond: Some(build::ident("true")),
        post: None,
        body: Block {
            stmts: vec![],
            span: Span::synthetic(),
        },
        span: Span::synthetic(),
    });
    assert!(s.starts_with("for true {"));
}

#[test]
fn test_print_for_range() {
    let s = Printer::stmt(&Stmt::ForRange {
        key: Some(build::ident("k")),
        value: Some(build::ident("v")),
        assign: RangeAssign::Define,
        iterable: Box::new(build::ident("m")),
        body: Block {
            stmts: vec![],
            span: Span::synthetic(),
        },
        span: Span::synthetic(),
    });
    assert!(s.contains("k, v := range m"));
}

#[test]
fn test_print_var_decl() {
    let s = Printer::stmt(&Stmt::VarDecl(
        vec![VarSpec {
            names: vec![Ident::synthetic("x")],
            ty: Some(TypeExpr::Named(Ident::synthetic("int"))),
            values: vec![],
            span: Span::synthetic(),
        }],
        Span::synthetic(),
    ));
    assert_eq!(s, "var x int");
}

#[test]
fn grouped_var_decl_prints_in_parentheses() {
    let spec = |n: &str, t: &str| VarSpec {
        names: vec![Ident::synthetic(n)],
        ty: Some(TypeExpr::Named(Ident::synthetic(t))),
        values: vec![],
        span: Span::synthetic(),
    };
    let s = Printer::stmt(&Stmt::VarDecl(vec![spec("x", "int"), spec("y", "string")], Span::synthetic()));
    assert_eq!(s, "var (\n\tx int\n\ty string\n)");
}

// --- Declaration tests ---

#[test]
fn test_print_func_decl() {
    let f = FuncDecl {
        name: Ident::synthetic("main"),
        ty: FuncType {
            type_params: vec![],
            params: vec![],
            results: vec![],
            span: Span::synthetic(),
        },
        body: Some(Block {
            stmts: vec![],
            span: Span::synthetic(),
        }),
        doc: None,
        span: Span::synthetic(),
    };
    let s = Printer::func_decl(&f);
    assert_eq!(s, "func main() {}");
}

#[test]
fn test_print_func_decl_with_params_and_results() {
    let f = FuncDecl {
        name: Ident::synthetic("Add"),
        ty: FuncType {
            type_params: vec![],
            params: vec![ParamDecl {
                names: vec![Ident::synthetic("a"), Ident::synthetic("b")],
                ty: TypeExpr::Named(Ident::synthetic("int")),
                variadic: false,
                span: Span::synthetic(),
            }],
            results: vec![ParamDecl {
                names: vec![],
                ty: TypeExpr::Named(Ident::synthetic("int")),
                variadic: false,
                span: Span::synthetic(),
            }],
            span: Span::synthetic(),
        },
        body: Some(Block {
            stmts: vec![Stmt::Return {
                values: vec![Expr::Binary {
                    op: BinaryOp::Add,
                    left: Box::new(build::ident("a")),
                    right: Box::new(build::ident("b")),
                    span: Span::synthetic(),
                }],
                span: Span::synthetic(),
            }],
            span: Span::synthetic(),
        }),
        doc: None,
        span: Span::synthetic(),
    };
    let s = Printer::func_decl(&f);
}

#[test]
fn test_print_method_decl() {
    let m = build::method(
        build::pointer_receiver("x", "Foo"),
        "String",
        vec![],
        vec![build::unnamed_param(build::named("string"))],
        build::block(vec![build::ret(vec![build::call(
            build::selector(build::ident("fmt"), "Sprintf"),
            vec![build::string("%+v"), build::deref(build::ident("x"))],
        )])]),
    );
    let s = Printer::method_decl(&m);
    assert!(s.contains("func (x *Foo) String()"));
}

#[test]
fn test_print_type_spec_def() {
    let ts = TypeSpec::Def {
        name: Ident::synthetic("MyInt"),
        type_params: vec![],
        ty: TypeExpr::Named(Ident::synthetic("int")),
        span: Span::synthetic(),
    };
    let s = Printer::type_spec(&ts);
    assert_eq!(s, "type MyInt int");
}

#[test]
fn test_print_type_spec_alias() {
    let ts = TypeSpec::Alias {
        name: Ident::synthetic("MyInt"),
        type_params: vec![],
        ty: TypeExpr::Named(Ident::synthetic("int")),
        span: Span::synthetic(),
    };
    let s = Printer::type_spec(&ts);
    assert_eq!(s, "type MyInt = int");
}

#[test]
fn test_print_variadic_param() {
    let f = FuncDecl {
        name: Ident::synthetic("Printf"),
        ty: FuncType {
            type_params: vec![],
            params: vec![
                ParamDecl {
                    names: vec![Ident::synthetic("format")],
                    ty: TypeExpr::Named(Ident::synthetic("string")),
                    variadic: false,
                    span: Span::synthetic(),
                },
                ParamDecl {
                    names: vec![Ident::synthetic("args")],
                    ty: TypeExpr::Interface(InterfaceType {
                        elements: vec![],
                        span: Span::synthetic(),
                    }),
                    variadic: true,
                    span: Span::synthetic(),
                },
            ],
            results: vec![],
            span: Span::synthetic(),
        },
        body: Some(Block {
            stmts: vec![],
            span: Span::synthetic(),
        }),
        doc: None,
        span: Span::synthetic(),
    };
    let s = Printer::func_decl(&f);
    assert!(s.contains("...interface{}"));
}
