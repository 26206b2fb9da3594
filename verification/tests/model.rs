//! Syntax tree values, constructors and literal helpers.

use go_analyzer::ast::{BinaryOp, Expr, InterfaceType, Stmt, StructType, TypeExpr, TypeSpec, UnaryOp};
use go_analyzer::build;
use go_analyzer::leaf::{Ident, StringLit};
use go_analyzer::span::Span;
use go_analyzer::types::type_eq;

#[test]
fn test_span_synthetic() {
    let s = Span::synthetic();
    assert!(s.is_synthetic());
    assert_eq!(s.start_byte, 0);
    assert_eq!(s.end_byte, 0);
}

#[test]
fn test_span_real_not_synthetic() {
    let s = Span {
        start_byte: 0,
        end_byte: 10,
        start_row: 0,
        start_col: 0,
        end_row: 0,
        end_col: 10,
    };
    assert!(!s.is_synthetic());
}

#[test]
fn test_span_zero_offset_real_not_confused_with_synthetic() {
    // A real span at position (0,0) to (0,5) has end_byte != 0
    let s = Span {
        start_byte: 0,
        end_byte: 5,
        start_row: 0,
        start_col: 0,
        end_row: 0,
        end_col: 5,
    };
    assert!(!s.is_synthetic());
}

#[test]
fn test_ident_synthetic() {
    let id = Ident::synthetic("foo");
    assert_eq!(id.name, "foo");
    assert!(id.span.is_synthetic());
}

#[test]
fn test_ident_exported() {
    assert!(Ident::synthetic("Foo").is_exported());
    assert!(!Ident::synthetic("foo").is_exported());
    assert!(!Ident::synthetic("_foo").is_exported());
}

#[test]
fn test_ident_exported_unicode() {
    // Go spec: exported if first char is Unicode uppercase letter (class Lu)
    assert!(Ident::synthetic("Über").is_exported());
    assert!(Ident::synthetic("Σ").is_exported());
    assert!(Ident::synthetic("Ω").is_exported());
    assert!(!Ident::synthetic("über").is_exported());
    assert!(!Ident::synthetic("σ").is_exported());
}

#[test]
fn test_string_lit_value_go_escape_sequences() {
    // \a (bell)
    let lit = StringLit {
        raw: r#""\a""#.to_owned(),
        span: Span::synthetic(),
    };
    assert_eq!(lit.value(), "\x07");

    // \b (backspace)
    let lit = StringLit {
        raw: r#""\b""#.to_owned(),
        span: Span::synthetic(),
    };
    assert_eq!(lit.value(), "\x08");

    // \f (form feed)
    let lit = StringLit {
        raw: r#""\f""#.to_owned(),
        span: Span::synthetic(),
    };
    assert_eq!(lit.value(), "\x0C");

    // \v (vertical tab)
    let lit = StringLit {
        raw: r#""\v""#.to_owned(),
        span: Span::synthetic(),
    };
    assert_eq!(lit.value(), "\x0B");

    // \xNN (hex byte)
    let lit = StringLit {
        raw: r#""\x41""#.to_owned(),
        span: Span::synthetic(),
    };
    assert_eq!(lit.value(), "A");

    // \uNNNN (unicode)
    let lit = StringLit {
        raw: r#""\u00e9""#.to_owned(),
        span: Span::synthetic(),
    };
    assert_eq!(lit.value(), "é");

    // \UNNNNNNNN (unicode)
    let lit = StringLit {
        raw: r#""\U0001F600""#.to_owned(),
        span: Span::synthetic(),
    };
    assert_eq!(lit.value(), "😀");

    // \NNN (octal)
    let lit = StringLit {
        raw: r#""\101""#.to_owned(),
        span: Span::synthetic(),
    };
    assert_eq!(lit.value(), "A"); // octal 101 = 65 = 'A'
}

#[test]
fn test_string_lit_value_high_byte_hex_escape() {
    // Go's \xFF is a single byte 0xFF. In Rust String (UTF-8), bytes >= 0x80
    // can't be represented as single chars directly. We use Unicode replacement
    // or Latin-1 mapping. The key invariant: value() should not panic and
    // should produce a consistent result.
    let lit = StringLit {
        raw: r#""\x00""#.to_owned(),
        span: Span::synthetic(),
    };
    assert_eq!(lit.value(), "\0"); // \x00 = null byte

    let lit = StringLit {
        raw: r#""\x7f""#.to_owned(),
        span: Span::synthetic(),
    };
    assert_eq!(lit.value(), "\x7f"); // \x7f = DEL, valid ASCII
}

#[test]
fn test_string_lit_roundtrip_control_chars() {
    // from_value → value should roundtrip for strings with control characters
    let text = "hello\x07world"; // contains bell character
    let lit = StringLit::from_value(text);
    assert_eq!(lit.value(), text, "roundtrip failed for bell char");

    let text = "tab\there";
    let lit = StringLit::from_value(text);
    assert_eq!(lit.value(), text, "roundtrip failed for tab");
}

#[test]
fn test_string_lit_from_value_and_value() {
    let lit = StringLit::from_value("hello");
    assert_eq!(lit.value(), "hello");
    assert!(lit.span.is_synthetic());
}

#[test]
fn test_string_lit_with_escapes() {
    let lit = StringLit::from_value("hello\"world");
    assert_eq!(lit.value(), "hello\"world");
}

#[test]
fn test_build_named_type() {
    let ty = build::named("int");
    assert!(matches!(ty, TypeExpr::Named(id) if id.name == "int"));
}

#[test]
fn test_build_pointer_type() {
    let ty = build::pointer(build::named("Foo"));
    match ty {
        TypeExpr::Pointer(inner) => {
            assert!(matches!(*inner, TypeExpr::Named(id) if id.name == "Foo"));
        }
        _ => panic!("expected Pointer"),
    }
}

#[test]
fn test_build_slice_type() {
    let ty = build::slice(build::named("byte"));
    assert!(matches!(ty, TypeExpr::Slice(_)));
}

#[test]
fn test_build_map_type() {
    let ty = build::map_type(build::named("string"), build::named("int"));
    match ty {
        TypeExpr::MapType { key, value } => {
            assert!(matches!(*key, TypeExpr::Named(ref id) if id.name == "string"));
            assert!(matches!(*value, TypeExpr::Named(ref id) if id.name == "int"));
        }
        _ => panic!("expected MapType"),
    }
}

#[test]
fn test_build_ident_expr() {
    let e = build::ident("x");
    assert!(matches!(e, Expr::Ident(id) if id.name == "x"));
}

#[test]
fn test_build_string_expr() {
    let e = build::string("hello");
    match e {
        Expr::String(lit) => assert_eq!(lit.value(), "hello"),
        _ => panic!("expected String"),
    }
}

#[test]
fn test_build_int_expr() {
    let e = build::integer(42);
    match e {
        Expr::Int(lit) => assert_eq!(lit.raw, "42"),
        _ => panic!("expected Int"),
    }
}

#[test]
fn test_build_call_expr() {
    let e = build::call(build::ident("fmt"), vec![build::string("hello")]);
    match e {
        Expr::Call {
            func,
            args,
            ellipsis,
            type_args,
            ..
        } => {
            assert!(matches!(*func, Expr::Ident(ref id) if id.name == "fmt"));
            assert_eq!(args.len(), 1);
            assert!(!ellipsis);
            assert!(type_args.is_empty());
        }
        _ => panic!("expected Call"),
    }
}

#[test]
fn test_build_selector_expr() {
    let e = build::selector(build::ident("fmt"), "Sprintf");
    match e {
        Expr::Selector { operand, field, .. } => {
            assert!(matches!(*operand, Expr::Ident(ref id) if id.name == "fmt"));
            assert_eq!(field.name, "Sprintf");
        }
        _ => panic!("expected Selector"),
    }
}

#[test]
fn test_build_deref_and_addr() {
    let d = build::deref(build::ident("x"));
    assert!(matches!(
        d,
        Expr::Unary {
            op: UnaryOp::Deref,
            ..
        }
    ));

    let a = build::addr(build::ident("x"));
    assert!(matches!(
        a,
        Expr::Unary {
            op: UnaryOp::Addr,
            ..
        }
    ));
}

#[test]
fn test_build_ret() {
    let s = build::ret(vec![build::ident("x")]);
    match s {
        Stmt::Return { values, span } => {
            assert_eq!(values.len(), 1);
            assert!(span.is_synthetic());
        }
        _ => panic!("expected Return"),
    }
}

#[test]
fn test_build_block() {
    let b = build::block(vec![build::ret(vec![])]);
    assert_eq!(b.stmts.len(), 1);
    assert!(b.span.is_synthetic());
}

#[test]
fn test_build_param() {
    let p = build::param(&["x", "y"], build::named("int"));
    assert_eq!(p.names.len(), 2);
    assert_eq!(p.names[0].name, "x");
    assert_eq!(p.names[1].name, "y");
    assert!(!p.variadic);
}

#[test]
fn test_build_unnamed_param() {
    let p = build::unnamed_param(build::named("string"));
    assert!(p.names.is_empty());
    assert!(!p.variadic);
}

#[test]
fn test_build_pointer_receiver() {
    let r = build::pointer_receiver("x", "Foo");
    assert_eq!(r.name.as_ref().unwrap().name, "x");
    assert!(matches!(r.ty, TypeExpr::Pointer(_)));
    assert!(r.span.is_synthetic());
}

#[test]
fn test_build_value_receiver() {
    let r = build::value_receiver("x", "Foo");
    assert_eq!(r.name.as_ref().unwrap().name, "x");
    assert!(matches!(r.ty, TypeExpr::Named(ref id) if id.name == "Foo"));
}

#[test]
fn test_build_method() {
    let m = build::method(
        build::pointer_receiver("x", "Foo"),
        "String",
        vec![],
        vec![build::unnamed_param(build::named("string"))],
        build::block(vec![build::ret(vec![build::call(
            build::selector(build::ident("fmt"), "Sprintf"),
            vec![build::string("%+v"), build::deref(build::ident("x"))],
        )])]),
    );

    assert_eq!(m.name.name, "String");
    assert!(m.name.span.is_synthetic());
    assert_eq!(m.receiver.name.as_ref().unwrap().name, "x");
    assert!(matches!(m.receiver.ty, TypeExpr::Pointer(_)));
    assert!(m.ty.params.is_empty());
    assert_eq!(m.ty.results.len(), 1);
    assert!(m.body.is_some());
    assert!(m.doc.is_none());
    assert!(m.span.is_synthetic());
}

#[test]
fn test_build_all_spans_are_synthetic() {
    let m = build::method(
        build::pointer_receiver("x", "Foo"),
        "Bar",
        vec![build::param(&["a"], build::named("int"))],
        vec![build::unnamed_param(build::named("error"))],
        build::block(vec![build::ret(vec![build::ident("nil")])]),
    );

    // Verify all spans in the method are synthetic
    assert!(m.span.is_synthetic());
    assert!(m.name.span.is_synthetic());
    assert!(m.receiver.span.is_synthetic());
    assert!(m.ty.span.is_synthetic());
    for p in &m.ty.params {
        assert!(p.span.is_synthetic());
        for n in &p.names {
            assert!(n.span.is_synthetic());
        }
    }
    for r in &m.ty.results {
        assert!(r.span.is_synthetic());
    }
    let body = m.body.as_ref().unwrap();
    assert!(body.span.is_synthetic());
}

#[test]
fn test_binary_op_precedence() {
    assert_eq!(BinaryOp::LogOr.precedence(), 1);
    assert_eq!(BinaryOp::LogAnd.precedence(), 2);
    assert_eq!(BinaryOp::Eq.precedence(), 3);
    assert_eq!(BinaryOp::Ne.precedence(), 3);
    assert_eq!(BinaryOp::Lt.precedence(), 3);
    assert_eq!(BinaryOp::Le.precedence(), 3);
    assert_eq!(BinaryOp::Gt.precedence(), 3);
    assert_eq!(BinaryOp::Ge.precedence(), 3);
    assert_eq!(BinaryOp::Add.precedence(), 4);
    assert_eq!(BinaryOp::Sub.precedence(), 4);
    assert_eq!(BinaryOp::Or.precedence(), 4);
    assert_eq!(BinaryOp::Xor.precedence(), 4);
    assert_eq!(BinaryOp::Mul.precedence(), 5);
    assert_eq!(BinaryOp::Div.precedence(), 5);
    assert_eq!(BinaryOp::Rem.precedence(), 5);
    assert_eq!(BinaryOp::And.precedence(), 5);
    assert_eq!(BinaryOp::AndNot.precedence(), 5);
    assert_eq!(BinaryOp::Shl.precedence(), 5);
    assert_eq!(BinaryOp::Shr.precedence(), 5);
}

#[test]
fn test_type_spec_methods() {
    let ts = TypeSpec::Def {
        name: Ident::synthetic("Foo"),
        type_params: vec![],
        ty: TypeExpr::Struct(StructType {
            fields: vec![],
            span: Span::synthetic(),
        }),
        span: Span::synthetic(),
    };
    assert_eq!(ts.name().name, "Foo");
    assert!(ts.is_struct());
    assert!(!ts.is_interface());

    let ts2 = TypeSpec::Def {
        name: Ident::synthetic("Bar"),
        type_params: vec![],
        ty: TypeExpr::Interface(InterfaceType {
            elements: vec![],
            span: Span::synthetic(),
        }),
        span: Span::synthetic(),
    };
    assert!(ts2.is_interface());
    assert!(!ts2.is_struct());

    let ts3 = TypeSpec::Alias {
        name: Ident::synthetic("Baz"),
        type_params: vec![],
        ty: TypeExpr::Named(Ident::synthetic("int")),
        span: Span::synthetic(),
    };
    assert!(!ts3.is_struct());
    assert!(!ts3.is_interface());
}

fn real_span(start: usize) -> Span {
    Span { start_byte: start, end_byte: start + 3, start_row: 1, start_col: start, end_row: 1, end_col: start + 3 }
}

fn one_method_interface(name: &str) -> TypeExpr {
    let ty = go_analyzer::ast::FuncType { type_params: vec![], params: vec![], results: vec![], span: Span::synthetic() };
    TypeExpr::Interface(InterfaceType {
        elements: vec![go_analyzer::ast::InterfaceElem::Method { name: Ident::synthetic(name), ty, span: Span::synthetic() }],
        span: Span::synthetic(),
    })
}

#[test]
fn type_eq_ignores_spans() {
    let a = TypeExpr::Named(Ident { name: "int".to_string(), span: real_span(4) });
    let b = TypeExpr::Named(Ident { name: "int".to_string(), span: real_span(40) });
    assert!(type_eq(&a, &b));
    assert!(type_eq(&b, &a));
    assert!(type_eq(&a, &a));
}

#[test]
fn type_eq_compares_names_and_shape() {
    let int = TypeExpr::Named(Ident::synthetic("int"));
    let string = TypeExpr::Named(Ident::synthetic("string"));
    assert!(!type_eq(&int, &string));
    let ptr = TypeExpr::Pointer(Box::new(TypeExpr::Named(Ident::synthetic("int"))));
    assert!(!type_eq(&ptr, &int));
    assert!(!type_eq(&int, &ptr));
    assert!(!type_eq(&one_method_interface("Foo"), &one_method_interface("Bar")));
    assert!(type_eq(&one_method_interface("Foo"), &one_method_interface("Foo")));
}
