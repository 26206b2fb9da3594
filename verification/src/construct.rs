//! Constructors for syntax nodes, each with synthetic spans.

use vstd::prelude::*;

use crate::ast::{
    Block, Expr, FuncType, MethodDecl, ParamDecl, Receiver, Stmt, TypeExpr, UnaryOp,
};
use crate::leaf::{quoted, Ident, IntLit, StringLit};
use crate::span::Span;
use crate::text::push_char;

verus! {

/// Decimal text of a natural number.
pub open spec fn nat_text(n: nat) -> Seq<char>
    decreases n,
{
    if n < 10 {
        seq![(('0' as nat) + n) as char]
    } else {
        nat_text(n / 10) + seq![(('0' as nat) + (n % 10)) as char]
    }
}

/// Decimal text of an integer, with a leading `-` when negative.
pub open spec fn int_text(v: int) -> Seq<char> {
    if v < 0 {
        seq!['-'] + nat_text((-v) as nat)
    } else {
        nat_text(v as nat)
    }
}

/// Decimal digits of `n`.
pub(crate) fn nat_string(n: u64) -> (s: String)
    ensures
        s@ == nat_text(n as nat),
    decreases n,
{
    if n < 10 {
        let mut s = String::new();
        push_char(&mut s, (('0' as u8) + (n as u8)) as char);
        s
    } else {
        let mut s = nat_string(n / 10);
        push_char(&mut s, (('0' as u8) + ((n % 10) as u8)) as char);
        s
    }
}

/// Decimal text of a signed integer.
fn int_string(v: i64) -> (s: String)
    ensures
        s@ == int_text(v as int),
{
    if v < 0 {
        let mag: u64 = (0i128 - (v as i128)) as u64;
        let mut s = String::new();
        push_char(&mut s, '-');
        let d = nat_string(mag);
        s.append(d.as_str());
        s
    } else {
        nat_string(v as u64)
    }
}

/// A named type expression, e.g. `int`.
pub fn named(name: &str) -> (t: TypeExpr)
    ensures
        t matches TypeExpr::Named(id) && id.name@ == name@ && id.span == Span::spec_synthetic(),
{
    TypeExpr::Named(Ident::synthetic(name))
}

/// A pointer type expression `*T`.
pub fn pointer(inner: TypeExpr) -> (t: TypeExpr)
    ensures
        t == TypeExpr::Pointer(Box::new(inner)),
{
    TypeExpr::Pointer(Box::new(inner))
}

/// A slice type expression `[]T`.
pub fn slice(elem: TypeExpr) -> (t: TypeExpr)
    ensures
        t == TypeExpr::Slice(Box::new(elem)),
{
    TypeExpr::Slice(Box::new(elem))
}

/// A map type expression `map[K]V`.
pub fn map_type(key: TypeExpr, value: TypeExpr) -> (t: TypeExpr)
    ensures
        t == (TypeExpr::MapType { key: Box::new(key), value: Box::new(value) }),
{
    TypeExpr::MapType { key: Box::new(key), value: Box::new(value) }
}

/// An identifier expression.
pub fn ident(name: &str) -> (e: Expr)
    ensures
        e matches Expr::Ident(id) && id.name@ == name@ && id.span == Span::spec_synthetic(),
{
    Expr::Ident(Ident::synthetic(name))
}

/// A string literal expression whose value is `value`.
pub fn string(value: &str) -> (e: Expr)
    ensures
        e matches Expr::String(lit) && lit.raw@ == quoted(value@) && lit.span
            == Span::spec_synthetic(),
{
    Expr::String(StringLit::from_value(value))
}

/// An integer literal expression written in decimal.
pub fn integer(value: i64) -> (e: Expr)
    ensures
        e matches Expr::Int(lit) && lit.raw@ == int_text(value as int) && lit.span
            == Span::spec_synthetic(),
{
    Expr::Int(IntLit { raw: int_string(value), span: Span::synthetic() })
}

/// A call expression without type arguments or `...`.
pub fn call(func: Expr, args: Vec<Expr>) -> (e: Expr)
    ensures
        e matches Expr::Call { func: f, type_args, args: a, ellipsis, span } && *f == func
            && type_args@.len() == 0 && a == args && !ellipsis && span == Span::spec_synthetic(),
{
    Expr::Call {
        func: Box::new(func),
        type_args: Vec::new(),
        args,
        ellipsis: false,
        span: Span::synthetic(),
    }
}

/// A selector expression `operand.field`.
pub fn selector(operand: Expr, field: &str) -> (e: Expr)
    ensures
        e matches Expr::Selector { operand: o, field: f, span } && *o == operand && f.name@
            == field@ && f.span == Span::spec_synthetic() && span == Span::spec_synthetic(),
{
    Expr::Selector {
        operand: Box::new(operand),
        field: Ident::synthetic(field),
        span: Span::synthetic(),
    }
}

/// A pointer dereference `*operand`.
pub fn deref(operand: Expr) -> (e: Expr)
    ensures
        e == (Expr::Unary {
            op: UnaryOp::Deref,
            operand: Box::new(operand),
            span: Span::spec_synthetic(),
        }),
{
    Expr::Unary { op: UnaryOp::Deref, operand: Box::new(operand), span: Span::synthetic() }
}

/// An address-of expression `&operand`.
pub fn addr(operand: Expr) -> (e: Expr)
    ensures
        e == (Expr::Unary {
            op: UnaryOp::Addr,
            operand: Box::new(operand),
            span: Span::spec_synthetic(),
        }),
{
    Expr::Unary { op: UnaryOp::Addr, operand: Box::new(operand), span: Span::synthetic() }
}

/// A return statement.
pub fn ret(values: Vec<Expr>) -> (s: Stmt)
    ensures
        s == (Stmt::Return { values, span: Span::spec_synthetic() }),
{
    Stmt::Return { values, span: Span::synthetic() }
}

/// A block of statements.
pub fn block(stmts: Vec<Stmt>) -> (b: Block)
    ensures
        b == (Block { stmts, span: Span::spec_synthetic() }),
{
    Block { stmts, span: Span::synthetic() }
}

/// A parameter declaration naming several parameters of one type.
pub fn param(names: &[&str], ty: TypeExpr) -> (p: ParamDecl)
    ensures
        p.names@.len() == names@.len(),
        forall|i: int|
            0 <= i < names@.len() ==> p.names@[i].name@ == names@[i]@ && p.names@[i].span
                == Span::spec_synthetic(),
        p.ty == ty,
        !p.variadic,
        p.span == Span::spec_synthetic(),
{
    let mut ids: Vec<Ident> = Vec::new();
    let mut i: usize = 0;
    while i < names.len()
        invariant
            i <= names@.len(),
            ids@.len() == i,
            forall|k: int|
                0 <= k < i ==> ids@[k].name@ == names@[k]@ && ids@[k].span
                    == Span::spec_synthetic(),
        decreases names.len() - i,
    {
        ids.push(Ident::synthetic(names[i]));
        i = i + 1;
    }
    ParamDecl { names: ids, ty, variadic: false, span: Span::synthetic() }
}

/// A parameter declaration with a type and no name.
pub fn unnamed_param(ty: TypeExpr) -> (p: ParamDecl)
    ensures
        p.names@.len() == 0,
        p.ty == ty,
        !p.variadic,
        p.span == Span::spec_synthetic(),
{
    ParamDecl { names: Vec::new(), ty, variadic: false, span: Span::synthetic() }
}

/// A pointer receiver, e.g. `(s *Server)`.
pub fn pointer_receiver(var_name: &str, ty_name: &str) -> (r: Receiver)
    ensures
        r.name matches Some(n) && n.name@ == var_name@ && n.span == Span::spec_synthetic(),
        r.type_params@.len() == 0,
        r.ty matches TypeExpr::Pointer(inner) && (*inner matches TypeExpr::Named(id) && id.name@
            == ty_name@ && id.span == Span::spec_synthetic()),
        r.span == Span::spec_synthetic(),
{
    Receiver {
        name: Some(Ident::synthetic(var_name)),
        type_params: Vec::new(),
        ty: pointer(named(ty_name)),
        span: Span::synthetic(),
    }
}

/// A value receiver, e.g. `(s Server)`.
pub fn value_receiver(var_name: &str, ty_name: &str) -> (r: Receiver)
    ensures
        r.name matches Some(n) && n.name@ == var_name@ && n.span == Span::spec_synthetic(),
        r.type_params@.len() == 0,
        r.ty matches TypeExpr::Named(id) && id.name@ == ty_name@ && id.span
            == Span::spec_synthetic(),
        r.span == Span::spec_synthetic(),
{
    Receiver {
        name: Some(Ident::synthetic(var_name)),
        type_params: Vec::new(),
        ty: named(ty_name),
        span: Span::synthetic(),
    }
}

/// A method declaration with the given receiver, name, signature and body.
pub fn method(
    receiver: Receiver,
    name: &str,
    params: Vec<ParamDecl>,
    results: Vec<ParamDecl>,
    body: Block,
) -> (m: MethodDecl)
    ensures
        m.receiver == receiver,
        m.name.name@ == name@,
        m.name.span == Span::spec_synthetic(),
        m.ty.type_params@.len() == 0,
        m.ty.params == params,
        m.ty.results == results,
        m.ty.span == Span::spec_synthetic(),
        m.body == Some(body),
        m.doc is None,
        m.span == Span::spec_synthetic(),
{
    MethodDecl {
        receiver,
        name: Ident::synthetic(name),
        ty: FuncType {
            type_params: Vec::new(),
            params,
            results,
            span: Span::synthetic(),
        },
        body: Some(body),
        doc: None,
        span: Span::synthetic(),
    }
}

} // verus!
