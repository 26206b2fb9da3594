//! Rendering of syntax trees back to Go source text.
//!
//! Each function is proved to return exactly the text that the matching spec
//! function of `crate::printer_spec` describes.

use vstd::prelude::*;

use crate::ast::{
    AssignOp, BinaryOp, Block, ChanDir, CommCase, ConstSpec, Expr, ExprCase, FieldDecl,
    FuncDecl, FuncType, InterfaceElem, InterfaceType, KeyedElem, MethodDecl, ParamDecl,
    RangeAssign, Stmt, StructType, TypeCase, TypeExpr, TypeParam, TypeSpec, TypeTermElem,
    UnaryOp, VarSpec,
};
use crate::leaf::{Ident, StringLit};
use crate::printer_spec::{
    assign_op_text, binary_op_text, block_text, body_text, comm_case_text, comm_cases_text,
    const_spec_text, elem_text, elems_text, expr_case_text, expr_cases_text, expr_text,
    exprs_text, field_text, fields_text, for_clause_text, func_decl_text, func_type_text,
    init_text, interface_text, keyed_elem_text, keyed_text, label_text, method_decl_text,
    names_text, opt_expr_text, operand_text, param_text, params_text, range_vars_text,
    receiver_text, results_text, signature_text, spec_needs_parens, spec_precedence,
    stmt_lines, stmt_text, struct_text, tag_text, terms_text, type_case_text, type_cases_text,
    type_params_text, type_spec_inner_text, type_text, types_text, unary_op_text,
    var_spec_text, var_group_text, var_spec_lines, const_group_text, const_spec_lines,
    type_group_text, type_spec_lines, text_if, indented, indent_from, indent_piece, scan_next, ScanState,
};
use crate::text::{chars_of, push_char};

verus! {

/// Appending nothing leaves a sequence unchanged.
proof fn lemma_add_empty(s: Seq<char>)
    ensures
        s + Seq::<char>::empty() == s,
{
    assert(s + Seq::<char>::empty() =~= s);
}

/// The scan state after reading `c`.
fn next_state(st: ScanState, c: char) -> (r: ScanState)
    ensures
        r == scan_next(st, c),
{
    match st {
        ScanState::Code => if c == '`' {
            ScanState::Raw
        } else if c == '"' {
            ScanState::Str
        } else if c == '\'' {
            ScanState::Rune
        } else {
            ScanState::Code
        },
        ScanState::Raw => if c == '`' {
            ScanState::Code
        } else {
            ScanState::Raw
        },
        ScanState::Str => if c == '\\' {
            ScanState::StrEsc
        } else if c == '"' {
            ScanState::Code
        } else {
            ScanState::Str
        },
        ScanState::StrEsc => ScanState::Str,
        ScanState::Rune => if c == '\\' {
            ScanState::RuneEsc
        } else if c == '\'' {
            ScanState::Code
        } else {
            ScanState::Rune
        },
        ScanState::RuneEsc => ScanState::Rune,
    }
}

/// The text of a nested node placed one level deeper.
pub fn indent_text(t: &str) -> (r: String)
    ensures
        r@ == indented(t@),
{
    let cs = chars_of(t);
    let mut out = String::new();
    let mut st = ScanState::Code;
    let mut i: usize = 0;
    proof {
        assert(cs@.skip(0) =~= cs@);
    }
    while i < cs.len()
        invariant
            i <= cs@.len(),
            cs@ == t@,
            out@ + indent_from(cs@.skip(i as int), st) == indented(t@),
        decreases cs@.len() - i,
    {
        let c = cs[i];
        proof {
            let rest = cs@.skip(i as int);
            assert(rest[0] == c);
            assert(rest.drop_first() =~= cs@.skip(i + 1));
            assert(indent_from(rest, st) == indent_piece(st, c) + indent_from(cs@.skip(i + 1), scan_next(st, c)));
        }
        let ghost before = out@;
        if c == '\n' && st == ScanState::Code {
            push_char(&mut out, '\n');
            push_char(&mut out, '\t');
        } else {
            push_char(&mut out, c);
        }
        proof {
            assert(out@ =~= before + indent_piece(st, c));
            assert(before + (indent_piece(st, c) + indent_from(cs@.skip(i + 1), scan_next(st, c))) =~= out@
                + indent_from(cs@.skip(i + 1), scan_next(st, c)));
        }
        st = next_state(st, c);
        i = i + 1;
    }
    proof {
        assert(cs@.skip(i as int) =~= Seq::<char>::empty());
        assert(out@ + Seq::<char>::empty() =~= out@);
    }
    out
}

/// Renders syntax nodes as Go source text.
pub struct Printer;

impl BinaryOp {
    /// Go spec precedence level (1 = lowest, 5 = highest).
    pub fn precedence(self) -> (p: u8)
        ensures
            p == spec_precedence(self),
            1 <= p <= 5,
    {
        match self {
            BinaryOp::LogOr => 1,
            BinaryOp::LogAnd => 2,
            BinaryOp::Eq | BinaryOp::Ne | BinaryOp::Lt | BinaryOp::Le | BinaryOp::Gt
            | BinaryOp::Ge => 3,
            BinaryOp::Add | BinaryOp::Sub | BinaryOp::Or | BinaryOp::Xor => 4,
            BinaryOp::Mul | BinaryOp::Div | BinaryOp::Rem | BinaryOp::And | BinaryOp::AndNot
            | BinaryOp::Shl | BinaryOp::Shr => 5,
        }
    }
}

impl Printer {
    /// The names of `ns`, separated by `", "`.
    fn names(ns: &Vec<Ident>) -> (s: String)
        ensures
            s@ == names_text(ns@),
    {
        let mut s = String::new();
        let mut i: usize = 0;
        while i < ns.len()
            invariant
                i <= ns.len(),
                s@ == names_text(ns@.subrange(0, i as int)),
            decreases ns.len() - i,
        {
            assert(ns@.subrange(0, i + 1).drop_last() == ns@.subrange(0, i as int));
            if i > 0 {
                s.append(", ");
            }
            s.append(ns[i].name.as_str());
            i = i + 1;
        }
        assert(ns@.subrange(0, ns.len() as int) == ns@);
        s
    }

    /// Renders a type expression.
    pub fn type_expr(t: &TypeExpr) -> (s: String)
        ensures
            s@ == type_text(*t),
        decreases t, 0int,
    {
        match t {
            TypeExpr::Named(id) => id.name.clone(),
            TypeExpr::Qualified { package, name } => {
                let mut s = package.name.clone();
                s.append(".");
                s.append(name.name.as_str());
                s
            },
            TypeExpr::Pointer(inner) => {
                let mut s = String::new();
                s.append("*");
                let r = Self::type_expr(inner);
                s.append(r.as_str());
                s
            },
            TypeExpr::Array { len, elem } => {
                let mut s = String::new();
                s.append("[");
                let l = Self::expr(len);
                s.append(l.as_str());
                s.append("]");
                let r = Self::type_expr(elem);
                s.append(r.as_str());
                s
            },
            TypeExpr::Slice(elem) => {
                let mut s = String::new();
                s.append("[]");
                let r = Self::type_expr(elem);
                s.append(r.as_str());
                s
            },
            TypeExpr::MapType { key, value } => {
                let mut s = String::new();
                s.append("map[");
                let k = Self::type_expr(key);
                s.append(k.as_str());
                s.append("]");
                let v = Self::type_expr(value);
                s.append(v.as_str());
                s
            },
            TypeExpr::Channel { direction, elem } => {
                let mut s = String::new();
                match direction {
                    ChanDir::Both => s.append("chan "),
                    ChanDir::Recv => s.append("<-chan "),
                    ChanDir::Send => s.append("chan<- "),
                }
                let r = Self::type_expr(elem);
                s.append(r.as_str());
                s
            },
            TypeExpr::Func(ft) => Self::func_type(ft),
            TypeExpr::Interface(it) => Self::interface_type(it),
            TypeExpr::Struct(st) => Self::struct_type(st),
            TypeExpr::Generic { base, args } => {
                let mut s = Self::type_expr(base);
                s.append("[");
                let a = Self::type_list(args);
                s.append(a.as_str());
                s.append("]");
                s
            },
        }
    }

    /// Type expressions separated by `", "`.
    fn type_list(ts: &Vec<TypeExpr>) -> (s: String)
        ensures
            s@ == types_text(ts@),
        decreases ts, 0int,
    {
        let mut s = String::new();
        let mut i: usize = 0;
        while i < ts.len()
            invariant
                i <= ts.len(),
                s@ == types_text(ts@.subrange(0, i as int)),
            decreases ts.len() - i,
        {
            assert(ts@.subrange(0, i + 1).drop_last() == ts@.subrange(0, i as int));
            if i > 0 {
                s.append(", ");
            }
            let r = Self::type_expr(&ts[i]);
            s.append(r.as_str());
            i = i + 1;
        }
        assert(ts@.subrange(0, ts.len() as int) == ts@);
        s
    }

    /// Renders a function type: `func[T any](params) results`.
    fn func_type(ft: &FuncType) -> (s: String)
        ensures
            s@ == func_type_text(*ft),
        decreases ft, 0int,
    {
        let mut s = String::new();
        s.append("func");
        let ghost s0 = s@;
        if ft.type_params.len() != 0 {
            s.append("[");
            let tp = Self::type_params(&ft.type_params);
            s.append(tp.as_str());
            s.append("]");
        } else {
            proof { lemma_add_empty(s0); }
        }
        s.append("(");
        let p = Self::params(&ft.params);
        s.append(p.as_str());
        s.append(")");
        let r = Self::results(&ft.results);
        s.append(r.as_str());
        s
    }

    /// Type parameter groups, each `names constraint`, separated by `", "`.
    fn type_params(tps: &Vec<TypeParam>) -> (s: String)
        ensures
            s@ == type_params_text(tps@),
        decreases tps, 0int,
    {
        let mut s = String::new();
        let mut i: usize = 0;
        while i < tps.len()
            invariant
                i <= tps.len(),
                s@ == type_params_text(tps@.subrange(0, i as int)),
            decreases tps.len() - i,
        {
            assert(tps@.subrange(0, i + 1).drop_last() == tps@.subrange(0, i as int));
            if i > 0 {
                s.append(", ");
            }
            let n = Self::names(&tps[i].names);
            s.append(n.as_str());
            s.append(" ");
            let c = Self::type_expr(&tps[i].constraint);
            s.append(c.as_str());
            i = i + 1;
        }
        assert(tps@.subrange(0, tps.len() as int) == tps@);
        s
    }

    /// One parameter declaration.
    fn param(p: &ParamDecl) -> (s: String)
        ensures
            s@ == param_text(*p),
        decreases p, 0int,
    {
        let mut s = String::new();
        if p.names.len() != 0 {
            let n = Self::names(&p.names);
            s.append(n.as_str());
            s.append(" ");
        } else {
            proof { lemma_add_empty(Seq::empty()); }
        }
        let ghost s1 = s@;
        if p.variadic {
            s.append("...");
        } else {
            proof { lemma_add_empty(s1); }
        }
        let t = Self::type_expr(&p.ty);
        s.append(t.as_str());
        s
    }

    /// Parameter declarations separated by `", "`.
    fn params(ps: &Vec<ParamDecl>) -> (s: String)
        ensures
            s@ == params_text(ps@),
        decreases ps, 0int,
    {
        let mut s = String::new();
        let mut i: usize = 0;
        while i < ps.len()
            invariant
                i <= ps.len(),
                s@ == params_text(ps@.subrange(0, i as int)),
            decreases ps.len() - i,
        {
            assert(ps@.subrange(0, i + 1).drop_last() == ps@.subrange(0, i as int));
            if i > 0 {
                s.append(", ");
            }
            let r = Self::param(&ps[i]);
            s.append(r.as_str());
            i = i + 1;
        }
        assert(ps@.subrange(0, ps.len() as int) == ps@);
        s
    }

    /// The result list of a signature, with its leading space.
    fn results(rs: &Vec<ParamDecl>) -> (s: String)
        ensures
            s@ == results_text(rs@),
        decreases rs, 1int,
    {
        let mut s = String::new();
        if rs.len() == 0 {
            return s;
        }
        if rs.len() == 1 && rs[0].names.len() == 0 {
            s.append(" ");
            let t = Self::type_expr(&rs[0].ty);
            s.append(t.as_str());
            return s;
        }
        s.append(" (");
        let p = Self::params(rs);
        s.append(p.as_str());
        s.append(")");
        s
    }

    /// Renders a struct type.
    fn struct_type(st: &StructType) -> (s: String)
        ensures
            s@ == struct_text(*st),
        decreases st, 0int,
    {
        if st.fields.len() == 0 {
            return "struct{}".to_string();
        }
        let mut s = String::new();
        s.append("struct {\n");
        let f = Self::fields(&st.fields);
        s.append(f.as_str());
        s.append("}");
        s
    }

    /// Field declarations, one per line.
    fn fields(fs: &Vec<FieldDecl>) -> (s: String)
        ensures
            s@ == fields_text(fs@),
        decreases fs, 0int,
    {
        let mut s = String::new();
        let mut i: usize = 0;
        while i < fs.len()
            invariant
                i <= fs.len(),
                s@ == fields_text(fs@.subrange(0, i as int)),
            decreases fs.len() - i,
        {
            assert(fs@.subrange(0, i + 1).drop_last() == fs@.subrange(0, i as int));
            s.append("\t");
            let r0 = Self::field(&fs[i]);
            let r = indent_text(r0.as_str());
            s.append(r.as_str());
            s.append("\n");
            i = i + 1;
        }
        assert(fs@.subrange(0, fs.len() as int) == fs@);
        s
    }

    /// An optional struct tag with its leading space.
    fn tag(tag: &Option<StringLit>) -> (s: String)
        ensures
            s@ == tag_text(*tag),
    {
        let mut s = String::new();
        if let Some(t) = tag {
            s.append(" ");
            s.append(t.raw.as_str());
        }
        s
    }

    /// One field declaration.
    fn field(f: &FieldDecl) -> (s: String)
        ensures
            s@ == field_text(*f),
        decreases f, 0int,
    {
        match f {
            FieldDecl::Named { names, ty, tag, .. } => {
                let mut s = Self::names(names);
                s.append(" ");
                let t = Self::type_expr(ty);
                s.append(t.as_str());
                let g = Self::tag(tag);
                s.append(g.as_str());
                s
            },
            FieldDecl::Embedded { ty, tag, .. } => {
                let mut s = Self::type_expr(ty);
                let g = Self::tag(tag);
                s.append(g.as_str());
                s
            },
        }
    }

    /// Renders an interface type.
    fn interface_type(it: &InterfaceType) -> (s: String)
        ensures
            s@ == interface_text(*it),
        decreases it, 0int,
    {
        if it.elements.len() == 0 {
            return "interface{}".to_string();
        }
        let mut s = String::new();
        s.append("interface {\n");
        let e = Self::elems(&it.elements);
        s.append(e.as_str());
        s.append("}");
        s
    }

    /// Interface elements, one per line.
    fn elems(es: &Vec<InterfaceElem>) -> (s: String)
        ensures
            s@ == elems_text(es@),
        decreases es, 0int,
    {
        let mut s = String::new();
        let mut i: usize = 0;
        while i < es.len()
            invariant
                i <= es.len(),
                s@ == elems_text(es@.subrange(0, i as int)),
            decreases es.len() - i,
        {
            assert(es@.subrange(0, i + 1).drop_last() == es@.subrange(0, i as int));
            s.append("\t");
            let r0 = Self::elem(&es[i]);
            let r = indent_text(r0.as_str());
            s.append(r.as_str());
            s.append("\n");
            i = i + 1;
        }
        assert(es@.subrange(0, es.len() as int) == es@);
        s
    }

    /// One interface element.
    fn elem(e: &InterfaceElem) -> (s: String)
        ensures
            s@ == elem_text(*e),
        decreases e, 0int,
    {
        match e {
            InterfaceElem::Method { name, ty, .. } => {
                let mut s = name.name.clone();
                s.append("(");
                let p = Self::params(&ty.params);
                s.append(p.as_str());
                s.append(")");
                let r = Self::results(&ty.results);
                s.append(r.as_str());
                s
            },
            InterfaceElem::TypeTerm(tt) => Self::terms(&tt.terms),
            InterfaceElem::Embedded(ty) => Self::type_expr(ty),
        }
    }

    /// Constraint union terms separated by `" | "`.
    fn terms(ts: &Vec<TypeTermElem>) -> (s: String)
        ensures
            s@ == terms_text(ts@),
        decreases ts, 0int,
    {
        let mut s = String::new();
        let mut i: usize = 0;
        while i < ts.len()
            invariant
                i <= ts.len(),
                s@ == terms_text(ts@.subrange(0, i as int)),
            decreases ts.len() - i,
        {
            assert(ts@.subrange(0, i + 1).drop_last() == ts@.subrange(0, i as int));
            if i > 0 {
                s.append(" | ");
            }
            let ghost s1 = s@;
            if ts[i].tilde {
                s.append("~");
            } else {
                proof { lemma_add_empty(s1); }
            }
            let r = Self::type_expr(&ts[i].ty);
            s.append(r.as_str());
            i = i + 1;
        }
        assert(ts@.subrange(0, ts.len() as int) == ts@);
        s
    }

    /// Renders an expression.
    pub fn expr(e: &Expr) -> (s: String)
        ensures
            s@ == expr_text(*e),
        decreases e, 0int,
    {
        match e {
            Expr::Ident(id) => id.name.clone(),
            Expr::Qualified { package, name, .. } => {
                let mut s = package.name.clone();
                s.append(".");
                s.append(name.name.as_str());
                s
            },
            Expr::Int(lit) => lit.raw.clone(),
            Expr::Float(lit) => lit.raw.clone(),
            Expr::Imaginary(lit) => lit.raw.clone(),
            Expr::Rune(lit) => lit.raw.clone(),
            Expr::String(lit) => lit.raw.clone(),
            Expr::RawString(lit) => lit.raw.clone(),
            Expr::True(_) => "true".to_string(),
            Expr::False(_) => "false".to_string(),
            Expr::Nil(_) => "nil".to_string(),
            Expr::Iota(_) => "iota".to_string(),
            Expr::Paren(inner, _) => {
                let mut s = String::new();
                s.append("(");
                let r = Self::expr(inner);
                s.append(r.as_str());
                s.append(")");
                s
            },
            Expr::Composite { ty, elems, .. } => {
                let mut s = Self::type_expr(ty);
                if elems.len() == 0 {
                    s.append("{}");
                    return s;
                }
                s.append("{");
                let k = Self::keyed(elems);
                s.append(k.as_str());
                s.append("}");
                s
            },
            Expr::FuncLit { ty, body, .. } => {
                let mut s = Self::func_type(ty);
                s.append(" ");
                let b = Self::block(body);
                s.append(b.as_str());
                s
            },
            Expr::Call { func, type_args, args, ellipsis, .. } => {
                let mut s = Self::expr(func);
                let ghost s0 = s@;
                if type_args.len() != 0 {
                    s.append("[");
                    let ta = Self::type_list(type_args);
                    s.append(ta.as_str());
                    s.append("]");
                } else {
                    proof { lemma_add_empty(s0); }
                }
                s.append("(");
                let a = Self::expr_list(args);
                s.append(a.as_str());
                let ghost s2 = s@;
                if *ellipsis {
                    s.append("...");
                } else {
                    proof { lemma_add_empty(s2); }
                }
                s.append(")");
                s
            },
            Expr::Selector { operand, field, .. } => {
                let mut s = Self::expr(operand);
                s.append(".");
                s.append(field.name.as_str());
                s
            },
            Expr::Index { operand, index, .. } => {
                let mut s = Self::expr(operand);
                s.append("[");
                let i = Self::expr(index);
                s.append(i.as_str());
                s.append("]");
                s
            },
            Expr::Slice { operand, low, high, max, .. } => {
                let mut s = Self::expr(operand);
                s.append("[");
                let l = Self::opt_expr(low);
                s.append(l.as_str());
                s.append(":");
                let h = Self::opt_expr(high);
                s.append(h.as_str());
                let ghost s3 = s@;
                if max.is_some() {
                    s.append(":");
                    let m = Self::opt_expr(max);
                    s.append(m.as_str());
                } else {
                    proof { lemma_add_empty(s3); }
                }
                s.append("]");
                s
            },
            Expr::TypeAssert { operand, ty, .. } => {
                let mut s = Self::expr(operand);
                s.append(".(");
                let t = Self::type_expr(ty);
                s.append(t.as_str());
                s.append(")");
                s
            },
            Expr::Unary { op, operand, .. } => {
                let mut s = String::new();
                s.append(Self::unary_op_str(*op));
                let r = Self::expr(operand);
                s.append(r.as_str());
                s
            },
            Expr::Binary { op, left, right, .. } => {
                let mut s = Self::operand(left, *op, true);
                s.append(" ");
                s.append(Self::binary_op_str(*op));
                s.append(" ");
                let r = Self::operand(right, *op, false);
                s.append(r.as_str());
                s
            },
        }
    }

    /// An optional expression; empty when absent.
    fn opt_expr(e: &Option<Box<Expr>>) -> (s: String)
        ensures
            s@ == opt_expr_text(*e),
        decreases e, 0int,
    {
        match e {
            Some(x) => Self::expr(x),
            None => String::new(),
        }
    }

    /// Expressions separated by `", "`.
    fn expr_list(es: &Vec<Expr>) -> (s: String)
        ensures
            s@ == exprs_text(es@),
        decreases es, 0int,
    {
        let mut s = String::new();
        let mut i: usize = 0;
        while i < es.len()
            invariant
                i <= es.len(),
                s@ == exprs_text(es@.subrange(0, i as int)),
            decreases es.len() - i,
        {
            assert(es@.subrange(0, i + 1).drop_last() == es@.subrange(0, i as int));
            if i > 0 {
                s.append(", ");
            }
            let r = Self::expr(&es[i]);
            s.append(r.as_str());
            i = i + 1;
        }
        assert(es@.subrange(0, es.len() as int) == es@);
        s
    }

    /// One composite-literal element.
    fn keyed_elem(k: &KeyedElem) -> (s: String)
        ensures
            s@ == keyed_elem_text(*k),
        decreases k, 0int,
    {
        match &k.key {
            Some(key) => {
                let mut s = Self::expr(key);
                s.append(": ");
                let v = Self::expr(&k.value);
                s.append(v.as_str());
                s
            },
            None => Self::expr(&k.value),
        }
    }

    /// Composite-literal elements separated by `", "`.
    fn keyed(ks: &Vec<KeyedElem>) -> (s: String)
        ensures
            s@ == keyed_text(ks@),
        decreases ks, 0int,
    {
        let mut s = String::new();
        let mut i: usize = 0;
        while i < ks.len()
            invariant
                i <= ks.len(),
                s@ == keyed_text(ks@.subrange(0, i as int)),
            decreases ks.len() - i,
        {
            assert(ks@.subrange(0, i + 1).drop_last() == ks@.subrange(0, i as int));
            if i > 0 {
                s.append(", ");
            }
            let r = Self::keyed_elem(&ks[i]);
            s.append(r.as_str());
            i = i + 1;
        }
        assert(ks@.subrange(0, ks.len() as int) == ks@);
        s
    }

    /// A child of a binary expression, parenthesized where precedence asks for it.
    fn operand(child: &Expr, parent_op: BinaryOp, is_left: bool) -> (s: String)
        ensures
            s@ == operand_text(*child, parent_op, is_left),
        decreases child, 1int,
    {
        if Self::needs_parens(parent_op, child, is_left) {
            let mut s = String::new();
            s.append("(");
            let r = Self::expr(child);
            s.append(r.as_str());
            s.append(")");
            s
        } else {
            Self::expr(child)
        }
    }

    /// Returns true when a child of a binary expression needs parentheses: it is
    /// binary with lower precedence than the parent, or equal precedence on the right.
    pub fn needs_parens(parent_op: BinaryOp, child: &Expr, is_left: bool) -> (b: bool)
        ensures
            b == spec_needs_parens(parent_op, *child, is_left),
    {
        match child {
            Expr::Binary { op: child_op, .. } => {
                let parent_prec = parent_op.precedence();
                let child_prec = child_op.precedence();
                if child_prec < parent_prec {
                    return true;
                }
                child_prec == parent_prec && !is_left
            },
            _ => false,
        }
    }

    /// Source text of a binary operator.
    fn binary_op_str(op: BinaryOp) -> (s: &'static str)
        ensures
            s@ == binary_op_text(op),
    {
        match op {
            BinaryOp::Add => "+",
            BinaryOp::Sub => "-",
            BinaryOp::Mul => "*",
            BinaryOp::Div => "/",
            BinaryOp::Rem => "%",
            BinaryOp::And => "&",
            BinaryOp::Or => "|",
            BinaryOp::Xor => "^",
            BinaryOp::AndNot => "&^",
            BinaryOp::Shl => "<<",
            BinaryOp::Shr => ">>",
            BinaryOp::LogAnd => "&&",
            BinaryOp::LogOr => "||",
            BinaryOp::Eq => "==",
            BinaryOp::Ne => "!=",
            BinaryOp::Lt => "<",
            BinaryOp::Le => "<=",
            BinaryOp::Gt => ">",
            BinaryOp::Ge => ">=",
        }
    }

    /// Source text of a unary operator.
    fn unary_op_str(op: UnaryOp) -> (s: &'static str)
        ensures
            s@ == unary_op_text(op),
    {
        match op {
            UnaryOp::Not => "!",
            UnaryOp::Neg => "-",
            UnaryOp::Pos => "+",
            UnaryOp::Deref => "*",
            UnaryOp::Addr => "&",
            UnaryOp::Recv => "<-",
            UnaryOp::BitNot => "^",
        }
    }

    /// Source text of an assignment operator.
    fn assign_op_str(op: AssignOp) -> (s: &'static str)
        ensures
            s@ == assign_op_text(op),
    {
        match op {
            AssignOp::Assign => "=",
            AssignOp::AddAssign => "+=",
            AssignOp::SubAssign => "-=",
            AssignOp::MulAssign => "*=",
            AssignOp::DivAssign => "/=",
            AssignOp::RemAssign => "%=",
            AssignOp::AndAssign => "&=",
            AssignOp::OrAssign => "|=",
            AssignOp::XorAssign => "^=",
            AssignOp::AndNotAssign => "&^=",
            AssignOp::ShlAssign => "<<=",
            AssignOp::ShrAssign => ">>=",
        }
    }
}

impl Printer {
    /// Statements, one per line, each indented by a tab.
    fn stmt_lines(ss: &Vec<Stmt>) -> (s: String)
        ensures
            s@ == stmt_lines(ss@),
        decreases ss, 0int,
    {
        let mut s = String::new();
        let mut i: usize = 0;
        while i < ss.len()
            invariant
                i <= ss.len(),
                s@ == stmt_lines(ss@.subrange(0, i as int)),
            decreases ss.len() - i,
        {
            assert(ss@.subrange(0, i + 1).drop_last() == ss@.subrange(0, i as int));
            s.append("\t");
            let r0 = Self::stmt(&ss[i]);
            let r = indent_text(r0.as_str());
            s.append(r.as_str());
            s.append("\n");
            i = i + 1;
        }
        assert(ss@.subrange(0, ss.len() as int) == ss@);
        s
    }

    /// Renders a block: `{}` or one statement per line.
    fn block(b: &Block) -> (s: String)
        ensures
            s@ == block_text(*b),
        decreases b, 0int,
    {
        if b.stmts.len() == 0 {
            return "{}".to_string();
        }
        let mut s = String::new();
        s.append("{\n");
        let l = Self::stmt_lines(&b.stmts);
        s.append(l.as_str());
        s.append("}");
        s
    }

    /// An optional init statement followed by `"; "`.
    fn init(init: &Option<Box<Stmt>>) -> (s: String)
        ensures
            s@ == init_text(*init),
        decreases init, 0int,
    {
        match init {
            Some(i) => {
                let mut s = Self::stmt(i);
                s.append("; ");
                s
            },
            None => String::new(),
        }
    }

    /// The clauses of an expression switch.
    fn expr_cases(cs: &Vec<ExprCase>) -> (s: String)
        ensures
            s@ == expr_cases_text(cs@),
        decreases cs, 0int,
    {
        let mut s = String::new();
        let mut i: usize = 0;
        while i < cs.len()
            invariant
                i <= cs.len(),
                s@ == expr_cases_text(cs@.subrange(0, i as int)),
            decreases cs.len() - i,
        {
            assert(cs@.subrange(0, i + 1).drop_last() == cs@.subrange(0, i as int));
            let r = Self::expr_case(&cs[i]);
            s.append(r.as_str());
            i = i + 1;
        }
        assert(cs@.subrange(0, cs.len() as int) == cs@);
        s
    }

    /// One expression-switch clause.
    fn expr_case(c: &ExprCase) -> (s: String)
        ensures
            s@ == expr_case_text(*c),
        decreases c, 0int,
    {
        let mut s = String::new();
        if c.exprs.len() == 0 {
            s.append("default:\n");
        } else {
            s.append("case ");
            let e = Self::expr_list(&c.exprs);
            s.append(e.as_str());
            s.append(":\n");
        }
        let b = Self::stmt_lines(&c.body);
        s.append(b.as_str());
        s
    }

    /// The clauses of a type switch.
    fn type_cases(cs: &Vec<TypeCase>) -> (s: String)
        ensures
            s@ == type_cases_text(cs@),
        decreases cs, 0int,
    {
        let mut s = String::new();
        let mut i: usize = 0;
        while i < cs.len()
            invariant
                i <= cs.len(),
                s@ == type_cases_text(cs@.subrange(0, i as int)),
            decreases cs.len() - i,
        {
            assert(cs@.subrange(0, i + 1).drop_last() == cs@.subrange(0, i as int));
            let r = Self::type_case(&cs[i]);
            s.append(r.as_str());
            i = i + 1;
        }
        assert(cs@.subrange(0, cs.len() as int) == cs@);
        s
    }

    /// One type-switch clause.
    fn type_case(c: &TypeCase) -> (s: String)
        ensures
            s@ == type_case_text(*c),
        decreases c, 0int,
    {
        let mut s = String::new();
        if c.types.len() == 0 {
            s.append("default:\n");
        } else {
            s.append("case ");
            let t = Self::type_list(&c.types);
            s.append(t.as_str());
            s.append(":\n");
        }
        let b = Self::stmt_lines(&c.body);
        s.append(b.as_str());
        s
    }

    /// The clauses of a select statement.
    fn comm_cases(cs: &Vec<CommCase>) -> (s: String)
        ensures
            s@ == comm_cases_text(cs@),
        decreases cs, 0int,
    {
        let mut s = String::new();
        let mut i: usize = 0;
        while i < cs.len()
            invariant
                i <= cs.len(),
                s@ == comm_cases_text(cs@.subrange(0, i as int)),
            decreases cs.len() - i,
        {
            assert(cs@.subrange(0, i + 1).drop_last() == cs@.subrange(0, i as int));
            let r = Self::comm_case(&cs[i]);
            s.append(r.as_str());
            i = i + 1;
        }
        assert(cs@.subrange(0, cs.len() as int) == cs@);
        s
    }

    /// One select clause.
    fn comm_case(c: &CommCase) -> (s: String)
        ensures
            s@ == comm_case_text(*c),
        decreases c, 0int,
    {
        let mut s = String::new();
        match c {
            CommCase::Send { stmt, body, .. } => {
                s.append("case ");
                let t = Self::stmt(stmt);
                s.append(t.as_str());
                s.append(":\n");
                let b = Self::stmt_lines(body);
                s.append(b.as_str());
            },
            CommCase::Recv { stmt, recv_expr, body, .. } => {
                match stmt {
                    Some(st) => {
                        s.append("case ");
                        let t = Self::stmt(st);
                        s.append(t.as_str());
                        s.append(":\n");
                    },
                    None => match recv_expr {
                        Some(r) => {
                            s.append("case ");
                            let t = Self::expr(r);
                            s.append(t.as_str());
                            s.append(":\n");
                        },
                        None => {
                            s.append("case:\n");
                        },
                    },
                }
                let b = Self::stmt_lines(body);
                s.append(b.as_str());
            },
            CommCase::Default { body, .. } => {
                s.append("default:\n");
                let b = Self::stmt_lines(body);
                s.append(b.as_str());
            },
        }
        s
    }

    /// The header of a C-style `for` loop after the keyword.
    fn for_clause(st: &Stmt) -> (s: String)
        ensures
            s@ == for_clause_text(*st),
        decreases st, 0int,
    {
        let mut s = String::new();
        match st {
            Stmt::For { init, cond, post, .. } => {
                if init.is_some() || post.is_some() {
                    if let Some(i) = init {
                        let t = Self::stmt(i);
                        s.append(t.as_str());
                    }
                    s.append("; ");
                    if let Some(c) = cond {
                        let t = Self::expr(c);
                        s.append(t.as_str());
                    }
                    s.append("; ");
                    let ghost s2 = s@;
                    if let Some(p) = post {
                        let t = Self::stmt(p);
                        s.append(t.as_str());
                        s.append(" ");
                    } else {
                        proof { lemma_add_empty(s2); }
                    }
                } else if let Some(c) = cond {
                    let t = Self::expr(c);
                    s.append(t.as_str());
                    s.append(" ");
                }
            },
            _ => {},
        }
        s
    }

    /// The variables of a range loop, e.g. `k, v := `.
    fn range_vars(st: &Stmt) -> (s: String)
        ensures
            s@ == range_vars_text(*st),
        decreases st, 0int,
    {
        let mut s = String::new();
        match st {
            Stmt::ForRange { key, value, assign, .. } => {
                if key.is_some() || value.is_some() {
                    match key {
                        Some(k) => {
                            let t = Self::expr(k);
                            s.append(t.as_str());
                        },
                        None => s.append("_"),
                    }
                    let ghost s1 = s@;
                    if let Some(v) = value {
                        s.append(", ");
                        let t = Self::expr(v);
                        s.append(t.as_str());
                    } else {
                        proof { lemma_add_empty(s1); }
                    }
                    match assign {
                        RangeAssign::Assign => s.append(" = "),
                        _ => s.append(" := "),
                    }
                }
            },
            _ => {},
        }
        s
    }

    /// An optional branch label after its keyword.
    fn labeled(kw: &str, label: &Option<Ident>) -> (s: String)
        ensures
            s@ == label_text(kw@, *label),
    {
        let mut s = String::new();
        s.append(kw);
        if let Some(l) = label {
            s.append(" ");
            s.append(l.name.as_str());
        }
        s
    }

    /// Renders a statement.
    pub fn stmt(st: &Stmt) -> (s: String)
        ensures
            s@ == stmt_text(*st),
        decreases st, 1int,
    {
        match st {
            Stmt::Empty(_) => String::new(),
            Stmt::Block(b) => Self::block(b),
            Stmt::Expr(e, _) => Self::expr(e),
            Stmt::Assign { lhs, op, rhs, .. } => {
                let mut s = Self::expr_list(lhs);
                s.append(" ");
                s.append(Self::assign_op_str(*op));
                s.append(" ");
                let r = Self::expr_list(rhs);
                s.append(r.as_str());
                s
            },
            Stmt::ShortVarDecl { names, values, .. } => {
                let mut s = Self::names(names);
                s.append(" := ");
                let v = Self::expr_list(values);
                s.append(v.as_str());
                s
            },
            Stmt::VarDecl(vs, _) => Self::var_group(vs),
            Stmt::ConstDecl(cs, _) => Self::const_group(cs),
            Stmt::Inc(e, _) => {
                let mut s = Self::expr(e);
                s.append("++");
                s
            },
            Stmt::Dec(e, _) => {
                let mut s = Self::expr(e);
                s.append("--");
                s
            },
            Stmt::Send { channel, value, .. } => {
                let mut s = Self::expr(channel);
                s.append(" <- ");
                let v = Self::expr(value);
                s.append(v.as_str());
                s
            },
            Stmt::Return { values, .. } => {
                if values.len() == 0 {
                    return "return".to_string();
                }
                let mut s = String::new();
                s.append("return ");
                let v = Self::expr_list(values);
                s.append(v.as_str());
                s
            },
            Stmt::If { init, cond, body, else_, .. } => {
                let mut s = String::new();
                s.append("if ");
                let i = Self::init(init);
                s.append(i.as_str());
                let c = Self::expr(cond);
                s.append(c.as_str());
                s.append(" ");
                let b = Self::block(body);
                s.append(b.as_str());
                let ghost s4 = s@;
                if let Some(e) = else_ {
                    s.append(" else ");
                    let t = Self::stmt(e);
                    s.append(t.as_str());
                } else {
                    proof { lemma_add_empty(s4); }
                }
                s
            },
            Stmt::For { body, .. } => {
                let mut s = String::new();
                s.append("for ");
                let c = Self::for_clause(st);
                s.append(c.as_str());
                let b = Self::block(body);
                s.append(b.as_str());
                s
            },
            Stmt::ForRange { iterable, body, .. } => {
                let mut s = String::new();
                s.append("for ");
                let v = Self::range_vars(st);
                s.append(v.as_str());
                s.append("range ");
                let it = Self::expr(iterable);
                s.append(it.as_str());
                s.append(" ");
                let b = Self::block(body);
                s.append(b.as_str());
                s
            },
            Stmt::Switch { init, tag, cases, .. } => {
                let mut s = String::new();
                s.append("switch ");
                let i = Self::init(init);
                s.append(i.as_str());
                let ghost s1 = s@;
                if let Some(t) = tag {
                    let x = Self::expr(t);
                    s.append(x.as_str());
                    s.append(" ");
                } else {
                    proof { lemma_add_empty(s1); }
                }
                s.append("{\n");
                let c = Self::expr_cases(cases);
                s.append(c.as_str());
                s.append("}");
                s
            },
            Stmt::TypeSwitch { init, assign, cases, .. } => {
                let mut s = String::new();
                s.append("switch ");
                let i = Self::init(init);
                s.append(i.as_str());
                let ghost s1 = s@;
                if let Some(n) = &assign.name {
                    s.append(n.name.as_str());
                    s.append(" := ");
                } else {
                    proof { lemma_add_empty(s1); }
                }
                let x = Self::expr(&assign.expr);
                s.append(x.as_str());
                s.append(".(type) {\n");
                let c = Self::type_cases(cases);
                s.append(c.as_str());
                s.append("}");
                s
            },
            Stmt::Select { cases, .. } => {
                let mut s = String::new();
                s.append("select {\n");
                let c = Self::comm_cases(cases);
                s.append(c.as_str());
                s.append("}");
                s
            },
            Stmt::Go(e, _) => {
                let mut s = String::new();
                s.append("go ");
                let x = Self::expr(e);
                s.append(x.as_str());
                s
            },
            Stmt::Defer(e, _) => {
                let mut s = String::new();
                s.append("defer ");
                let x = Self::expr(e);
                s.append(x.as_str());
                s
            },
            Stmt::Break(label, _) => Self::labeled("break", label),
            Stmt::Continue(label, _) => Self::labeled("continue", label),
            Stmt::Goto(label, _) => {
                let mut s = String::new();
                s.append("goto ");
                s.append(label.name.as_str());
                s
            },
            Stmt::Fallthrough(_) => "fallthrough".to_string(),
            Stmt::Labeled { label, body, .. } => {
                let mut s = label.name.clone();
                s.append(":\n");
                let b = Self::stmt(body);
                s.append(b.as_str());
                s
            },
            Stmt::TypeDecl(ts, _) => Self::type_group(ts),
        }
    }

    /// Renders a `var` declaration: one specification after the keyword, or
    /// a parenthesized list with one specification per line.
    fn var_group(xs: &Vec<VarSpec>) -> (s: String)
        ensures
            s@ == var_group_text(xs@),
        decreases xs, 1int,
    {
        if xs.len() == 1 {
            let mut s = "var ".to_string();
            let t = Self::var_spec(&xs[0]);
            s.append(t.as_str());
            return s;
        }
        let mut s = "var (\n".to_string();
        let l = Self::var_spec_lines(xs);
        s.append(l.as_str());
        s.append(")");
        s
    }

    /// One `var` specification per line, each indented by a tab.
    fn var_spec_lines(xs: &Vec<VarSpec>) -> (s: String)
        ensures
            s@ == var_spec_lines(xs@),
        decreases xs, 0int,
    {
        let mut s = String::new();
        let mut i: usize = 0;
        while i < xs.len()
            invariant
                i <= xs.len(),
                s@ == var_spec_lines(xs@.subrange(0, i as int)),
            decreases xs.len() - i,
        {
            assert(xs@.subrange(0, i + 1).drop_last() == xs@.subrange(0, i as int));
            s.append("\t");
            let r0 = Self::var_spec(&xs[i]);
            let r = indent_text(r0.as_str());
            s.append(r.as_str());
            s.append("\n");
            i = i + 1;
        }
        assert(xs@.subrange(0, xs.len() as int) == xs@);
        s
    }

    /// Renders a `const` declaration: one specification after the keyword, or
    /// a parenthesized list with one specification per line.
    fn const_group(xs: &Vec<ConstSpec>) -> (s: String)
        ensures
            s@ == const_group_text(xs@),
        decreases xs, 1int,
    {
        if xs.len() == 1 {
            let mut s = "const ".to_string();
            let t = Self::const_spec(&xs[0]);
            s.append(t.as_str());
            return s;
        }
        let mut s = "const (\n".to_string();
        let l = Self::const_spec_lines(xs);
        s.append(l.as_str());
        s.append(")");
        s
    }

    /// One `const` specification per line, each indented by a tab.
    fn const_spec_lines(xs: &Vec<ConstSpec>) -> (s: String)
        ensures
            s@ == const_spec_lines(xs@),
        decreases xs, 0int,
    {
        let mut s = String::new();
        let mut i: usize = 0;
        while i < xs.len()
            invariant
                i <= xs.len(),
                s@ == const_spec_lines(xs@.subrange(0, i as int)),
            decreases xs.len() - i,
        {
            assert(xs@.subrange(0, i + 1).drop_last() == xs@.subrange(0, i as int));
            s.append("\t");
            let r0 = Self::const_spec(&xs[i]);
            let r = indent_text(r0.as_str());
            s.append(r.as_str());
            s.append("\n");
            i = i + 1;
        }
        assert(xs@.subrange(0, xs.len() as int) == xs@);
        s
    }

    /// Renders a `type` declaration: one specification after the keyword, or
    /// a parenthesized list with one specification per line.
    fn type_group(xs: &Vec<TypeSpec>) -> (s: String)
        ensures
            s@ == type_group_text(xs@),
        decreases xs, 1int,
    {
        if xs.len() == 1 {
            let mut s = "type ".to_string();
            let t = Self::type_spec_inner(&xs[0]);
            s.append(t.as_str());
            return s;
        }
        let mut s = "type (\n".to_string();
        let l = Self::type_spec_lines(xs);
        s.append(l.as_str());
        s.append(")");
        s
    }

    /// One `type` specification per line, each indented by a tab.
    fn type_spec_lines(xs: &Vec<TypeSpec>) -> (s: String)
        ensures
            s@ == type_spec_lines(xs@),
        decreases xs, 0int,
    {
        let mut s = String::new();
        let mut i: usize = 0;
        while i < xs.len()
            invariant
                i <= xs.len(),
                s@ == type_spec_lines(xs@.subrange(0, i as int)),
            decreases xs.len() - i,
        {
            assert(xs@.subrange(0, i + 1).drop_last() == xs@.subrange(0, i as int));
            s.append("\t");
            let r0 = Self::type_spec_inner(&xs[i]);
            let r = indent_text(r0.as_str());
            s.append(r.as_str());
            s.append("\n");
            i = i + 1;
        }
        assert(xs@.subrange(0, xs.len() as int) == xs@);
        s
    }

    /// Renders a `var` specification, without the keyword.
    fn var_spec(vs: &VarSpec) -> (s: String)
        ensures
            s@ == var_spec_text(*vs),
        decreases vs, 0int,
    {
        let mut s = String::new();
        let n = Self::names(&vs.names);
        s.append(n.as_str());
        let ghost s1 = s@;
        if let Some(t) = &vs.ty {
            s.append(" ");
            let x = Self::type_expr(t);
            s.append(x.as_str());
        } else {
            proof { lemma_add_empty(s1); }
        }
        let ghost s2 = s@;
        if vs.values.len() != 0 {
            s.append(" = ");
            let v = Self::expr_list(&vs.values);
            s.append(v.as_str());
        } else {
            proof { lemma_add_empty(s2); }
        }
        s
    }

    /// Renders a `const` specification, without the keyword.
    fn const_spec(cs: &ConstSpec) -> (s: String)
        ensures
            s@ == const_spec_text(*cs),
        decreases cs, 0int,
    {
        let mut s = String::new();
        let n = Self::names(&cs.names);
        s.append(n.as_str());
        let ghost s1 = s@;
        if let Some(t) = &cs.ty {
            s.append(" ");
            let x = Self::type_expr(t);
            s.append(x.as_str());
        } else {
            proof { lemma_add_empty(s1); }
        }
        let ghost s2 = s@;
        if cs.values.len() != 0 {
            s.append(" = ");
            let v = Self::expr_list(&cs.values);
            s.append(v.as_str());
        } else {
            proof { lemma_add_empty(s2); }
        }
        s
    }

    /// Type parameters in brackets, or nothing when there are none.
    fn bracketed_type_params(tps: &Vec<TypeParam>) -> (s: String)
        ensures
            s@ == text_if(tps@.len() != 0, "["@ + type_params_text(tps@) + "]"@),
        decreases tps, 1int,
    {
        let mut s = String::new();
        if tps.len() != 0 {
            s.append("[");
            let p = Self::type_params(tps);
            s.append(p.as_str());
            s.append("]");
        }
        s
    }

    /// A type specification without the `type` keyword.
    fn type_spec_inner(t: &TypeSpec) -> (s: String)
        ensures
            s@ == type_spec_inner_text(*t),
        decreases t, 0int,
    {
        match t {
            TypeSpec::Alias { name, type_params, ty, .. } => {
                let mut s = name.name.clone();
                let p = Self::bracketed_type_params(type_params);
                s.append(p.as_str());
                s.append(" = ");
                let x = Self::type_expr(ty);
                s.append(x.as_str());
                s
            },
            TypeSpec::Def { name, type_params, ty, .. } => {
                let mut s = name.name.clone();
                let p = Self::bracketed_type_params(type_params);
                s.append(p.as_str());
                s.append(" ");
                let x = Self::type_expr(ty);
                s.append(x.as_str());
                s
            },
        }
    }

    /// Renders a type specification: `type Name ...`.
    pub fn type_spec(t: &TypeSpec) -> (s: String)
        ensures
            s@ == "type "@ + type_spec_inner_text(*t),
    {
        let mut s = String::new();
        s.append("type ");
        let x = Self::type_spec_inner(t);
        s.append(x.as_str());
        s
    }

    /// The signature after a declaration's name.
    pub fn signature(ft: &FuncType) -> (s: String)
        ensures
            s@ == signature_text(*ft),
    {
        let mut s = String::new();
        if ft.type_params.len() != 0 {
            s.append("[");
            let p = Self::type_params(&ft.type_params);
            s.append(p.as_str());
            s.append("]");
        }
        s.append("(");
        let p = Self::params(&ft.params);
        s.append(p.as_str());
        s.append(")");
        let r = Self::results(&ft.results);
        s.append(r.as_str());
        s
    }

    /// An optional body with its leading space.
    fn body(body: Option<&Block>) -> (s: String)
        ensures
            s@ == body_text(match body {
                Some(b) => Some(*b),
                None => None,
            }),
    {
        let mut s = String::new();
        if let Some(b) = body {
            s.append(" ");
            let t = Self::block(b);
            s.append(t.as_str());
        }
        s
    }

    /// Renders a function declaration with the given body in place of its own.
    pub fn func_decl_with_body(f: &FuncDecl, body: Option<&Block>) -> (s: String)
        ensures
            s@ == "func "@ + f.name.name@ + signature_text(f.ty) + body_text(match body {
                Some(b) => Some(*b),
                None => None,
            }),
    {
        let mut s = String::new();
        s.append("func ");
        s.append(f.name.name.as_str());
        let g = Self::signature(&f.ty);
        s.append(g.as_str());
        let b = Self::body(body);
        s.append(b.as_str());
        s
    }

    /// Renders a function declaration.
    pub fn func_decl(f: &FuncDecl) -> (s: String)
        ensures
            s@ == func_decl_text(*f),
    {
        Self::func_decl_with_body(f, f.body.as_ref())
    }

    /// Renders a method declaration with the given body in place of its own.
    pub fn method_decl_with_body(m: &MethodDecl, body: Option<&Block>) -> (s: String)
        ensures
            s@ == "func ("@ + receiver_text(*m) + ") "@ + m.name.name@ + signature_text(m.ty)
                + body_text(match body {
                Some(b) => Some(*b),
                None => None,
            }),
    {
        let mut s = String::new();
        s.append("func (");
        if let Some(n) = &m.receiver.name {
            s.append(n.name.as_str());
            s.append(" ");
        }
        let t = Self::type_expr(&m.receiver.ty);
        s.append(t.as_str());
        s.append(") ");
        s.append(m.name.name.as_str());
        let g = Self::signature(&m.ty);
        s.append(g.as_str());
        let b = Self::body(body);
        s.append(b.as_str());
        s
    }

    /// Renders a method declaration.
    pub fn method_decl(m: &MethodDecl) -> (s: String)
        ensures
            s@ == method_decl_text(*m),
    {
        Self::method_decl_with_body(m, m.body.as_ref())
    }
}


} // verus!
