//! The text that the printer produces for each syntax node, as spec functions.
//!
//! Every function here states, over sequences of characters, the Go source
//! text of one kind of node. `crate::printer::Printer` is proved to produce
//! exactly these texts.

use vstd::prelude::*;

use crate::ast::{
    AssignOp, BinaryOp, Block, ChanDir, CommCase, ConstSpec, Expr, ExprCase, FieldDecl,
    FuncDecl, FuncType, InterfaceElem, InterfaceType, KeyedElem, MethodDecl, ParamDecl,
    RangeAssign, Stmt, StructType, TypeCase, TypeExpr, TypeParam, TypeSpec, TypeTermElem,
    UnaryOp, VarSpec,
};
use crate::leaf::{Ident, StringLit};

verus! {

/// Where a scan of printed Go text stands: in code, inside a raw string
/// literal, inside an interpreted string or rune literal, or just after a
/// backslash in one of those.
#[derive(Debug, Clone, Copy, PartialEq, Eq, Structural)]
pub enum ScanState {
    Code,
    Raw,
    Str,
    StrEsc,
    Rune,
    RuneEsc,
}

/// The scan state after reading `c` in state `st`.
pub open spec fn scan_next(st: ScanState, c: char) -> ScanState {
    match st {
        ScanState::Code => if c == '`' {
            ScanState::Raw
        } else if c == '"' {
            ScanState::Str
        } else if c == '\'' {
            ScanState::Rune
        } else {
            ScanState::Code
        },
        ScanState::Raw => if c == '`' {
            ScanState::Code
        } else {
            ScanState::Raw
        },
        ScanState::Str => if c == '\\' {
            ScanState::StrEsc
        } else if c == '"' {
            ScanState::Code
        } else {
            ScanState::Str
        },
        ScanState::StrEsc => ScanState::Str,
        ScanState::Rune => if c == '\\' {
            ScanState::RuneEsc
        } else if c == '\'' {
            ScanState::Code
        } else {
            ScanState::Rune
        },
        ScanState::RuneEsc => ScanState::Rune,
    }
}

/// What one character of `t` becomes when `t` is indented one level: a line
/// break in code is followed by a tab; anything else, including a line break
/// inside a raw string literal, stays as it is.
pub open spec fn indent_piece(st: ScanState, c: char) -> Seq<char> {
    if c == '\n' && st == ScanState::Code {
        seq!['\n', '\t']
    } else {
        seq![c]
    }
}

/// `t`, read from scan state `st`, with every following line indented by one
/// more tab.
pub open spec fn indent_from(t: Seq<char>, st: ScanState) -> Seq<char>
    decreases t.len(),
{
    if t.len() == 0 {
        Seq::empty()
    } else {
        indent_piece(st, t[0]) + indent_from(t.drop_first(), scan_next(st, t[0]))
    }
}

/// The text of a nested node placed one level deeper: every line after the
/// first gets one more leading tab (the first line's tab is written by the
/// enclosing list), and the contents of raw string literals are left alone.
pub open spec fn indented(t: Seq<char>) -> Seq<char> {
    indent_from(t, ScanState::Code)
}

/// `x` when `c` holds, nothing otherwise.
pub open spec fn text_if(c: bool, x: Seq<char>) -> Seq<char> {
    if c { x } else { Seq::empty() }
}

/// The names of a list of identifiers, separated by `", "`.
pub open spec fn names_text(ns: Seq<Ident>) -> Seq<char>
    decreases ns.len(),
{
    if ns.len() == 0 {
        Seq::empty()
    } else if ns.len() == 1 {
        ns[0].name@
    } else {
        names_text(ns.drop_last()) + ", "@ + ns.last().name@
    }
}

/// Go precedence level of a binary operator (1 = lowest, 5 = highest).
pub open spec fn spec_precedence(op: BinaryOp) -> u8 {
    match op {
        BinaryOp::LogOr => 1,
        BinaryOp::LogAnd => 2,
        BinaryOp::Eq | BinaryOp::Ne | BinaryOp::Lt | BinaryOp::Le | BinaryOp::Gt
        | BinaryOp::Ge => 3,
        BinaryOp::Add | BinaryOp::Sub | BinaryOp::Or | BinaryOp::Xor => 4,
        BinaryOp::Mul | BinaryOp::Div | BinaryOp::Rem | BinaryOp::And | BinaryOp::AndNot
        | BinaryOp::Shl | BinaryOp::Shr => 5,
    }
}

/// A child of a binary expression is parenthesized when it is itself binary and
/// binds less tightly than the parent, or as tightly on the right side.
pub open spec fn spec_needs_parens(parent: BinaryOp, child: Expr, is_left: bool) -> bool {
    match child {
        Expr::Binary { op, .. } => {
            spec_precedence(op) < spec_precedence(parent) || (spec_precedence(op)
                == spec_precedence(parent) && !is_left)
        },
        _ => false,
    }
}

/// Source text of a binary operator.
pub open spec fn binary_op_text(op: BinaryOp) -> Seq<char> {
    match op {
        BinaryOp::Add => "+"@,
        BinaryOp::Sub => "-"@,
        BinaryOp::Mul => "*"@,
        BinaryOp::Div => "/"@,
        BinaryOp::Rem => "%"@,
        BinaryOp::And => "&"@,
        BinaryOp::Or => "|"@,
        BinaryOp::Xor => "^"@,
        BinaryOp::AndNot => "&^"@,
        BinaryOp::Shl => "<<"@,
        BinaryOp::Shr => ">>"@,
        BinaryOp::LogAnd => "&&"@,
        BinaryOp::LogOr => "||"@,
        BinaryOp::Eq => "=="@,
        BinaryOp::Ne => "!="@,
        BinaryOp::Lt => "<"@,
        BinaryOp::Le => "<="@,
        BinaryOp::Gt => ">"@,
        BinaryOp::Ge => ">="@,
    }
}

/// Source text of a unary operator.
pub open spec fn unary_op_text(op: UnaryOp) -> Seq<char> {
    match op {
        UnaryOp::Not => "!"@,
        UnaryOp::Neg => "-"@,
        UnaryOp::Pos => "+"@,
        UnaryOp::Deref => "*"@,
        UnaryOp::Addr => "&"@,
        UnaryOp::Recv => "<-"@,
        UnaryOp::BitNot => "^"@,
    }
}

/// Source text of an assignment operator.
pub open spec fn assign_op_text(op: AssignOp) -> Seq<char> {
    match op {
        AssignOp::Assign => "="@,
        AssignOp::AddAssign => "+="@,
        AssignOp::SubAssign => "-="@,
        AssignOp::MulAssign => "*="@,
        AssignOp::DivAssign => "/="@,
        AssignOp::RemAssign => "%="@,
        AssignOp::AndAssign => "&="@,
        AssignOp::OrAssign => "|="@,
        AssignOp::XorAssign => "^="@,
        AssignOp::AndNotAssign => "&^="@,
        AssignOp::ShlAssign => "<<="@,
        AssignOp::ShrAssign => ">>="@,
    }
}

/// Source text of an optional struct tag, with its leading space.
pub open spec fn tag_text(tag: Option<StringLit>) -> Seq<char> {
    match tag {
        Some(t) => " "@ + t.raw@,
        None => Seq::empty(),
    }
}

/// Source text of a type expression.
pub open spec fn type_text(t: TypeExpr) -> Seq<char>
    decreases t, 0int,
{
    match t {
        TypeExpr::Named(id) => id.name@,
        TypeExpr::Qualified { package, name } => package.name@ + "."@ + name.name@,
        TypeExpr::Pointer(inner) => "*"@ + type_text(*inner),
        TypeExpr::Array { len, elem } => "["@ + expr_text(*len) + "]"@ + type_text(*elem),
        TypeExpr::Slice(elem) => "[]"@ + type_text(*elem),
        TypeExpr::MapType { key, value } => "map["@ + type_text(*key) + "]"@ + type_text(*value),
        TypeExpr::Channel { direction, elem } => match direction {
            ChanDir::Both => "chan "@ + type_text(*elem),
            ChanDir::Recv => "<-chan "@ + type_text(*elem),
            ChanDir::Send => "chan<- "@ + type_text(*elem),
        },
        TypeExpr::Func(ft) => func_type_text(ft),
        TypeExpr::Interface(it) => interface_text(it),
        TypeExpr::Struct(st) => struct_text(st),
        TypeExpr::Generic { base, args } => type_text(*base) + "["@ + types_text(args@) + "]"@,
    }
}

/// Type expressions separated by `", "`.
pub open spec fn types_text(ts: Seq<TypeExpr>) -> Seq<char>
    decreases ts, 0int,
{
    if ts.len() == 0 {
        Seq::empty()
    } else if ts.len() == 1 {
        type_text(ts[0])
    } else {
        types_text(ts.drop_last()) + ", "@ + type_text(ts.last())
    }
}

/// Source text of a function type: `func[T any](params) results`.
pub open spec fn func_type_text(ft: FuncType) -> Seq<char>
    decreases ft, 0int,
{
    "func"@ + text_if(ft.type_params@.len() != 0, "["@ + type_params_text(ft.type_params@) + "]"@)
        + "("@ + params_text(ft.params@) + ")"@ + results_text(ft.results@)
}

/// Type parameter groups, each `names constraint`, separated by `", "`.
pub open spec fn type_params_text(tps: Seq<TypeParam>) -> Seq<char>
    decreases tps, 0int,
{
    if tps.len() == 0 {
        Seq::empty()
    } else if tps.len() == 1 {
        names_text(tps[0].names@) + " "@ + type_text(tps[0].constraint)
    } else {
        type_params_text(tps.drop_last()) + ", "@ + names_text(tps.last().names@) + " "@
            + type_text(tps.last().constraint)
    }
}

/// One parameter declaration: names, then `...` when variadic, then the type.
pub open spec fn param_text(p: ParamDecl) -> Seq<char>
    decreases p, 0int,
{
    text_if(p.names@.len() != 0, names_text(p.names@) + " "@) + text_if(p.variadic, "..."@)
        + type_text(p.ty)
}

/// Parameter declarations separated by `", "`.
pub open spec fn params_text(ps: Seq<ParamDecl>) -> Seq<char>
    decreases ps, 0int,
{
    if ps.len() == 0 {
        Seq::empty()
    } else if ps.len() == 1 {
        param_text(ps[0])
    } else {
        params_text(ps.drop_last()) + ", "@ + param_text(ps.last())
    }
}

/// The result list of a signature: nothing, ` T` for one unnamed result, or ` (params)`.
pub open spec fn results_text(rs: Seq<ParamDecl>) -> Seq<char>
    decreases rs, 1int,
{
    if rs.len() == 0 {
        Seq::empty()
    } else if rs.len() == 1 && rs[0].names@.len() == 0 {
        " "@ + type_text(rs[0].ty)
    } else {
        " ("@ + params_text(rs) + ")"@
    }
}

/// Source text of a struct type: `struct{}` or one field per line.
pub open spec fn struct_text(st: StructType) -> Seq<char>
    decreases st, 0int,
{
    if st.fields@.len() == 0 {
        "struct{}"@
    } else {
        "struct {\n"@ + fields_text(st.fields@) + "}"@
    }
}

/// Field declarations, each on its own line, indented one level.
pub open spec fn fields_text(fs: Seq<FieldDecl>) -> Seq<char>
    decreases fs, 0int,
{
    if fs.len() == 0 {
        Seq::empty()
    } else {
        fields_text(fs.drop_last()) + "\t"@ + indented(field_text(fs.last())) + "\n"@
    }
}

/// One field declaration.
pub open spec fn field_text(f: FieldDecl) -> Seq<char>
    decreases f, 0int,
{
    match f {
        FieldDecl::Named { names, ty, tag, .. } => names_text(names@) + " "@ + type_text(ty)
            + tag_text(tag),
        FieldDecl::Embedded { ty, tag, .. } => type_text(ty) + tag_text(tag),
    }
}

/// Source text of an interface type: `interface{}` or one element per line.
pub open spec fn interface_text(it: InterfaceType) -> Seq<char>
    decreases it, 0int,
{
    if it.elements@.len() == 0 {
        "interface{}"@
    } else {
        "interface {\n"@ + elems_text(it.elements@) + "}"@
    }
}

/// Interface elements, each on its own line, indented one level.
pub open spec fn elems_text(es: Seq<InterfaceElem>) -> Seq<char>
    decreases es, 0int,
{
    if es.len() == 0 {
        Seq::empty()
    } else {
        elems_text(es.drop_last()) + "\t"@ + indented(elem_text(es.last())) + "\n"@
    }
}

/// One interface element.
pub open spec fn elem_text(e: InterfaceElem) -> Seq<char>
    decreases e, 0int,
{
    match e {
        InterfaceElem::Method { name, ty, .. } => name.name@ + "("@ + params_text(ty.params@)
            + ")"@ + results_text(ty.results@),
        InterfaceElem::TypeTerm(tt) => terms_text(tt.terms@),
        InterfaceElem::Embedded(ty) => type_text(ty),
    }
}

/// Constraint union terms separated by `" | "`, each with `~` when marked.
pub open spec fn terms_text(ts: Seq<TypeTermElem>) -> Seq<char>
    decreases ts, 0int,
{
    if ts.len() == 0 {
        Seq::empty()
    } else if ts.len() == 1 {
        text_if(ts[0].tilde, "~"@) + type_text(ts[0].ty)
    } else {
        terms_text(ts.drop_last()) + " | "@ + text_if(ts.last().tilde, "~"@) + type_text(
            ts.last().ty,
        )
    }
}

/// A child of a binary expression, parenthesized where precedence asks for it.
pub open spec fn operand_text(child: Expr, parent: BinaryOp, is_left: bool) -> Seq<char>
    decreases child, 1int,
{
    if spec_needs_parens(parent, child, is_left) {
        "("@ + expr_text(child) + ")"@
    } else {
        expr_text(child)
    }
}

/// Source text of an optional expression (empty when absent).
pub open spec fn opt_expr_text(e: Option<Box<Expr>>) -> Seq<char>
    decreases e, 0int,
{
    match e {
        Some(x) => expr_text(*x),
        None => Seq::empty(),
    }
}

/// Source text of an expression.
pub open spec fn expr_text(e: Expr) -> Seq<char>
    decreases e, 0int,
{
    match e {
        Expr::Ident(id) => id.name@,
        Expr::Qualified { package, name, .. } => package.name@ + "."@ + name.name@,
        Expr::Int(lit) => lit.raw@,
        Expr::Float(lit) => lit.raw@,
        Expr::Imaginary(lit) => lit.raw@,
        Expr::Rune(lit) => lit.raw@,
        Expr::String(lit) => lit.raw@,
        Expr::RawString(lit) => lit.raw@,
        Expr::True(_) => "true"@,
        Expr::False(_) => "false"@,
        Expr::Nil(_) => "nil"@,
        Expr::Iota(_) => "iota"@,
        Expr::Paren(inner, _) => "("@ + expr_text(*inner) + ")"@,
        Expr::Composite { ty, elems, .. } => if elems@.len() == 0 {
            type_text(*ty) + "{}"@
        } else {
            type_text(*ty) + "{"@ + keyed_text(elems@) + "}"@
        },
        Expr::FuncLit { ty, body, .. } => func_type_text(ty) + " "@ + block_text(body),
        Expr::Call { func, type_args, args, ellipsis, .. } => expr_text(*func) + text_if(
            type_args@.len() != 0,
            "["@ + types_text(type_args@) + "]"@,
        ) + "("@ + exprs_text(args@) + text_if(ellipsis, "..."@) + ")"@,
        Expr::Selector { operand, field, .. } => expr_text(*operand) + "."@ + field.name@,
        Expr::Index { operand, index, .. } => expr_text(*operand) + "["@ + expr_text(*index)
            + "]"@,
        Expr::Slice { operand, low, high, max, .. } => expr_text(*operand) + "["@
            + opt_expr_text(low) + ":"@ + opt_expr_text(high) + text_if(
            max is Some,
            ":"@ + opt_expr_text(max),
        ) + "]"@,
        Expr::TypeAssert { operand, ty, .. } => expr_text(*operand) + ".("@ + type_text(*ty)
            + ")"@,
        Expr::Unary { op, operand, .. } => unary_op_text(op) + expr_text(*operand),
        Expr::Binary { op, left, right, .. } => operand_text(*left, op, true) + " "@
            + binary_op_text(op) + " "@ + operand_text(*right, op, false),
    }
}

/// Expressions separated by `", "`.
pub open spec fn exprs_text(es: Seq<Expr>) -> Seq<char>
    decreases es, 0int,
{
    if es.len() == 0 {
        Seq::empty()
    } else if es.len() == 1 {
        expr_text(es[0])
    } else {
        exprs_text(es.drop_last()) + ", "@ + expr_text(es.last())
    }
}

/// One composite-literal element: `key: value` or `value`.
pub open spec fn keyed_elem_text(k: KeyedElem) -> Seq<char>
    decreases k, 0int,
{
    match k.key {
        Some(key) => expr_text(key) + ": "@ + expr_text(k.value),
        None => expr_text(k.value),
    }
}

/// Composite-literal elements separated by `", "`.
pub open spec fn keyed_text(ks: Seq<KeyedElem>) -> Seq<char>
    decreases ks, 0int,
{
    if ks.len() == 0 {
        Seq::empty()
    } else if ks.len() == 1 {
        keyed_elem_text(ks[0])
    } else {
        keyed_text(ks.drop_last()) + ", "@ + keyed_elem_text(ks.last())
    }
}

/// Statements, each on its own line, indented one level: a nested
/// statement's inner lines get one more tab.
pub open spec fn stmt_lines(ss: Seq<Stmt>) -> Seq<char>
    decreases ss, 0int,
{
    if ss.len() == 0 {
        Seq::empty()
    } else {
        stmt_lines(ss.drop_last()) + "\t"@ + indented(stmt_text(ss.last())) + "\n"@
    }
}

/// Source text of a block: `{}` or one statement per line.
pub open spec fn block_text(b: Block) -> Seq<char>
    decreases b, 0int,
{
    if b.stmts@.len() == 0 {
        "{}"@
    } else {
        "{\n"@ + stmt_lines(b.stmts@) + "}"@
    }
}

/// Source text of an optional statement followed by `"; "` (empty when absent).
pub open spec fn init_text(init: Option<Box<Stmt>>) -> Seq<char>
    decreases init, 0int,
{
    match init {
        Some(s) => stmt_text(*s) + "; "@,
        None => Seq::empty(),
    }
}

/// The clauses of an expression switch.
pub open spec fn expr_cases_text(cs: Seq<ExprCase>) -> Seq<char>
    decreases cs, 0int,
{
    if cs.len() == 0 {
        Seq::empty()
    } else {
        expr_cases_text(cs.drop_last()) + expr_case_text(cs.last())
    }
}

/// One expression-switch clause with its body.
pub open spec fn expr_case_text(c: ExprCase) -> Seq<char>
    decreases c, 0int,
{
    if c.exprs@.len() == 0 {
        "default:\n"@ + stmt_lines(c.body@)
    } else {
        "case "@ + exprs_text(c.exprs@) + ":\n"@ + stmt_lines(c.body@)
    }
}

/// The clauses of a type switch.
pub open spec fn type_cases_text(cs: Seq<TypeCase>) -> Seq<char>
    decreases cs, 0int,
{
    if cs.len() == 0 {
        Seq::empty()
    } else {
        type_cases_text(cs.drop_last()) + type_case_text(cs.last())
    }
}

/// One type-switch clause with its body.
pub open spec fn type_case_text(c: TypeCase) -> Seq<char>
    decreases c, 0int,
{
    if c.types@.len() == 0 {
        "default:\n"@ + stmt_lines(c.body@)
    } else {
        "case "@ + types_text(c.types@) + ":\n"@ + stmt_lines(c.body@)
    }
}

/// The clauses of a select statement.
pub open spec fn comm_cases_text(cs: Seq<CommCase>) -> Seq<char>
    decreases cs, 0int,
{
    if cs.len() == 0 {
        Seq::empty()
    } else {
        comm_cases_text(cs.drop_last()) + comm_case_text(cs.last())
    }
}

/// One select clause: a send, a receive (assigned or bare), or the default.
pub open spec fn comm_case_text(c: CommCase) -> Seq<char>
    decreases c, 0int,
{
    match c {
        CommCase::Send { stmt, body, .. } => "case "@ + stmt_text(*stmt) + ":\n"@ + stmt_lines(
            body@,
        ),
        CommCase::Recv { stmt, recv_expr, body, .. } => match stmt {
            Some(s) => "case "@ + stmt_text(*s) + ":\n"@ + stmt_lines(body@),
            None => match recv_expr {
                Some(r) => "case "@ + expr_text(*r) + ":\n"@ + stmt_lines(body@),
                None => "case:\n"@ + stmt_lines(body@),
            },
        },
        CommCase::Default { body, .. } => "default:\n"@ + stmt_lines(body@),
    }
}

/// The header of a C-style `for` loop after the keyword (empty for other statements).
pub open spec fn for_clause_text(s: Stmt) -> Seq<char>
    decreases s, 0int,
{
    match s {
        Stmt::For { init, cond, post, .. } => if init is Some || post is Some {
            (match init {
                Some(i) => stmt_text(*i),
                None => Seq::empty(),
            }) + "; "@ + (match cond {
                Some(c) => expr_text(c),
                None => Seq::empty(),
            }) + "; "@ + (match post {
                Some(p) => stmt_text(*p) + " "@,
                None => Seq::empty(),
            })
        } else {
            match cond {
                Some(c) => expr_text(c) + " "@,
                None => Seq::empty(),
            }
        },
        _ => Seq::empty(),
    }
}

/// The variables of a range loop, e.g. `k, v := ` (empty when there are none).
pub open spec fn range_vars_text(s: Stmt) -> Seq<char>
    decreases s, 0int,
{
    match s {
        Stmt::ForRange { key, value, assign, .. } => if key is Some || value is Some {
            (match key {
                Some(k) => expr_text(k),
                None => "_"@,
            }) + (match value {
                Some(v) => ", "@ + expr_text(v),
                None => Seq::empty(),
            }) + (match assign {
                RangeAssign::Assign => " = "@,
                _ => " := "@,
            })
        } else {
            Seq::empty()
        },
        _ => Seq::empty(),
    }
}

/// Source text of an optional label after a branch keyword.
pub open spec fn label_text(kw: Seq<char>, label: Option<Ident>) -> Seq<char> {
    match label {
        Some(l) => kw + " "@ + l.name@,
        None => kw,
    }
}

/// Source text of a statement.
pub open spec fn stmt_text(s: Stmt) -> Seq<char>
    decreases s, 1int,
{
    match s {
        Stmt::Empty(_) => Seq::empty(),
        Stmt::Block(b) => block_text(b),
        Stmt::Expr(e, _) => expr_text(e),
        Stmt::Assign { lhs, op, rhs, .. } => exprs_text(lhs@) + " "@ + assign_op_text(op) + " "@
            + exprs_text(rhs@),
        Stmt::ShortVarDecl { names, values, .. } => names_text(names@) + " := "@ + exprs_text(
            values@,
        ),
        Stmt::VarDecl(vs, _) => var_group_text(vs@),
        Stmt::ConstDecl(cs, _) => const_group_text(cs@),
        Stmt::Inc(e, _) => expr_text(e) + "++"@,
        Stmt::Dec(e, _) => expr_text(e) + "--"@,
        Stmt::Send { channel, value, .. } => expr_text(channel) + " <- "@ + expr_text(value),
        Stmt::Return { values, .. } => if values@.len() == 0 {
            "return"@
        } else {
            "return "@ + exprs_text(values@)
        },
        Stmt::If { init, cond, body, else_, .. } => "if "@ + init_text(init) + expr_text(cond)
            + " "@ + block_text(body) + match else_ {
            Some(e) => " else "@ + stmt_text(*e),
            None => Seq::empty(),
        },
        Stmt::For { init, cond, post, body, .. } => "for "@ + for_clause_text(s) + block_text(body),
        Stmt::ForRange { key, value, assign, iterable, body, .. } => "for "@ + range_vars_text(s) + "range "@ + expr_text(*iterable) + " "@ + block_text(body),
        Stmt::Switch { init, tag, cases, .. } => "switch "@ + init_text(init) + match tag {
            Some(t) => expr_text(t) + " "@,
            None => Seq::empty(),
        } + "{\n"@ + expr_cases_text(cases@) + "}"@,
        Stmt::TypeSwitch { init, assign, cases, .. } => "switch "@ + init_text(init)
            + match assign.name {
            Some(n) => n.name@ + " := "@,
            None => Seq::empty(),
        } + expr_text(assign.expr) + ".(type) {\n"@ + type_cases_text(cases@) + "}"@,
        Stmt::Select { cases, .. } => "select {\n"@ + comm_cases_text(cases@) + "}"@,
        Stmt::Go(e, _) => "go "@ + expr_text(e),
        Stmt::Defer(e, _) => "defer "@ + expr_text(e),
        Stmt::Break(label, _) => label_text("break"@, label),
        Stmt::Continue(label, _) => label_text("continue"@, label),
        Stmt::Goto(label, _) => "goto "@ + label.name@,
        Stmt::Fallthrough(_) => "fallthrough"@,
        Stmt::Labeled { label, body, .. } => label.name@ + ":\n"@ + stmt_text(*body),
        Stmt::TypeDecl(ts, _) => type_group_text(ts@),
    }
}

/// Source text of a `var` declaration: `var spec` for one specification,
/// and a parenthesized list with one indented specification per line
/// otherwise (so for `const` and `type` too).
pub open spec fn var_group_text(vs: Seq<VarSpec>) -> Seq<char>
    decreases vs, 1int,
{
    if vs.len() == 1 {
        "var "@ + var_spec_text(vs[0])
    } else {
        "var (\n"@ + var_spec_lines(vs) + ")"@
    }
}

/// One `var` specification per line, each indented by a tab.
pub open spec fn var_spec_lines(vs: Seq<VarSpec>) -> Seq<char>
    decreases vs, 0int,
{
    if vs.len() == 0 {
        Seq::empty()
    } else {
        var_spec_lines(vs.drop_last()) + "\t"@ + indented(var_spec_text(vs.last())) + "\n"@
    }
}

/// Source text of a `const` declaration.
pub open spec fn const_group_text(cs: Seq<ConstSpec>) -> Seq<char>
    decreases cs, 1int,
{
    if cs.len() == 1 {
        "const "@ + const_spec_text(cs[0])
    } else {
        "const (\n"@ + const_spec_lines(cs) + ")"@
    }
}

/// One `const` specification per line, each indented by a tab.
pub open spec fn const_spec_lines(cs: Seq<ConstSpec>) -> Seq<char>
    decreases cs, 0int,
{
    if cs.len() == 0 {
        Seq::empty()
    } else {
        const_spec_lines(cs.drop_last()) + "\t"@ + indented(const_spec_text(cs.last())) + "\n"@
    }
}

/// Source text of a `type` declaration.
pub open spec fn type_group_text(ts: Seq<TypeSpec>) -> Seq<char>
    decreases ts, 1int,
{
    if ts.len() == 1 {
        "type "@ + type_spec_inner_text(ts[0])
    } else {
        "type (\n"@ + type_spec_lines(ts) + ")"@
    }
}

/// One type specification per line, each indented by a tab.
pub open spec fn type_spec_lines(ts: Seq<TypeSpec>) -> Seq<char>
    decreases ts, 0int,
{
    if ts.len() == 0 {
        Seq::empty()
    } else {
        type_spec_lines(ts.drop_last()) + "\t"@ + indented(type_spec_inner_text(ts.last())) + "\n"@
    }
}

/// Source text of a `var` specification, without the keyword.
pub open spec fn var_spec_text(vs: VarSpec) -> Seq<char>
    decreases vs, 0int,
{
    names_text(vs.names@) + match vs.ty {
        Some(t) => " "@ + type_text(t),
        None => Seq::empty(),
    } + text_if(vs.values@.len() != 0, " = "@ + exprs_text(vs.values@))
}

/// Source text of a `const` specification, without the keyword.
pub open spec fn const_spec_text(cs: ConstSpec) -> Seq<char>
    decreases cs, 0int,
{
    names_text(cs.names@) + match cs.ty {
        Some(t) => " "@ + type_text(t),
        None => Seq::empty(),
    } + text_if(cs.values@.len() != 0, " = "@ + exprs_text(cs.values@))
}

/// A type specification without the `type` keyword.
pub open spec fn type_spec_inner_text(t: TypeSpec) -> Seq<char>
    decreases t, 0int,
{
    match t {
        TypeSpec::Alias { name, type_params, ty, .. } => name.name@ + text_if(
            type_params@.len() != 0,
            "["@ + type_params_text(type_params@) + "]"@,
        ) + " = "@ + type_text(ty),
        TypeSpec::Def { name, type_params, ty, .. } => name.name@ + text_if(
            type_params@.len() != 0,
            "["@ + type_params_text(type_params@) + "]"@,
        ) + " "@ + type_text(ty),
    }
}

/// The signature part shared by functions and methods: type parameters,
/// parameters and results, after the name.
pub open spec fn signature_text(ft: FuncType) -> Seq<char> {
    text_if(ft.type_params@.len() != 0, "["@ + type_params_text(ft.type_params@) + "]"@) + "("@
        + params_text(ft.params@) + ")"@ + results_text(ft.results@)
}

/// An optional body after a signature, with its leading space.
pub open spec fn body_text(body: Option<Block>) -> Seq<char> {
    match body {
        Some(b) => " "@ + block_text(b),
        None => Seq::empty(),
    }
}

/// Source text of a function declaration.
pub open spec fn func_decl_text(f: FuncDecl) -> Seq<char> {
    "func "@ + f.name.name@ + signature_text(f.ty) + body_text(f.body)
}

/// Source text of a method receiver inside its parentheses.
pub open spec fn receiver_text(m: MethodDecl) -> Seq<char> {
    (match m.receiver.name {
        Some(n) => n.name@ + " "@,
        None => Seq::empty(),
    }) + type_text(m.receiver.ty)
}

/// Source text of a method declaration.
pub open spec fn method_decl_text(m: MethodDecl) -> Seq<char> {
    "func ("@ + receiver_text(m) + ") "@ + m.name.name@ + signature_text(m.ty) + body_text(
        m.body,
    )
}


/// Printing a field keeps its tag: the text of a tagged field is the text of
/// the same field without the tag, then a space and the tag's raw text.
pub proof fn law_field_keeps_tag(f: FieldDecl, t: StringLit)
    ensures
        match f {
            FieldDecl::Named { names, ty, span, .. } => field_text(
                FieldDecl::Named { names, ty, tag: Some(t), span },
            ) == field_text(FieldDecl::Named { names, ty, tag: None, span }) + " "@ + t.raw@,
            FieldDecl::Embedded { ty, span, .. } => field_text(FieldDecl::Embedded { ty, tag: Some(t), span })
                == field_text(FieldDecl::Embedded { ty, tag: None, span }) + " "@ + t.raw@,
        },
{
    match f {
        FieldDecl::Named { names, ty, span, .. } => {
            let base = names_text(names@) + " "@ + type_text(ty);
            assert(base + Seq::<char>::empty() =~= base);
            assert(base + (" "@ + t.raw@) =~= base + " "@ + t.raw@);
        },
        FieldDecl::Embedded { ty, span, .. } => {
            let base = type_text(ty);
            assert(base + Seq::<char>::empty() =~= base);
            assert(base + (" "@ + t.raw@) =~= base + " "@ + t.raw@);
        },
    }
}

} // verus!
