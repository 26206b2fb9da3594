//! Conversion of the concrete syntax tree of a Go file into the library's
//! syntax tree. Each kind of node has a spec function saying when it converts
//! (`*_ok`) and a relation saying what it converts to (`*_rel`); the walk
//! functions meet both.

use vstd::prelude::*;
use vstd::utf8::encode_utf8;
use vstd::string::StringSliceAdditionalSpecFns;

use crate::ast::{
    AssignOp, BinaryOp, Block, ChanDir, CommCase, ConstSpec, Expr, ExprCase, FieldDecl, FuncDecl,
    FuncType, ImportAlias, ImportSpec, InterfaceElem, InterfaceType, KeyedElem, MethodDecl, ParamDecl,
    RangeAssign, Receiver, SourceFile, Stmt, StructType, TopLevelDecl, TypeCase, TypeExpr, TypeParam,
    TypeSpec, TypeSwitchAssign, TypeTerm, TypeTermElem, UnaryOp, VarSpec,
};
use crate::cst::{
    CstNode, has_error_node, tree_has_error, count_plain, field_at, field_child, fills, fills_field, first_plain, first_plain_child,
    go_cst, is_plain, kind_is, lemma_field_from_bounds, lemma_plain_from_bounds, node_text, parse_go_cst,
    plain, plain_count, plain_from, text_of,
};
use crate::leaf::{FloatLit, Ident, ImaginaryLit, IntLit, RawStringLit, RuneLit, StringLit};
use crate::printer::Printer;
use crate::printer_spec::{assign_op_text, binary_op_text, type_text, unary_op_text};
use crate::span::Span;

verus! {

/// Why a syntax tree could not be converted.
#[derive(Debug)]
pub enum WalkError {
    /// A node of a kind that cannot stand where it stands.
    UnexpectedNode { kind: String },
    /// A part that the conversion needs is missing.
    MissingField { field: String },
    /// The tree does not have the shape of Go's grammar.
    Parse,
}

/// A conversion error as plain values.
pub enum WalkErrorV {
    UnexpectedNode(Seq<char>),
    MissingField(Seq<char>),
    Parse,
}

impl WalkError {
    pub open spec fn view(&self) -> WalkErrorV {
        match self {
            WalkError::UnexpectedNode { kind } => WalkErrorV::UnexpectedNode(kind@),
            WalkError::MissingField { field } => WalkErrorV::MissingField(field@),
            WalkError::Parse => WalkErrorV::Parse,
        }
    }

    /// The error as text.
    pub fn message(&self) -> (s: String)
        ensures
            s@ == walk_error_text(self.view()),
    {
        match self {
            WalkError::UnexpectedNode { kind } => {
                let mut s = "unexpected node: ".to_string();
                s.append(kind.as_str());
                s
            },
            WalkError::MissingField { field } => {
                let mut s = "missing required field: ".to_string();
                s.append(field.as_str());
                s
            },
            WalkError::Parse => "tree-sitter parse error".to_string(),
        }
    }
}

/// The text of a conversion error.
pub open spec fn walk_error_text(e: WalkErrorV) -> Seq<char> {
    match e {
        WalkErrorV::UnexpectedNode(k) => "unexpected node: "@ + k,
        WalkErrorV::MissingField(f) => "missing required field: "@ + f,
        WalkErrorV::Parse => "tree-sitter parse error"@,
    }
}

/// An identifier for the node: its text and span.
pub open spec fn ident_rel(id: Ident, n: CstNode, src: Seq<u8>) -> bool {
    id.name@ == text_of(n, src) && id.span == n.span
}

/// The child at index `j`, when there is one.
pub open spec fn has_child(n: CstNode, j: int) -> bool {
    0 <= j < n.children@.len()
}

/// The kinds of nodes that convert to types.
pub open spec fn is_type_kind(k: Seq<char>) -> bool {
    k == "type_identifier"@ || k == "qualified_type"@ || k == "pointer_type"@ || k == "array_type"@
        || k == "implicit_length_array_type"@ || k == "slice_type"@ || k == "map_type"@ || k
        == "channel_type"@ || k == "struct_type"@ || k == "interface_type"@ || k == "function_type"@ || k
        == "generic_type"@ || k == "negated_type"@ || k == "parenthesized_type"@
}

/// The kinds of simple statements.
pub open spec fn is_simple_kind(k: Seq<char>) -> bool {
    k == "assignment_statement"@ || k == "short_var_declaration"@ || k == "inc_statement"@ || k
        == "dec_statement"@ || k == "send_statement"@ || k == "expression_statement"@
}

/// The direction of a channel type written at `start`: `<-chan` receives,
/// `chan<-` or `chan <-` sends.
pub open spec fn chan_dir(src: Seq<u8>, start: int) -> ChanDir {
    if starts_at(src, start, "<-chan"@) {
        ChanDir::Recv
    } else if starts_at(src, start, "chan<-"@) || starts_at(src, start, "chan <-"@) {
        ChanDir::Send
    } else {
        ChanDir::Both
    }
}

/// Whether the bytes of `src` at `start` are the ASCII characters `pat`.
pub open spec fn starts_at(src: Seq<u8>, start: int, pat: Seq<char>) -> bool {
    0 <= start && start + pat.len() <= src.len() && forall|k: int|
        0 <= k < pat.len() ==> src[start + k] as u32 == #[trigger] pat[k] as u32
}

/// Whether `:=` occurs in `src[from..to]`.
pub open spec fn has_define(src: Seq<u8>, from: int, to: int) -> bool {
    exists|k: int| from <= k && k + 1 < to && k + 1 < src.len() && #[trigger] src[k] == 0x3A && src[k + 1] == 0x3D
}

/// The unary operator of an operator token.
pub open spec fn unary_op(k: Seq<char>) -> Option<UnaryOp> {
    if k == "!"@ { Some(UnaryOp::Not) }
    else if k == "-"@ { Some(UnaryOp::Neg) }
    else if k == "+"@ { Some(UnaryOp::Pos) }
    else if k == "*"@ { Some(UnaryOp::Deref) }
    else if k == "&"@ { Some(UnaryOp::Addr) }
    else if k == "<-"@ { Some(UnaryOp::Recv) }
    else if k == "^"@ { Some(UnaryOp::BitNot) }
    else { None }
}

/// The binary operator of an operator token.
pub open spec fn binary_op(k: Seq<char>) -> Option<BinaryOp> {
    if k == "+"@ { Some(BinaryOp::Add) }
    else if k == "-"@ { Some(BinaryOp::Sub) }
    else if k == "*"@ { Some(BinaryOp::Mul) }
    else if k == "/"@ { Some(BinaryOp::Div) }
    else if k == "%"@ { Some(BinaryOp::Rem) }
    else if k == "&"@ { Some(BinaryOp::And) }
    else if k == "|"@ { Some(BinaryOp::Or) }
    else if k == "^"@ { Some(BinaryOp::Xor) }
    else if k == "&^"@ { Some(BinaryOp::AndNot) }
    else if k == "<<"@ { Some(BinaryOp::Shl) }
    else if k == ">>"@ { Some(BinaryOp::Shr) }
    else if k == "&&"@ { Some(BinaryOp::LogAnd) }
    else if k == "||"@ { Some(BinaryOp::LogOr) }
    else if k == "=="@ { Some(BinaryOp::Eq) }
    else if k == "!="@ { Some(BinaryOp::Ne) }
    else if k == "<"@ { Some(BinaryOp::Lt) }
    else if k == "<="@ { Some(BinaryOp::Le) }
    else if k == ">"@ { Some(BinaryOp::Gt) }
    else if k == ">="@ { Some(BinaryOp::Ge) }
    else { None }
}

/// The assignment operator of an operator token.
pub open spec fn assign_op(k: Seq<char>) -> Option<AssignOp> {
    if k == "="@ { Some(AssignOp::Assign) }
    else if k == "+="@ { Some(AssignOp::AddAssign) }
    else if k == "-="@ { Some(AssignOp::SubAssign) }
    else if k == "*="@ { Some(AssignOp::MulAssign) }
    else if k == "/="@ { Some(AssignOp::DivAssign) }
    else if k == "%="@ { Some(AssignOp::RemAssign) }
    else if k == "&="@ { Some(AssignOp::AndAssign) }
    else if k == "|="@ { Some(AssignOp::OrAssign) }
    else if k == "^="@ { Some(AssignOp::XorAssign) }
    else if k == "&^="@ { Some(AssignOp::AndNotAssign) }
    else if k == "<<="@ { Some(AssignOp::ShlAssign) }
    else if k == ">>="@ { Some(AssignOp::ShrAssign) }
    else { None }
}

/// Identifiers for the named children from `i` on that fill field `f`.
pub open spec fn names_rel(ids: Seq<Ident>, n: CstNode, f: Seq<char>, i: int, src: Seq<u8>) -> bool
    decreases n.children@.len() - i,
{
    if i < 0 || i >= n.children@.len() {
        ids.len() == 0
    } else if fills(n.children@[i], f) && n.children@[i].named {
        ids.len() > 0 && ident_rel(ids[0], n.children@[i], src) && names_rel(ids.drop_first(), n, f, i + 1, src)
    } else {
        names_rel(ids, n, f, i + 1, src)
    }
}

/// Identifiers for the plain children from `i` on that are `identifier` nodes.
pub open spec fn plain_idents_rel(ids: Seq<Ident>, n: CstNode, i: int, src: Seq<u8>) -> bool
    decreases n.children@.len() - i,
{
    if i < 0 || i >= n.children@.len() {
        ids.len() == 0
    } else if plain(n.children@[i]) && n.children@[i].kind@ == "identifier"@ {
        ids.len() > 0 && ident_rel(ids[0], n.children@[i], src) && plain_idents_rel(ids.drop_first(), n, i + 1, src)
    } else {
        plain_idents_rel(ids, n, i + 1, src)
    }
}

/// A converted type as an expression, as a call's type argument or a
/// conversion's callee: a named type is an identifier, a qualified type a
/// qualified name, any other type an identifier holding its Go text.
pub open spec fn type_as_expr(e: Expr, t: TypeExpr, span: Span) -> bool {
    match t {
        TypeExpr::Named(id) => e == Expr::Ident(id),
        TypeExpr::Qualified { package, name } => e == (Expr::Qualified { package, name, span }),
        _ => e matches Expr::Ident(id) && id.name@ == callee_text(t) && id.span == span,
    }
}

/// The Go text of a type used as the callee of a conversion: pointer,
/// function and channel types are parenthesized, as Go requires of types
/// that start with `*`, `<-` or `func`.
pub open spec fn callee_text(t: TypeExpr) -> Seq<char> {
    if t is Pointer || t is Func || t is Channel {
        "("@ + type_text(t) + ")"@
    } else {
        type_text(t)
    }
}

// ---- Types ----

/// Whether a node converts to a type.
pub open spec fn type_ok(n: CstNode) -> bool
    decreases n, n.children@.len() + 3,
{
    let k = n.kind@;
    let c = n.children@;
    if k == "type_identifier"@ {
        true
    } else if k == "qualified_type"@ {
        has_child(n, field_at(n, "package"@)) && has_child(n, field_at(n, "name"@))
    } else if k == "pointer_type"@ || k == "negated_type"@ || k == "parenthesized_type"@ {
        has_child(n, first_plain(n)) && type_ok(c[first_plain(n)])
    } else if k == "array_type"@ {
        has_child(n, field_at(n, "length"@)) && expr_ok(c[field_at(n, "length"@)]) && has_child(n, field_at(n, "element"@))
            && type_ok(c[field_at(n, "element"@)])
    } else if k == "implicit_length_array_type"@ || k == "slice_type"@ {
        has_child(n, field_at(n, "element"@)) && type_ok(c[field_at(n, "element"@)])
    } else if k == "map_type"@ {
        has_child(n, field_at(n, "key"@)) && type_ok(c[field_at(n, "key"@)]) && has_child(n, field_at(n, "value"@)) && type_ok(
            c[field_at(n, "value"@)],
        )
    } else if k == "channel_type"@ {
        has_child(n, field_at(n, "value"@)) && type_ok(c[field_at(n, "value"@)])
    } else if k == "struct_type"@ {
        has_child(n, first_plain(n)) && fields_ok(c[first_plain(n)], 0)
    } else if k == "interface_type"@ {
        elems_ok(n, 0)
    } else if k == "function_type"@ {
        has_child(n, field_at(n, "parameters"@)) && params_ok(c[field_at(n, "parameters"@)], 0) && result_ok(n)
    } else if k == "generic_type"@ {
        has_child(n, field_at(n, "type"@)) && type_ok(c[field_at(n, "type"@)]) && has_child(n, field_at(n, "type_arguments"@))
            && targs_ok(c[field_at(n, "type_arguments"@)], 0)
    } else {
        false
    }
}

/// The type a node converts to.
pub open spec fn type_rel(t: TypeExpr, n: CstNode, src: Seq<u8>) -> bool
    decreases n, n.children@.len() + 3,
{
    let k = n.kind@;
    let c = n.children@;
    if k == "type_identifier"@ {
        t matches TypeExpr::Named(id) && ident_rel(id, n, src)
    } else if k == "qualified_type"@ {
        t matches TypeExpr::Qualified { package, name } && has_child(n, field_at(n, "package"@)) && ident_rel(
            package,
            c[field_at(n, "package"@)],
            src,
        ) && has_child(n, field_at(n, "name"@)) && ident_rel(name, c[field_at(n, "name"@)], src)
    } else if k == "pointer_type"@ {
        t matches TypeExpr::Pointer(x) && has_child(n, first_plain(n)) && type_rel(*x, c[first_plain(n)], src)
    } else if k == "negated_type"@ || k == "parenthesized_type"@ {
        has_child(n, first_plain(n)) && type_rel(t, c[first_plain(n)], src)
    } else if k == "array_type"@ {
        t matches TypeExpr::Array { len, elem } && has_child(n, field_at(n, "length"@)) && expr_rel(
            *len,
            c[field_at(n, "length"@)],
            src,
        ) && has_child(n, field_at(n, "element"@)) && type_rel(*elem, c[field_at(n, "element"@)], src)
    } else if k == "implicit_length_array_type"@ {
        t matches TypeExpr::Array { len, elem } && *len matches Expr::Ident(id) && id.name@ == "..."@ && id.span
            == n.span && has_child(n, field_at(n, "element"@)) && type_rel(*elem, c[field_at(n, "element"@)], src)
    } else if k == "slice_type"@ {
        t matches TypeExpr::Slice(x) && has_child(n, field_at(n, "element"@)) && type_rel(*x, c[field_at(n, "element"@)], src)
    } else if k == "map_type"@ {
        t matches TypeExpr::MapType { key, value } && has_child(n, field_at(n, "key"@)) && type_rel(
            *key,
            c[field_at(n, "key"@)],
            src,
        ) && has_child(n, field_at(n, "value"@)) && type_rel(*value, c[field_at(n, "value"@)], src)
    } else if k == "channel_type"@ {
        t matches TypeExpr::Channel { direction, elem } && direction == chan_dir(src, n.span.start_byte as int)
            && has_child(n, field_at(n, "value"@)) && type_rel(*elem, c[field_at(n, "value"@)], src)
    } else if k == "struct_type"@ {
        t matches TypeExpr::Struct(s) && s.span == n.span && has_child(n, first_plain(n)) && fields_rel(
            s.fields@,
            c[first_plain(n)],
            0,
            src,
        )
    } else if k == "interface_type"@ {
        t matches TypeExpr::Interface(it) && it.span == n.span && elems_rel(it.elements@, n, 0, src)
    } else if k == "function_type"@ {
        t matches TypeExpr::Func(f) && f.type_params@.len() == 0 && f.span == n.span && has_child(
            n,
            field_at(n, "parameters"@),
        ) && params_rel(f.params@, c[field_at(n, "parameters"@)], 0, src) && result_rel(f.results@, n, src)
    } else if k == "generic_type"@ {
        t matches TypeExpr::Generic { base, args } && has_child(n, field_at(n, "type"@)) && type_rel(
            *base,
            c[field_at(n, "type"@)],
            src,
        ) && has_child(n, field_at(n, "type_arguments"@)) && targs_rel(args@, c[field_at(n, "type_arguments"@)], 0, src)
    } else {
        false
    }
}

/// Whether the field declarations among the plain children from `i` on convert.
pub open spec fn fields_ok(n: CstNode, i: int) -> bool
    decreases n, n.children@.len() - i,
{
    if i < 0 || i >= n.children@.len() {
        true
    } else if plain(n.children@[i]) {
        field_ok(n.children@[i]) && fields_ok(n, i + 1)
    } else {
        fields_ok(n, i + 1)
    }
}

pub open spec fn fields_rel(fs: Seq<FieldDecl>, n: CstNode, i: int, src: Seq<u8>) -> bool
    decreases n, n.children@.len() - i,
{
    if i < 0 || i >= n.children@.len() {
        fs.len() == 0
    } else if plain(n.children@[i]) {
        fs.len() > 0 && field_rel(fs[0], n.children@[i], src) && fields_rel(fs.drop_first(), n, i + 1, src)
    } else {
        fields_rel(fs, n, i + 1, src)
    }
}

/// Whether a field declaration converts.
pub open spec fn field_ok(n: CstNode) -> bool
    decreases n, n.children@.len() + 3,
{
    n.kind@ == "field_declaration"@ && has_child(n, field_at(n, "type"@)) && type_ok(n.children@[field_at(n, "type"@)])
}

/// The field declaration a node converts to, with its tag as written.
pub open spec fn field_rel(f: FieldDecl, n: CstNode, src: Seq<u8>) -> bool
    decreases n, n.children@.len() + 3,
{
    let c = n.children@;
    let tj = field_at(n, "tag"@);
    let tag_ok = |tag: Option<StringLit>|
        if has_child(n, tj) {
            tag matches Some(s) && s.raw@ == text_of(c[tj], src) && s.span == c[tj].span
        } else {
            tag is None
        };
    has_child(n, field_at(n, "type"@)) && if has_child(n, field_at(n, "name"@)) {
        f matches FieldDecl::Named { names, ty, tag, span } && names_rel(names@, n, "name"@, 0, src) && type_rel(
            ty,
            c[field_at(n, "type"@)],
            src,
        ) && tag_ok(tag) && span == n.span
    } else {
        f matches FieldDecl::Embedded { ty, tag, span } && type_rel(ty, c[field_at(n, "type"@)], src) && tag_ok(tag)
            && span == n.span
    }
}

/// Whether the interface elements among the plain children from `i` on convert.
pub open spec fn elems_ok(n: CstNode, i: int) -> bool
    decreases n, n.children@.len() - i,
{
    if i < 0 || i >= n.children@.len() {
        true
    } else if plain(n.children@[i]) {
        elem_ok(n.children@[i]) && elems_ok(n, i + 1)
    } else {
        elems_ok(n, i + 1)
    }
}

pub open spec fn elems_rel(es: Seq<InterfaceElem>, n: CstNode, i: int, src: Seq<u8>) -> bool
    decreases n, n.children@.len() - i,
{
    if i < 0 || i >= n.children@.len() {
        es.len() == 0
    } else if plain(n.children@[i]) {
        es.len() > 0 && elem_rel(es[0], n.children@[i], src) && elems_rel(es.drop_first(), n, i + 1, src)
    } else {
        elems_rel(es, n, i + 1, src)
    }
}

/// Whether an interface element converts: a method, or a type element.
pub open spec fn elem_ok(n: CstNode) -> bool
    decreases n, n.children@.len() + 3,
{
    let c = n.children@;
    if n.kind@ == "method_elem"@ {
        has_child(n, field_at(n, "name"@)) && has_child(n, field_at(n, "parameters"@)) && params_ok(
            c[field_at(n, "parameters"@)],
            0,
        ) && result_ok(n)
    } else if n.kind@ == "type_elem"@ {
        union_ok(n)
    } else {
        false
    }
}

/// The interface element a node converts to: a type element with one type
/// embeds it, one with several is a union of terms.
pub open spec fn elem_rel(e: InterfaceElem, n: CstNode, src: Seq<u8>) -> bool
    decreases n, n.children@.len() + 3,
{
    let c = n.children@;
    if n.kind@ == "method_elem"@ {
        e matches InterfaceElem::Method { name, ty, span } && has_child(n, field_at(n, "name"@)) && ident_rel(
            name,
            c[field_at(n, "name"@)],
            src,
        ) && ty.type_params@.len() == 0 && ty.span == n.span && span == n.span && has_child(
            n,
            field_at(n, "parameters"@),
        ) && params_rel(ty.params@, c[field_at(n, "parameters"@)], 0, src) && result_rel(ty.results@, n, src)
    } else if n.kind@ == "type_elem"@ {
        if plain_count(n, 0) == 1 {
            e matches InterfaceElem::Embedded(t) && has_child(n, first_plain(n)) && type_rel(t, c[first_plain(n)], src)
        } else {
            e matches InterfaceElem::TypeTerm(tt) && tt.span == n.span && terms_rel(tt.terms@, n, 0, src)
        }
    } else {
        false
    }
}

/// Whether the plain children from `i` on convert to types.
pub open spec fn terms_ok(n: CstNode, i: int) -> bool
    decreases n, n.children@.len() - i,
{
    if i < 0 || i >= n.children@.len() {
        true
    } else if plain(n.children@[i]) {
        term_ok(n.children@[i]) && terms_ok(n, i + 1)
    } else {
        terms_ok(n, i + 1)
    }
}

/// Whether a union term converts: `~T` (a negated type) or a type.
pub open spec fn term_ok(n: CstNode) -> bool
    decreases n, n.children@.len() + 4,
{
    if n.kind@ == "negated_type"@ {
        has_child(n, first_plain(n)) && type_ok(n.children@[first_plain(n)])
    } else {
        type_ok(n)
    }
}

/// The union term a node converts to: `~T` sets the tilde.
pub open spec fn term_rel(t: TypeTermElem, n: CstNode, src: Seq<u8>) -> bool
    decreases n, n.children@.len() + 4,
{
    t.span == n.span && t.tilde == (n.kind@ == "negated_type"@) && if n.kind@ == "negated_type"@ {
        has_child(n, first_plain(n)) && type_rel(t.ty, n.children@[first_plain(n)], src)
    } else {
        type_rel(t.ty, n, src)
    }
}

/// Whether the plain children from `i` on convert to types.
pub open spec fn types_ok(n: CstNode, i: int) -> bool
    decreases n, n.children@.len() - i,
{
    if i < 0 || i >= n.children@.len() {
        true
    } else if plain(n.children@[i]) {
        type_ok(n.children@[i]) && types_ok(n, i + 1)
    } else {
        types_ok(n, i + 1)
    }
}

/// Union terms for the plain children from `i` on.
pub open spec fn terms_rel(ts: Seq<TypeTermElem>, n: CstNode, i: int, src: Seq<u8>) -> bool
    decreases n, n.children@.len() - i,
{
    if i < 0 || i >= n.children@.len() {
        ts.len() == 0
    } else if plain(n.children@[i]) {
        ts.len() > 0 && term_rel(ts[0], n.children@[i], src) && terms_rel(ts.drop_first(), n, i + 1, src)
    } else {
        terms_rel(ts, n, i + 1, src)
    }
}

/// Types for the plain children from `i` on.
pub open spec fn types_rel(ts: Seq<TypeExpr>, n: CstNode, i: int, src: Seq<u8>) -> bool
    decreases n, n.children@.len() - i,
{
    if i < 0 || i >= n.children@.len() {
        ts.len() == 0
    } else if plain(n.children@[i]) {
        ts.len() > 0 && type_rel(ts[0], n.children@[i], src) && types_rel(ts.drop_first(), n, i + 1, src)
    } else {
        types_rel(ts, n, i + 1, src)
    }
}

/// Whether a constraint (a node whose plain children are types) converts.
pub open spec fn union_ok(n: CstNode) -> bool
    decreases n, n.children@.len() + 2,
{
    if plain_count(n, 0) == 1 {
        has_child(n, first_plain(n)) && type_ok(n.children@[first_plain(n)])
    } else {
        terms_ok(n, 0)
    }
}

/// The type a constraint (a node whose plain children are types) converts
/// to: its one type, or an interface holding the union of them.
pub open spec fn union_rel(t: TypeExpr, n: CstNode, src: Seq<u8>) -> bool
    decreases n, n.children@.len() + 2,
{
    if plain_count(n, 0) == 1 {
        has_child(n, first_plain(n)) && type_rel(t, n.children@[first_plain(n)], src)
    } else {
        t matches TypeExpr::Interface(it) && it.span == n.span && it.elements@.len() == 1
            && (it.elements@[0] matches InterfaceElem::TypeTerm(tt) && tt.span == n.span && terms_rel(
            tt.terms@,
            n,
            0,
            src,
        ))
    }
}

/// Whether the type arguments from `i` on convert.
pub open spec fn targs_ok(n: CstNode, i: int) -> bool
    decreases n, n.children@.len() - i,
{
    if i < 0 || i >= n.children@.len() {
        true
    } else if plain(n.children@[i]) {
        n.children@[i].kind@ == "type_elem"@ && union_ok(n.children@[i]) && targs_ok(n, i + 1)
    } else {
        targs_ok(n, i + 1)
    }
}

pub open spec fn targs_rel(ts: Seq<TypeExpr>, n: CstNode, i: int, src: Seq<u8>) -> bool
    decreases n, n.children@.len() - i,
{
    if i < 0 || i >= n.children@.len() {
        ts.len() == 0
    } else if plain(n.children@[i]) {
        ts.len() > 0 && union_rel(ts[0], n.children@[i], src) && targs_rel(ts.drop_first(), n, i + 1, src)
    } else {
        targs_rel(ts, n, i + 1, src)
    }
}

/// Whether the parameter declarations from `i` on convert.
pub open spec fn params_ok(n: CstNode, i: int) -> bool
    decreases n, n.children@.len() - i,
{
    if i < 0 || i >= n.children@.len() {
        true
    } else if plain(n.children@[i]) {
        param_ok(n.children@[i]) && params_ok(n, i + 1)
    } else {
        params_ok(n, i + 1)
    }
}

pub open spec fn params_rel(ps: Seq<ParamDecl>, n: CstNode, i: int, src: Seq<u8>) -> bool
    decreases n, n.children@.len() - i,
{
    if i < 0 || i >= n.children@.len() {
        ps.len() == 0
    } else if plain(n.children@[i]) {
        ps.len() > 0 && param_rel(ps[0], n.children@[i], src) && params_rel(ps.drop_first(), n, i + 1, src)
    } else {
        params_rel(ps, n, i + 1, src)
    }
}

/// Whether a parameter declaration converts.
pub open spec fn param_ok(n: CstNode) -> bool
    decreases n, n.children@.len() + 3,
{
    (n.kind@ == "parameter_declaration"@ || n.kind@ == "variadic_parameter_declaration"@) && has_child(
        n,
        field_at(n, "type"@),
    ) && type_ok(n.children@[field_at(n, "type"@)])
}

pub open spec fn param_rel(p: ParamDecl, n: CstNode, src: Seq<u8>) -> bool
    decreases n, n.children@.len() + 3,
{
    names_rel(p.names@, n, "name"@, 0, src) && p.variadic == (n.kind@ == "variadic_parameter_declaration"@)
        && p.span == n.span && has_child(n, field_at(n, "type"@)) && type_rel(p.ty, n.children@[field_at(n, "type"@)], src)
}

/// Whether the `result` of a signature converts (none converts too).
pub open spec fn result_ok(n: CstNode) -> bool
    decreases n, n.children@.len() + 2,
{
    let j = field_at(n, "result"@);
    if !has_child(n, j) {
        true
    } else if n.children@[j].kind@ == "parameter_list"@ {
        params_ok(n.children@[j], 0)
    } else {
        type_ok(n.children@[j])
    }
}

/// The results of a signature: none, a parameter list, or one unnamed type.
pub open spec fn result_rel(ps: Seq<ParamDecl>, n: CstNode, src: Seq<u8>) -> bool
    decreases n, n.children@.len() + 2,
{
    let j = field_at(n, "result"@);
    if !has_child(n, j) {
        ps.len() == 0
    } else if n.children@[j].kind@ == "parameter_list"@ {
        params_rel(ps, n.children@[j], 0, src)
    } else {
        ps.len() == 1 && ps[0].names@.len() == 0 && !ps[0].variadic && ps[0].span == n.children@[j].span && type_rel(
            ps[0].ty,
            n.children@[j],
            src,
        )
    }
}

/// Whether the type parameters of a declaration convert (none convert too).
pub open spec fn tparams_ok(n: CstNode) -> bool
    decreases n, n.children@.len() + 2,
{
    let j = field_at(n, "type_parameters"@);
    !has_child(n, j) || tparam_list_ok(n.children@[j], 0)
}

pub open spec fn tparams_rel(ts: Seq<TypeParam>, n: CstNode, src: Seq<u8>) -> bool
    decreases n, n.children@.len() + 2,
{
    let j = field_at(n, "type_parameters"@);
    if has_child(n, j) {
        tparam_list_rel(ts, n.children@[j], 0, src)
    } else {
        ts.len() == 0
    }
}

pub open spec fn tparam_list_ok(n: CstNode, i: int) -> bool
    decreases n, n.children@.len() - i,
{
    if i < 0 || i >= n.children@.len() {
        true
    } else if plain(n.children@[i]) {
        tparam_ok(n.children@[i]) && tparam_list_ok(n, i + 1)
    } else {
        tparam_list_ok(n, i + 1)
    }
}

pub open spec fn tparam_list_rel(ts: Seq<TypeParam>, n: CstNode, i: int, src: Seq<u8>) -> bool
    decreases n, n.children@.len() - i,
{
    if i < 0 || i >= n.children@.len() {
        ts.len() == 0
    } else if plain(n.children@[i]) {
        ts.len() > 0 && tparam_rel(ts[0], n.children@[i], src) && tparam_list_rel(ts.drop_first(), n, i + 1, src)
    } else {
        tparam_list_rel(ts, n, i + 1, src)
    }
}

/// Whether a type parameter declaration converts.
pub open spec fn tparam_ok(n: CstNode) -> bool
    decreases n, n.children@.len() + 3,
{
    n.kind@ == "type_parameter_declaration"@ && has_child(n, field_at(n, "type"@)) && union_ok(
        n.children@[field_at(n, "type"@)],
    )
}

pub open spec fn tparam_rel(t: TypeParam, n: CstNode, src: Seq<u8>) -> bool
    decreases n, n.children@.len() + 3,
{
    names_rel(t.names@, n, "name"@, 0, src) && t.span == n.span && has_child(n, field_at(n, "type"@)) && union_rel(
        t.constraint,
        n.children@[field_at(n, "type"@)],
        src,
    )
}

// ---- Expressions ----

/// An optional expression for the optional field `f`.
pub open spec fn opt_expr_ok(n: CstNode, f: Seq<char>) -> bool
    decreases n, n.children@.len() + 2,
{
    !has_child(n, field_at(n, f)) || expr_ok(n.children@[field_at(n, f)])
}

pub open spec fn opt_expr_rel(e: Option<Box<Expr>>, n: CstNode, f: Seq<char>, src: Seq<u8>) -> bool
    decreases n, n.children@.len() + 2,
{
    if has_child(n, field_at(n, f)) {
        e matches Some(x) && expr_rel(*x, n.children@[field_at(n, f)], src)
    } else {
        e is None
    }
}

/// Whether a node converts to an expression.
pub open spec fn expr_ok(n: CstNode) -> bool
    decreases n, n.children@.len() + 3,
{
    let k = n.kind@;
    let c = n.children@;
    if k == "identifier"@ || k == "int_literal"@ || k == "float_literal"@ || k == "imaginary_literal"@ || k
        == "rune_literal"@ || k == "interpreted_string_literal"@ || k == "raw_string_literal"@ || k == "true"@ || k
        == "false"@ || k == "nil"@ || k == "iota"@ {
        true
    } else if k == "parenthesized_expression"@ {
        has_child(n, first_plain(n)) && expr_ok(c[first_plain(n)])
    } else if k == "selector_expression"@ {
        has_child(n, field_at(n, "operand"@)) && expr_ok(c[field_at(n, "operand"@)]) && has_child(n, field_at(n, "field"@))
    } else if k == "index_expression"@ {
        has_child(n, field_at(n, "operand"@)) && expr_ok(c[field_at(n, "operand"@)]) && has_child(n, field_at(n, "index"@))
            && expr_ok(c[field_at(n, "index"@)])
    } else if k == "slice_expression"@ {
        has_child(n, field_at(n, "operand"@)) && expr_ok(c[field_at(n, "operand"@)]) && opt_expr_ok(n, "start"@)
            && opt_expr_ok(n, "end"@) && opt_expr_ok(n, "capacity"@)
    } else if k == "call_expression"@ {
        has_child(n, field_at(n, "function"@)) && expr_ok(c[field_at(n, "function"@)]) && (!has_child(
            n,
            field_at(n, "type_arguments"@),
        ) || targs_ok(c[field_at(n, "type_arguments"@)], 0)) && has_child(n, field_at(n, "arguments"@)) && args_ok(
            c[field_at(n, "arguments"@)],
            0,
        )
    } else if k == "type_conversion_expression"@ || k == "type_assertion_expression"@ {
        has_child(n, field_at(n, "type"@)) && type_ok(c[field_at(n, "type"@)]) && has_child(n, field_at(n, "operand"@))
            && expr_ok(c[field_at(n, "operand"@)])
    } else if k == "type_instantiation_expression"@ {
        has_child(n, field_at(n, "type"@)) && type_ok(c[field_at(n, "type"@)]) && types_ok(n, 0)
    } else if k == "unary_expression"@ {
        has_child(n, field_at(n, "operand"@)) && expr_ok(c[field_at(n, "operand"@)]) && has_child(n, field_at(n, "operator"@))
            && unary_op(c[field_at(n, "operator"@)].kind@) is Some
    } else if k == "binary_expression"@ {
        has_child(n, field_at(n, "left"@)) && expr_ok(c[field_at(n, "left"@)]) && has_child(n, field_at(n, "right"@))
            && expr_ok(c[field_at(n, "right"@)]) && has_child(n, field_at(n, "operator"@)) && binary_op(
            c[field_at(n, "operator"@)].kind@,
        ) is Some
    } else if k == "composite_literal"@ {
        has_child(n, field_at(n, "type"@)) && type_ok(c[field_at(n, "type"@)]) && has_child(n, field_at(n, "body"@))
            && litvals_ok(c[field_at(n, "body"@)], 0)
    } else if k == "func_literal"@ {
        has_child(n, field_at(n, "parameters"@)) && params_ok(c[field_at(n, "parameters"@)], 0) && result_ok(n) && has_child(
            n,
            field_at(n, "body"@),
        ) && block_ok(c[field_at(n, "body"@)])
    } else {
        false
    }
}

/// The expression a node converts to.
pub open spec fn expr_rel(e: Expr, n: CstNode, src: Seq<u8>) -> bool
    decreases n, n.children@.len() + 3,
{
    let k = n.kind@;
    let c = n.children@;
    let text = text_of(n, src);
    if k == "identifier"@ {
        e matches Expr::Ident(id) && ident_rel(id, n, src)
    } else if k == "int_literal"@ {
        e matches Expr::Int(l) && l.raw@ == text && l.span == n.span
    } else if k == "float_literal"@ {
        e matches Expr::Float(l) && l.raw@ == text && l.span == n.span
    } else if k == "imaginary_literal"@ {
        e matches Expr::Imaginary(l) && l.raw@ == text && l.span == n.span
    } else if k == "rune_literal"@ {
        e matches Expr::Rune(l) && l.raw@ == text && l.span == n.span
    } else if k == "interpreted_string_literal"@ {
        e matches Expr::String(l) && l.raw@ == text && l.span == n.span
    } else if k == "raw_string_literal"@ {
        e matches Expr::RawString(l) && l.raw@ == text && l.span == n.span
    } else if k == "true"@ {
        e == Expr::True(n.span)
    } else if k == "false"@ {
        e == Expr::False(n.span)
    } else if k == "nil"@ {
        e == Expr::Nil(n.span)
    } else if k == "iota"@ {
        e == Expr::Iota(n.span)
    } else if k == "parenthesized_expression"@ {
        e matches Expr::Paren(x, sp) && sp == n.span && has_child(n, first_plain(n)) && expr_rel(*x, c[first_plain(n)], src)
    } else if k == "selector_expression"@ {
        e matches Expr::Selector { operand, field, span } && span == n.span && has_child(n, field_at(n, "operand"@))
            && expr_rel(*operand, c[field_at(n, "operand"@)], src) && has_child(n, field_at(n, "field"@)) && ident_rel(
            field,
            c[field_at(n, "field"@)],
            src,
        )
    } else if k == "index_expression"@ {
        e matches Expr::Index { operand, index, span } && span == n.span && has_child(n, field_at(n, "operand"@))
            && expr_rel(*operand, c[field_at(n, "operand"@)], src) && has_child(n, field_at(n, "index"@)) && expr_rel(
            *index,
            c[field_at(n, "index"@)],
            src,
        )
    } else if k == "slice_expression"@ {
        e matches Expr::Slice { operand, low, high, max, span } && span == n.span && has_child(n, field_at(n, "operand"@))
            && expr_rel(*operand, c[field_at(n, "operand"@)], src) && opt_expr_rel(low, n, "start"@, src)
            && opt_expr_rel(high, n, "end"@, src) && opt_expr_rel(max, n, "capacity"@, src)
    } else if k == "call_expression"@ {
        e matches Expr::Call { func, type_args, args, ellipsis, span } && span == n.span && has_child(
            n,
            field_at(n, "function"@),
        ) && expr_rel(*func, c[field_at(n, "function"@)], src) && (if has_child(n, field_at(n, "type_arguments"@)) {
            targs_rel(type_args@, c[field_at(n, "type_arguments"@)], 0, src)
        } else {
            type_args@.len() == 0
        }) && has_child(n, field_at(n, "arguments"@)) && args_rel(args@, c[field_at(n, "arguments"@)], 0, src)
            && ellipsis == has_variadic(c[field_at(n, "arguments"@)], 0)
    } else if k == "type_conversion_expression"@ {
        e matches Expr::Call { func, type_args, args, ellipsis, span } && span == n.span && type_args@.len() == 0
            && !ellipsis && has_child(n, field_at(n, "type"@)) && (exists|t: TypeExpr|
            #[trigger] type_as_expr(*func, t, n.span) && type_rel(t, c[field_at(n, "type"@)], src)) && args@.len() == 1
            && has_child(n, field_at(n, "operand"@)) && expr_rel(args@[0], c[field_at(n, "operand"@)], src)
    } else if k == "type_assertion_expression"@ {
        e matches Expr::TypeAssert { operand, ty, span } && span == n.span && has_child(n, field_at(n, "operand"@))
            && expr_rel(*operand, c[field_at(n, "operand"@)], src) && has_child(n, field_at(n, "type"@)) && type_rel(
            *ty,
            c[field_at(n, "type"@)],
            src,
        )
    } else if k == "type_instantiation_expression"@ {
        e matches Expr::Ident(id) && id.span == n.span && has_child(n, field_at(n, "type"@)) && exists|t: TypeExpr|
            #[trigger] callee_text(t) == id.name@ && (t matches TypeExpr::Generic { base, args } && type_rel(
                *base,
                c[field_at(n, "type"@)],
                src,
            ) && types_rel(args@, n, 0, src))
    } else if k == "unary_expression"@ {
        e matches Expr::Unary { op, operand, span } && span == n.span && has_child(n, field_at(n, "operator"@)) && unary_op(
            c[field_at(n, "operator"@)].kind@,
        ) == Some(op) && has_child(n, field_at(n, "operand"@)) && expr_rel(*operand, c[field_at(n, "operand"@)], src)
    } else if k == "binary_expression"@ {
        e matches Expr::Binary { op, left, right, span } && span == n.span && has_child(n, field_at(n, "operator"@))
            && binary_op(c[field_at(n, "operator"@)].kind@) == Some(op) && has_child(n, field_at(n, "left"@)) && expr_rel(
            *left,
            c[field_at(n, "left"@)],
            src,
        ) && has_child(n, field_at(n, "right"@)) && expr_rel(*right, c[field_at(n, "right"@)], src)
    } else if k == "composite_literal"@ {
        e matches Expr::Composite { ty, elems, span } && span == n.span && has_child(n, field_at(n, "type"@)) && type_rel(
            *ty,
            c[field_at(n, "type"@)],
            src,
        ) && has_child(n, field_at(n, "body"@)) && litvals_rel(elems@, c[field_at(n, "body"@)], 0, src)
    } else if k == "func_literal"@ {
        e matches Expr::FuncLit { ty, body, span } && span == n.span && ty.span == n.span && ty.type_params@.len()
            == 0 && has_child(n, field_at(n, "parameters"@)) && params_rel(ty.params@, c[field_at(n, "parameters"@)], 0, src)
            && result_rel(ty.results@, n, src) && has_child(n, field_at(n, "body"@)) && block_rel(
            body,
            c[field_at(n, "body"@)],
            src,
        )
    } else {
        false
    }
}

/// Whether the plain children from `i` on convert to expressions.
pub open spec fn exprs_ok(n: CstNode, i: int) -> bool
    decreases n, n.children@.len() - i,
{
    if i < 0 || i >= n.children@.len() {
        true
    } else if plain(n.children@[i]) {
        expr_ok(n.children@[i]) && exprs_ok(n, i + 1)
    } else {
        exprs_ok(n, i + 1)
    }
}

pub open spec fn exprs_rel(es: Seq<Expr>, n: CstNode, i: int, src: Seq<u8>) -> bool
    decreases n, n.children@.len() - i,
{
    if i < 0 || i >= n.children@.len() {
        es.len() == 0
    } else if plain(n.children@[i]) {
        es.len() > 0 && expr_rel(es[0], n.children@[i], src) && exprs_rel(es.drop_first(), n, i + 1, src)
    } else {
        exprs_rel(es, n, i + 1, src)
    }
}

/// Whether some plain child from `i` on is a variadic argument.
pub open spec fn has_variadic(n: CstNode, i: int) -> bool
    decreases n.children@.len() - i,
{
    if i < 0 || i >= n.children@.len() {
        false
    } else {
        (plain(n.children@[i]) && n.children@[i].kind@ == "variadic_argument"@) || has_variadic(n, i + 1)
    }
}

/// Whether the call arguments from `i` on convert.
pub open spec fn args_ok(n: CstNode, i: int) -> bool
    decreases n, n.children@.len() - i,
{
    if i < 0 || i >= n.children@.len() {
        true
    } else if plain(n.children@[i]) {
        arg_ok(n.children@[i]) && args_ok(n, i + 1)
    } else {
        args_ok(n, i + 1)
    }
}

pub open spec fn args_rel(es: Seq<Expr>, n: CstNode, i: int, src: Seq<u8>) -> bool
    decreases n, n.children@.len() - i,
{
    if i < 0 || i >= n.children@.len() {
        es.len() == 0
    } else if plain(n.children@[i]) {
        es.len() > 0 && arg_rel(es[0], n.children@[i], src) && args_rel(es.drop_first(), n, i + 1, src)
    } else {
        args_rel(es, n, i + 1, src)
    }
}

/// Whether a call argument converts: a variadic argument, a type or an expression.
pub open spec fn arg_ok(n: CstNode) -> bool
    decreases n, n.children@.len() + 4,
{
    if n.kind@ == "variadic_argument"@ {
        has_child(n, first_plain(n)) && expr_ok(n.children@[first_plain(n)])
    } else if is_type_kind(n.kind@) {
        type_ok(n)
    } else {
        expr_ok(n)
    }
}

/// The argument a node converts to; a type argument becomes an expression.
pub open spec fn arg_rel(e: Expr, n: CstNode, src: Seq<u8>) -> bool
    decreases n, n.children@.len() + 4,
{
    if n.kind@ == "variadic_argument"@ {
        has_child(n, first_plain(n)) && expr_rel(e, n.children@[first_plain(n)], src)
    } else if is_type_kind(n.kind@) {
        exists|t: TypeExpr| #[trigger] type_as_expr(e, t, n.span) && type_rel(t, n, src)
    } else {
        expr_rel(e, n, src)
    }
}

/// Whether the elements of a literal value from `i` on convert.
pub open spec fn litvals_ok(n: CstNode, i: int) -> bool
    decreases n, n.children@.len() - i,
{
    if i < 0 || i >= n.children@.len() {
        true
    } else if plain(n.children@[i]) {
        keyed_ok(n.children@[i]) && litvals_ok(n, i + 1)
    } else {
        litvals_ok(n, i + 1)
    }
}

pub open spec fn litvals_rel(ks: Seq<KeyedElem>, n: CstNode, i: int, src: Seq<u8>) -> bool
    decreases n, n.children@.len() - i,
{
    if i < 0 || i >= n.children@.len() {
        ks.len() == 0
    } else if plain(n.children@[i]) {
        ks.len() > 0 && keyed_rel(ks[0], n.children@[i], src) && litvals_rel(ks.drop_first(), n, i + 1, src)
    } else {
        litvals_rel(ks, n, i + 1, src)
    }
}

/// Whether an element of a literal value converts.
pub open spec fn keyed_ok(n: CstNode) -> bool
    decreases n, n.children@.len() + 3,
{
    if n.kind@ == "keyed_element"@ {
        has_child(n, field_at(n, "key"@)) && litelem_ok(n.children@[field_at(n, "key"@)]) && has_child(n, field_at(n, "value"@))
            && litelem_ok(n.children@[field_at(n, "value"@)])
    } else if n.kind@ == "literal_element"@ {
        litelem_ok(n)
    } else {
        false
    }
}

pub open spec fn keyed_rel(k: KeyedElem, n: CstNode, src: Seq<u8>) -> bool
    decreases n, n.children@.len() + 3,
{
    if n.kind@ == "keyed_element"@ {
        k.span == n.span && (k.key matches Some(key) && has_child(n, field_at(n, "key"@)) && litelem_rel(
            key,
            n.children@[field_at(n, "key"@)],
            src,
        )) && has_child(n, field_at(n, "value"@)) && litelem_rel(k.value, n.children@[field_at(n, "value"@)], src)
    } else {
        k.span == n.span && k.key is None && litelem_rel(k.value, n, src)
    }
}

/// Whether a literal element (an expression or a nested literal value) converts.
pub open spec fn litelem_ok(n: CstNode) -> bool
    decreases n, n.children@.len() + 2,
{
    has_child(n, first_plain(n)) && if n.children@[first_plain(n)].kind@ == "literal_value"@ {
        litvals_ok(n.children@[first_plain(n)], 0)
    } else {
        expr_ok(n.children@[first_plain(n)])
    }
}

/// A nested literal value is a composite literal of the elided type, named
/// by the empty identifier.
pub open spec fn litelem_rel(e: Expr, n: CstNode, src: Seq<u8>) -> bool
    decreases n, n.children@.len() + 2,
{
    has_child(n, first_plain(n)) && if n.children@[first_plain(n)].kind@ == "literal_value"@ {
        let lv = n.children@[first_plain(n)];
        e matches Expr::Composite { ty, elems, span } && span == lv.span && litvals_rel(elems@, lv, 0, src) && (
        *ty matches TypeExpr::Named(id) && id.name@ == Seq::<char>::empty() && id.span == Span::spec_synthetic())
    } else {
        expr_rel(e, n.children@[first_plain(n)], src)
    }
}

// ---- Statements ----

/// Whether a block converts.
pub open spec fn block_ok(n: CstNode) -> bool
    decreases n, n.children@.len() + 3,
{
    body_ok(n)
}

pub open spec fn block_rel(b: Block, n: CstNode, src: Seq<u8>) -> bool
    decreases n, n.children@.len() + 3,
{
    b.span == n.span && body_rel(b.stmts@, n, src)
}

/// Whether the optional statement list among the plain children converts.
pub open spec fn body_ok(n: CstNode) -> bool
    decreases n, n.children@.len() + 2,
{
    !has_child(n, first_plain(n)) || stmts_ok(n.children@[first_plain(n)], 0)
}

/// The statements of the optional statement list among the plain children.
pub open spec fn body_rel(ss: Seq<Stmt>, n: CstNode, src: Seq<u8>) -> bool
    decreases n, n.children@.len() + 2,
{
    if has_child(n, first_plain(n)) {
        stmts_rel(ss, n.children@[first_plain(n)], 0, src)
    } else {
        ss.len() == 0
    }
}

pub open spec fn stmts_ok(n: CstNode, i: int) -> bool
    decreases n, n.children@.len() - i,
{
    if i < 0 || i >= n.children@.len() {
        true
    } else if plain(n.children@[i]) {
        stmt_ok(n.children@[i]) && stmts_ok(n, i + 1)
    } else {
        stmts_ok(n, i + 1)
    }
}

pub open spec fn stmts_rel(ss: Seq<Stmt>, n: CstNode, i: int, src: Seq<u8>) -> bool
    decreases n, n.children@.len() - i,
{
    if i < 0 || i >= n.children@.len() {
        ss.len() == 0
    } else if plain(n.children@[i]) {
        ss.len() > 0 && stmt_rel(ss[0], n.children@[i], src) && stmts_rel(ss.drop_first(), n, i + 1, src)
    } else {
        stmts_rel(ss, n, i + 1, src)
    }
}

/// Whether the optional simple statement in field `f` converts.
pub open spec fn init_ok(n: CstNode, f: Seq<char>) -> bool
    decreases n, n.children@.len() + 2,
{
    let j = field_at(n, f);
    !has_child(n, j) || (is_simple_kind(n.children@[j].kind@) && stmt_ok(n.children@[j]))
}

pub open spec fn init_rel(s: Option<Box<Stmt>>, n: CstNode, f: Seq<char>, src: Seq<u8>) -> bool
    decreases n, n.children@.len() + 2,
{
    let j = field_at(n, f);
    if has_child(n, j) {
        s matches Some(x) && stmt_rel(*x, n.children@[j], src)
    } else {
        s is None
    }
}

/// The expression list among the plain children, if any.
pub open spec fn plain_exprs_ok(n: CstNode) -> bool
    decreases n, n.children@.len() + 2,
{
    !has_child(n, first_plain(n)) || exprs_ok(n.children@[first_plain(n)], 0)
}

pub open spec fn plain_exprs_rel(es: Seq<Expr>, n: CstNode, src: Seq<u8>) -> bool
    decreases n, n.children@.len() + 2,
{
    if has_child(n, first_plain(n)) {
        exprs_rel(es, n.children@[first_plain(n)], 0, src)
    } else {
        es.len() == 0
    }
}

/// The expression list in field `f`, if any.
pub open spec fn field_exprs_ok(n: CstNode, f: Seq<char>) -> bool
    decreases n, n.children@.len() + 2,
{
    !has_child(n, field_at(n, f)) || exprs_ok(n.children@[field_at(n, f)], 0)
}

pub open spec fn field_exprs_rel(es: Seq<Expr>, n: CstNode, f: Seq<char>, src: Seq<u8>) -> bool
    decreases n, n.children@.len() + 2,
{
    if has_child(n, field_at(n, f)) {
        exprs_rel(es, n.children@[field_at(n, f)], 0, src)
    } else {
        es.len() == 0
    }
}

/// The optional expression in field `f`.
pub open spec fn field_expr_rel(e: Option<Expr>, n: CstNode, f: Seq<char>, src: Seq<u8>) -> bool
    decreases n, n.children@.len() + 2,
{
    if has_child(n, field_at(n, f)) {
        e matches Some(x) && expr_rel(x, n.children@[field_at(n, f)], src)
    } else {
        e is None
    }
}

/// The label among the plain children, if any.
pub open spec fn label_rel(l: Option<Ident>, n: CstNode, src: Seq<u8>) -> bool {
    if has_child(n, first_plain(n)) {
        l matches Some(id) && ident_rel(id, n.children@[first_plain(n)], src)
    } else {
        l is None
    }
}

/// Whether a node converts to a statement.
pub open spec fn stmt_ok(n: CstNode) -> bool
    decreases n, n.children@.len() + 3,
{
    let k = n.kind@;
    let c = n.children@;
    if k == "assignment_statement"@ {
        has_child(n, field_at(n, "left"@)) && exprs_ok(c[field_at(n, "left"@)], 0) && has_child(n, field_at(n, "right"@))
            && exprs_ok(c[field_at(n, "right"@)], 0) && has_child(n, field_at(n, "operator"@)) && assign_op(
            c[field_at(n, "operator"@)].kind@,
        ) is Some
    } else if k == "short_var_declaration"@ {
        has_child(n, field_at(n, "left"@)) && has_child(n, field_at(n, "right"@)) && exprs_ok(c[field_at(n, "right"@)], 0)
    } else if k == "inc_statement"@ || k == "dec_statement"@ || k == "expression_statement"@ || k
        == "go_statement"@ || k == "defer_statement"@ {
        has_child(n, first_plain(n)) && expr_ok(c[first_plain(n)])
    } else if k == "send_statement"@ {
        has_child(n, field_at(n, "channel"@)) && expr_ok(c[field_at(n, "channel"@)]) && has_child(n, field_at(n, "value"@))
            && expr_ok(c[field_at(n, "value"@)])
    } else if k == "block"@ {
        body_ok(n)
    } else if k == "return_statement"@ {
        plain_exprs_ok(n)
    } else if k == "if_statement"@ {
        init_ok(n, "initializer"@) && has_child(n, field_at(n, "condition"@)) && expr_ok(c[field_at(n, "condition"@)])
            && has_child(n, field_at(n, "consequence"@)) && block_ok(c[field_at(n, "consequence"@)]) && (!has_child(
            n,
            field_at(n, "alternative"@),
        ) || (c[field_at(n, "alternative"@)].kind@ == "block"@ && block_ok(c[field_at(n, "alternative"@)])) || (
        c[field_at(n, "alternative"@)].kind@ == "if_statement"@ && stmt_ok(c[field_at(n, "alternative"@)])))
    } else if k == "for_statement"@ {
        has_child(n, field_at(n, "body"@)) && block_ok(c[field_at(n, "body"@)]) && (!has_child(n, first_plain(n)) || clause_ok(
            c[first_plain(n)],
        ))
    } else if k == "expression_switch_statement"@ {
        init_ok(n, "initializer"@) && opt_expr_ok(n, "value"@) && ecases_ok(n, 0)
    } else if k == "type_switch_statement"@ {
        init_ok(n, "initializer"@) && has_child(n, field_at(n, "value"@)) && expr_ok(c[field_at(n, "value"@)])
            && tcases_ok(n, 0)
    } else if k == "select_statement"@ {
        ccases_ok(n, 0)
    } else if k == "break_statement"@ || k == "continue_statement"@ || k == "fallthrough_statement"@ || k
        == "empty_statement"@ {
        true
    } else if k == "goto_statement"@ {
        has_child(n, first_plain(n))
    } else if k == "labeled_statement"@ {
        has_child(n, field_at(n, "label"@)) && (!has_child(n, first_plain(n)) || stmt_ok(c[first_plain(n)]))
    } else if k == "type_declaration"@ {
        typespecs_ok(n, 0)
    } else if k == "var_declaration"@ {
        var_decl_ok(n)
    } else if k == "const_declaration"@ {
        constspecs_ok(n, 0)
    } else {
        false
    }
}

/// The statement a node converts to.
pub open spec fn stmt_rel(s: Stmt, n: CstNode, src: Seq<u8>) -> bool
    decreases n, n.children@.len() + 3,
{
    let k = n.kind@;
    let c = n.children@;
    if k == "assignment_statement"@ {
        s matches Stmt::Assign { lhs, op, rhs, span } && span == n.span && has_child(n, field_at(n, "left"@)) && exprs_rel(
            lhs@,
            c[field_at(n, "left"@)],
            0,
            src,
        ) && has_child(n, field_at(n, "right"@)) && exprs_rel(rhs@, c[field_at(n, "right"@)], 0, src) && has_child(
            n,
            field_at(n, "operator"@),
        ) && assign_op(c[field_at(n, "operator"@)].kind@) == Some(op)
    } else if k == "short_var_declaration"@ {
        s matches Stmt::ShortVarDecl { names, values, span } && span == n.span && has_child(n, field_at(n, "left"@))
            && plain_idents_rel(names@, c[field_at(n, "left"@)], 0, src) && has_child(n, field_at(n, "right"@)) && exprs_rel(
            values@,
            c[field_at(n, "right"@)],
            0,
            src,
        )
    } else if k == "inc_statement"@ {
        s matches Stmt::Inc(x, sp) && sp == n.span && has_child(n, first_plain(n)) && expr_rel(x, c[first_plain(n)], src)
    } else if k == "dec_statement"@ {
        s matches Stmt::Dec(x, sp) && sp == n.span && has_child(n, first_plain(n)) && expr_rel(x, c[first_plain(n)], src)
    } else if k == "expression_statement"@ {
        s matches Stmt::Expr(x, sp) && sp == n.span && has_child(n, first_plain(n)) && expr_rel(x, c[first_plain(n)], src)
    } else if k == "go_statement"@ {
        s matches Stmt::Go(x, sp) && sp == n.span && has_child(n, first_plain(n)) && expr_rel(x, c[first_plain(n)], src)
    } else if k == "defer_statement"@ {
        s matches Stmt::Defer(x, sp) && sp == n.span && has_child(n, first_plain(n)) && expr_rel(x, c[first_plain(n)], src)
    } else if k == "send_statement"@ {
        s matches Stmt::Send { channel, value, span } && span == n.span && has_child(n, field_at(n, "channel"@))
            && expr_rel(channel, c[field_at(n, "channel"@)], src) && has_child(n, field_at(n, "value"@)) && expr_rel(
            value,
            c[field_at(n, "value"@)],
            src,
        )
    } else if k == "block"@ {
        s matches Stmt::Block(b) && b.span == n.span && body_rel(b.stmts@, n, src)
    } else if k == "return_statement"@ {
        s matches Stmt::Return { values, span } && span == n.span && plain_exprs_rel(values@, n, src)
    } else if k == "if_statement"@ {
        s matches Stmt::If { init, cond, body, else_, span } && span == n.span && init_rel(init, n, "initializer"@, src)
            && has_child(n, field_at(n, "condition"@)) && expr_rel(cond, c[field_at(n, "condition"@)], src) && has_child(
            n,
            field_at(n, "consequence"@),
        ) && block_rel(body, c[field_at(n, "consequence"@)], src) && if has_child(n, field_at(n, "alternative"@)) {
            let a = c[field_at(n, "alternative"@)];
            else_ matches Some(x) && if a.kind@ == "block"@ {
                *x matches Stmt::Block(b) && block_rel(b, a, src)
            } else {
                stmt_rel(*x, a, src)
            }
        } else {
            else_ is None
        }
    } else if k == "for_statement"@ {
        has_child(n, field_at(n, "body"@)) && if !has_child(n, first_plain(n)) {
            s matches Stmt::For { init, cond, post, body, span } && span == n.span && init is None && cond is None
                && post is None && block_rel(body, c[field_at(n, "body"@)], src)
        } else {
            clause_rel(s, n, src)
        }
    } else if k == "expression_switch_statement"@ {
        s matches Stmt::Switch { init, tag, cases, span } && span == n.span && init_rel(init, n, "initializer"@, src)
            && field_expr_rel(tag, n, "value"@, src) && ecases_rel(cases@, n, 0, src)
    } else if k == "type_switch_statement"@ {
        s matches Stmt::TypeSwitch { init, assign, cases, span } && span == n.span && init_rel(
            init,
            n,
            "initializer"@,
            src,
        ) && has_child(n, field_at(n, "value"@)) && assign.span == guard_span(n) && expr_rel(
            assign.expr,
            c[field_at(n, "value"@)],
            src,
        ) && alias_rel(assign.name, n, src) && tcases_rel(cases@, n, 0, src)
    } else if k == "select_statement"@ {
        s matches Stmt::Select { cases, span } && span == n.span && ccases_rel(cases@, n, 0, src)
    } else if k == "break_statement"@ {
        s matches Stmt::Break(l, sp) && sp == n.span && label_rel(l, n, src)
    } else if k == "continue_statement"@ {
        s matches Stmt::Continue(l, sp) && sp == n.span && label_rel(l, n, src)
    } else if k == "goto_statement"@ {
        s matches Stmt::Goto(l, sp) && sp == n.span && has_child(n, first_plain(n)) && ident_rel(l, c[first_plain(n)], src)
    } else if k == "fallthrough_statement"@ {
        s == Stmt::Fallthrough(n.span)
    } else if k == "empty_statement"@ {
        s == Stmt::Empty(n.span)
    } else if k == "labeled_statement"@ {
        s matches Stmt::Labeled { label, body, span } && span == n.span && has_child(n, field_at(n, "label"@)) && ident_rel(
            label,
            c[field_at(n, "label"@)],
            src,
        ) && if has_child(n, first_plain(n)) {
            stmt_rel(*body, c[first_plain(n)], src)
        } else {
            *body == Stmt::Empty(n.span)
        }
    } else if k == "type_declaration"@ {
        if has_child(n, first_plain(n)) {
            s matches Stmt::TypeDecl(t, sp) && sp == n.span && typespecs_rel(t@, n, 0, src)
        } else {
            s == Stmt::Empty(n.span)
        }
    } else if k == "var_declaration"@ {
        if var_decl_nonempty(n) {
            s matches Stmt::VarDecl(v, sp) && sp == n.span && var_decl_rel(v@, n, src)
        } else {
            s == Stmt::Empty(n.span)
        }
    } else if k == "const_declaration"@ {
        if has_child(n, first_plain(n)) {
            s matches Stmt::ConstDecl(v, sp) && sp == n.span && constspecs_rel(v@, n, 0, src)
        } else {
            s == Stmt::Empty(n.span)
        }
    } else {
        false
    }
}

/// Whether the clause of a `for` statement converts.
pub open spec fn clause_ok(n: CstNode) -> bool
    decreases n, n.children@.len() + 4,
{
    let c = n.children@;
    if n.kind@ == "for_clause"@ {
        init_ok(n, "initializer"@) && opt_expr_ok(n, "condition"@) && init_ok(n, "update"@)
    } else if n.kind@ == "range_clause"@ {
        field_exprs_ok(n, "left"@) && has_child(n, field_at(n, "right"@)) && expr_ok(c[field_at(n, "right"@)])
    } else {
        expr_ok(n)
    }
}

/// The `for` statement `f` with a clause: a three-part loop, a range loop
/// (`:=` between the variables and the range expression makes it define
/// them; without variables it is bare), or a loop on a condition.
pub open spec fn clause_rel(s: Stmt, f: CstNode, src: Seq<u8>) -> bool
    decreases f, f.children@.len() + 2,
{
    if !(has_child(f, first_plain(f)) && has_child(f, field_at(f, "body"@))) {
        false
    } else {
    let n = f.children@[first_plain(f)];
    let b = f.children@[field_at(f, "body"@)];
    let sp = f.span;
    let c = n.children@;
    if n.kind@ == "for_clause"@ {
        s matches Stmt::For { init, cond, post, body, span } && span == sp && init_rel(init, n, "initializer"@, src)
            && field_expr_rel(cond, n, "condition"@, src) && init_rel(post, n, "update"@, src) && block_rel(body, b, src)
    } else if n.kind@ == "range_clause"@ {
        s matches Stmt::ForRange { key, value, assign, iterable, body, span } && span == sp && block_rel(body, b, src)
            && has_child(n, field_at(n, "right"@)) && expr_rel(*iterable, c[field_at(n, "right"@)], src) && if has_child(
            n,
            field_at(n, "left"@),
        ) {
            let l = c[field_at(n, "left"@)];
            let p0 = first_plain(l);
            let p1 = plain_from(l, p0 + 1);
            exprs_ok(l, 0) && (if has_child(l, p0) {
                key matches Some(x) && expr_rel(x, l.children@[p0], src)
            } else {
                key is None
            }) && (if has_child(l, p0) && has_child(l, p1) {
                value matches Some(x) && expr_rel(x, l.children@[p1], src)
            } else {
                value is None
            }) && assign == (if has_define(src, l.span.end_byte as int, c[field_at(n, "right"@)].span.start_byte as int) {
                RangeAssign::Define
            } else {
                RangeAssign::Assign
            })
        } else {
            key is None && value is None && assign == RangeAssign::Bare
        }
    } else {
        s matches Stmt::For { init, cond, post, body, span } && span == sp && init is None && post is None
            && block_rel(body, b, src) && (cond matches Some(x) && expr_rel(x, n, src))
    }
}
}

/// The span of a type switch's guard: from its alias (or its value) to the
/// end of its value.
pub open spec fn guard_span(n: CstNode) -> Span {
    let v = n.children@[field_at(n, "value"@)].span;
    let a = field_at(n, "alias"@);
    if has_child(n, a) {
        let s = n.children@[a].span;
        Span {
            start_byte: s.start_byte,
            end_byte: v.end_byte,
            start_row: s.start_row,
            start_col: s.start_col,
            end_row: v.end_row,
            end_col: v.end_col,
        }
    } else {
        v
    }
}

/// The name a type switch binds: the first expression of its alias, when it is
/// an identifier.
pub open spec fn alias_rel(name: Option<Ident>, n: CstNode, src: Seq<u8>) -> bool {
    let j = field_at(n, "alias"@);
    if has_child(n, j) && has_child(n.children@[j], first_plain(n.children@[j])) && n.children@[j].children@[first_plain(
        n.children@[j],
    )].kind@ == "identifier"@ {
        name matches Some(id) && ident_rel(id, n.children@[j].children@[first_plain(n.children@[j])], src)
    } else {
        name is None
    }
}

pub open spec fn ecases_ok(n: CstNode, i: int) -> bool
    decreases n, n.children@.len() - i,
{
    if i < 0 || i >= n.children@.len() {
        true
    } else if plain(n.children@[i]) {
        ecase_ok(n.children@[i]) && ecases_ok(n, i + 1)
    } else {
        ecases_ok(n, i + 1)
    }
}

pub open spec fn ecases_rel(cs: Seq<ExprCase>, n: CstNode, i: int, src: Seq<u8>) -> bool
    decreases n, n.children@.len() - i,
{
    if i < 0 || i >= n.children@.len() {
        cs.len() == 0
    } else if plain(n.children@[i]) {
        cs.len() > 0 && ecase_rel(cs[0], n.children@[i], src) && ecases_rel(cs.drop_first(), n, i + 1, src)
    } else {
        ecases_rel(cs, n, i + 1, src)
    }
}

pub open spec fn ecase_ok(n: CstNode) -> bool
    decreases n, n.children@.len() + 3,
{
    if n.kind@ == "expression_case"@ {
        has_child(n, field_at(n, "value"@)) && exprs_ok(n.children@[field_at(n, "value"@)], 0) && body_ok(n)
    } else if n.kind@ == "default_case"@ {
        body_ok(n)
    } else {
        false
    }
}

pub open spec fn ecase_rel(ec: ExprCase, n: CstNode, src: Seq<u8>) -> bool
    decreases n, n.children@.len() + 3,
{
    ec.span == n.span && body_rel(ec.body@, n, src) && if n.kind@ == "expression_case"@ {
        has_child(n, field_at(n, "value"@)) && exprs_rel(ec.exprs@, n.children@[field_at(n, "value"@)], 0, src)
    } else {
        ec.exprs@.len() == 0
    }
}

pub open spec fn tcases_ok(n: CstNode, i: int) -> bool
    decreases n, n.children@.len() - i,
{
    if i < 0 || i >= n.children@.len() {
        true
    } else if plain(n.children@[i]) {
        tcase_ok(n.children@[i]) && tcases_ok(n, i + 1)
    } else {
        tcases_ok(n, i + 1)
    }
}

pub open spec fn tcases_rel(cs: Seq<TypeCase>, n: CstNode, i: int, src: Seq<u8>) -> bool
    decreases n, n.children@.len() - i,
{
    if i < 0 || i >= n.children@.len() {
        cs.len() == 0
    } else if plain(n.children@[i]) {
        cs.len() > 0 && tcase_rel(cs[0], n.children@[i], src) && tcases_rel(cs.drop_first(), n, i + 1, src)
    } else {
        tcases_rel(cs, n, i + 1, src)
    }
}

pub open spec fn tcase_ok(n: CstNode) -> bool
    decreases n, n.children@.len() + 3,
{
    if n.kind@ == "type_case"@ {
        ftypes_ok(n, 0) && body_ok(n)
    } else if n.kind@ == "default_case"@ {
        body_ok(n)
    } else {
        false
    }
}

pub open spec fn tcase_rel(tc: TypeCase, n: CstNode, src: Seq<u8>) -> bool
    decreases n, n.children@.len() + 3,
{
    tc.span == n.span && body_rel(tc.body@, n, src) && if n.kind@ == "type_case"@ {
        ftypes_rel(tc.types@, n, 0, src)
    } else {
        tc.types@.len() == 0
    }
}

/// Whether the named children from `i` on that fill field `type` convert to types.
pub open spec fn ftypes_ok(n: CstNode, i: int) -> bool
    decreases n, n.children@.len() - i,
{
    if i < 0 || i >= n.children@.len() {
        true
    } else if fills(n.children@[i], "type"@) && n.children@[i].named {
        type_ok(n.children@[i]) && ftypes_ok(n, i + 1)
    } else {
        ftypes_ok(n, i + 1)
    }
}

pub open spec fn ftypes_rel(ts: Seq<TypeExpr>, n: CstNode, i: int, src: Seq<u8>) -> bool
    decreases n, n.children@.len() - i,
{
    if i < 0 || i >= n.children@.len() {
        ts.len() == 0
    } else if fills(n.children@[i], "type"@) && n.children@[i].named {
        ts.len() > 0 && type_rel(ts[0], n.children@[i], src) && ftypes_rel(ts.drop_first(), n, i + 1, src)
    } else {
        ftypes_rel(ts, n, i + 1, src)
    }
}

pub open spec fn ccases_ok(n: CstNode, i: int) -> bool
    decreases n, n.children@.len() - i,
{
    if i < 0 || i >= n.children@.len() {
        true
    } else if plain(n.children@[i]) {
        ccase_ok(n.children@[i]) && ccases_ok(n, i + 1)
    } else {
        ccases_ok(n, i + 1)
    }
}

pub open spec fn ccases_rel(cs: Seq<CommCase>, n: CstNode, i: int, src: Seq<u8>) -> bool
    decreases n, n.children@.len() - i,
{
    if i < 0 || i >= n.children@.len() {
        cs.len() == 0
    } else if plain(n.children@[i]) {
        cs.len() > 0 && ccase_rel(cs[0], n.children@[i], src) && ccases_rel(cs.drop_first(), n, i + 1, src)
    } else {
        ccases_rel(cs, n, i + 1, src)
    }
}

pub open spec fn ccase_ok(n: CstNode) -> bool
    decreases n, n.children@.len() + 3,
{
    let c = n.children@;
    if n.kind@ == "communication_case"@ {
        body_ok(n) && has_child(n, field_at(n, "communication"@)) && {
            let m = c[field_at(n, "communication"@)];
            if m.kind@ == "send_statement"@ {
                stmt_ok(m)
            } else if m.kind@ == "receive_statement"@ {
                has_child(m, field_at(m, "right"@)) && expr_ok(m.children@[field_at(m, "right"@)]) && field_exprs_ok(
                    m,
                    "left"@,
                )
            } else {
                false
            }
        }
    } else if n.kind@ == "default_case"@ {
        body_ok(n)
    } else {
        false
    }
}

/// The `select` case a node converts to. A receive with variables becomes a
/// short variable declaration (with `:=`, keeping the identifiers) or an
/// assignment; a bare receive keeps its expression.
pub open spec fn ccase_rel(cc: CommCase, n: CstNode, src: Seq<u8>) -> bool
    decreases n, n.children@.len() + 3,
{
    let c = n.children@;
    if n.kind@ == "communication_case"@ {
        has_child(n, field_at(n, "communication"@)) && {
            let m = c[field_at(n, "communication"@)];
            if m.kind@ == "send_statement"@ {
                cc matches CommCase::Send { stmt, body, span } && span == n.span && body_rel(body@, n, src)
                    && stmt_rel(*stmt, m, src)
            } else {
                cc matches CommCase::Recv { stmt, recv_expr, body, span } && span == n.span && body_rel(body@, n, src)
                    && has_child(m, field_at(m, "right"@)) && {
                    let r = m.children@[field_at(m, "right"@)];
                    if has_child(m, field_at(m, "left"@)) {
                        let l = m.children@[field_at(m, "left"@)];
                        recv_expr is None && (stmt matches Some(st) && if has_define(
                            src,
                            l.span.end_byte as int,
                            r.span.start_byte as int,
                        ) {
                            *st matches Stmt::ShortVarDecl { names, values, span } && span == m.span
                                && plain_idents_rel(names@, l, 0, src) && values@.len() == 1 && expr_rel(
                                values@[0],
                                r,
                                src,
                            )
                        } else {
                            *st matches Stmt::Assign { lhs, op, rhs, span } && span == m.span && op == AssignOp::Assign
                                && exprs_rel(lhs@, l, 0, src) && rhs@.len() == 1 && expr_rel(rhs@[0], r, src)
                        })
                    } else {
                        stmt is None && (recv_expr matches Some(x) && expr_rel(*x, r, src))
                    }
                }
            }
        }
    } else {
        cc matches CommCase::Default { body, span } && span == n.span && body_rel(body@, n, src)
    }
}

// ---- Declarations ----

pub open spec fn typespecs_ok(n: CstNode, i: int) -> bool
    decreases n, n.children@.len() - i,
{
    if i < 0 || i >= n.children@.len() {
        true
    } else if plain(n.children@[i]) {
        typespec_ok(n.children@[i]) && typespecs_ok(n, i + 1)
    } else {
        typespecs_ok(n, i + 1)
    }
}

pub open spec fn typespecs_rel(ts: Seq<TypeSpec>, n: CstNode, i: int, src: Seq<u8>) -> bool
    decreases n, n.children@.len() - i,
{
    if i < 0 || i >= n.children@.len() {
        ts.len() == 0
    } else if plain(n.children@[i]) {
        ts.len() > 0 && typespec_rel(ts[0], n.children@[i], src) && typespecs_rel(ts.drop_first(), n, i + 1, src)
    } else {
        typespecs_rel(ts, n, i + 1, src)
    }
}

pub open spec fn typespec_ok(n: CstNode) -> bool
    decreases n, n.children@.len() + 3,
{
    (n.kind@ == "type_spec"@ || n.kind@ == "type_alias"@) && has_child(n, field_at(n, "name"@)) && tparams_ok(n) && has_child(
        n,
        field_at(n, "type"@),
    ) && type_ok(n.children@[field_at(n, "type"@)])
}

/// A type specification: `type_alias` nodes are aliases, `type_spec` nodes definitions.
pub open spec fn typespec_rel(t: TypeSpec, n: CstNode, src: Seq<u8>) -> bool
    decreases n, n.children@.len() + 3,
{
    let c = n.children@;
    has_child(n, field_at(n, "name"@)) && has_child(n, field_at(n, "type"@)) && if n.kind@ == "type_alias"@ {
        t matches TypeSpec::Alias { name, type_params, ty, span } && span == n.span && ident_rel(
            name,
            c[field_at(n, "name"@)],
            src,
        ) && tparams_rel(type_params@, n, src) && type_rel(ty, c[field_at(n, "type"@)], src)
    } else {
        t matches TypeSpec::Def { name, type_params, ty, span } && span == n.span && ident_rel(
            name,
            c[field_at(n, "name"@)],
            src,
        ) && tparams_rel(type_params@, n, src) && type_rel(ty, c[field_at(n, "type"@)], src)
    }
}

/// Whether an optional type in field `type` converts.
pub open spec fn opt_type_ok(n: CstNode) -> bool
    decreases n, n.children@.len() + 2,
{
    !has_child(n, field_at(n, "type"@)) || type_ok(n.children@[field_at(n, "type"@)])
}

pub open spec fn opt_type_rel(t: Option<TypeExpr>, n: CstNode, src: Seq<u8>) -> bool
    decreases n, n.children@.len() + 2,
{
    if has_child(n, field_at(n, "type"@)) {
        t matches Some(x) && type_rel(x, n.children@[field_at(n, "type"@)], src)
    } else {
        t is None
    }
}

/// Whether a `var` or `const` specification converts.
pub open spec fn valspec_ok(n: CstNode) -> bool
    decreases n, n.children@.len() + 3,
{
    opt_type_ok(n) && field_exprs_ok(n, "value"@)
}

pub open spec fn varspec_rel(v: VarSpec, n: CstNode, src: Seq<u8>) -> bool
    decreases n, n.children@.len() + 3,
{
    v.span == n.span && names_rel(v.names@, n, "name"@, 0, src) && opt_type_rel(v.ty, n, src) && field_exprs_rel(
        v.values@,
        n,
        "value"@,
        src,
    )
}

pub open spec fn constspec_rel(v: ConstSpec, n: CstNode, src: Seq<u8>) -> bool
    decreases n, n.children@.len() + 3,
{
    v.span == n.span && names_rel(v.names@, n, "name"@, 0, src) && opt_type_rel(v.ty, n, src) && field_exprs_rel(
        v.values@,
        n,
        "value"@,
        src,
    )
}

pub open spec fn varspecs_ok(n: CstNode, i: int) -> bool
    decreases n, n.children@.len() - i,
{
    if i < 0 || i >= n.children@.len() {
        true
    } else if plain(n.children@[i]) {
        n.children@[i].kind@ == "var_spec"@ && valspec_ok(n.children@[i]) && varspecs_ok(n, i + 1)
    } else {
        varspecs_ok(n, i + 1)
    }
}

pub open spec fn varspecs_rel(vs: Seq<VarSpec>, n: CstNode, i: int, src: Seq<u8>) -> bool
    decreases n, n.children@.len() - i,
{
    if i < 0 || i >= n.children@.len() {
        vs.len() == 0
    } else if plain(n.children@[i]) {
        vs.len() > 0 && varspec_rel(vs[0], n.children@[i], src) && varspecs_rel(vs.drop_first(), n, i + 1, src)
    } else {
        varspecs_rel(vs, n, i + 1, src)
    }
}

pub open spec fn constspecs_ok(n: CstNode, i: int) -> bool
    decreases n, n.children@.len() - i,
{
    if i < 0 || i >= n.children@.len() {
        true
    } else if plain(n.children@[i]) {
        n.children@[i].kind@ == "const_spec"@ && valspec_ok(n.children@[i]) && constspecs_ok(n, i + 1)
    } else {
        constspecs_ok(n, i + 1)
    }
}

pub open spec fn constspecs_rel(vs: Seq<ConstSpec>, n: CstNode, i: int, src: Seq<u8>) -> bool
    decreases n, n.children@.len() - i,
{
    if i < 0 || i >= n.children@.len() {
        vs.len() == 0
    } else if plain(n.children@[i]) {
        vs.len() > 0 && constspec_rel(vs[0], n.children@[i], src) && constspecs_rel(vs.drop_first(), n, i + 1, src)
    } else {
        constspecs_rel(vs, n, i + 1, src)
    }
}

/// Whether a `var` declaration converts: one specification, or a list of them.
pub open spec fn var_decl_ok(n: CstNode) -> bool
    decreases n, n.children@.len() + 2,
{
    has_child(n, first_plain(n)) && {
        let p = n.children@[first_plain(n)];
        if p.kind@ == "var_spec"@ {
            valspec_ok(p)
        } else if p.kind@ == "var_spec_list"@ {
            varspecs_ok(p, 0)
        } else {
            false
        }
    }
}

pub open spec fn var_decl_rel(vs: Seq<VarSpec>, n: CstNode, src: Seq<u8>) -> bool
    decreases n, n.children@.len() + 2,
{
    has_child(n, first_plain(n)) && {
        let p = n.children@[first_plain(n)];
        if p.kind@ == "var_spec"@ {
            vs.len() == 1 && varspec_rel(vs[0], p, src)
        } else {
            varspecs_rel(vs, p, 0, src)
        }
    }
}

/// Whether a `var` declaration holds a specification.
pub open spec fn var_decl_nonempty(n: CstNode) -> bool {
    has_child(n, first_plain(n)) && {
        let p = n.children@[first_plain(n)];
        p.kind@ == "var_spec"@ || has_child(p, first_plain(p))
    }
}

// ---- Files ----

pub open spec fn imports_ok(n: CstNode, i: int) -> bool
    decreases n, n.children@.len() - i,
{
    if i < 0 || i >= n.children@.len() {
        true
    } else if plain(n.children@[i]) {
        import_ok(n.children@[i]) && imports_ok(n, i + 1)
    } else {
        imports_ok(n, i + 1)
    }
}

pub open spec fn imports_rel(is: Seq<ImportSpec>, n: CstNode, i: int, src: Seq<u8>) -> bool
    decreases n, n.children@.len() - i,
{
    if i < 0 || i >= n.children@.len() {
        is.len() == 0
    } else if plain(n.children@[i]) {
        is.len() > 0 && import_rel(is[0], n.children@[i], src) && imports_rel(is.drop_first(), n, i + 1, src)
    } else {
        imports_rel(is, n, i + 1, src)
    }
}

/// Whether an import specification converts.
pub open spec fn import_ok(n: CstNode) -> bool
    decreases n, n.children@.len() + 3,
{
    let j = field_at(n, "name"@);
    n.kind@ == "import_spec"@ && has_child(n, field_at(n, "path"@)) && (!has_child(n, j) || n.children@[j].kind@ == "dot"@
        || n.children@[j].kind@ == "blank_identifier"@ || n.children@[j].kind@ == "package_identifier"@)
}

/// The import a node converts to: `.` and `_` aliases, a named alias, or none.
pub open spec fn import_rel(s: ImportSpec, n: CstNode, src: Seq<u8>) -> bool
    decreases n, n.children@.len() + 3,
{
    let j = field_at(n, "name"@);
    let p = field_at(n, "path"@);
    s.span == n.span && has_child(n, p) && s.path.raw@ == text_of(n.children@[p], src) && s.path.span == n.children@[p].span
        && if !has_child(n, j) {
        s.alias == ImportAlias::Implicit
    } else if n.children@[j].kind@ == "dot"@ {
        s.alias == ImportAlias::Dot
    } else if n.children@[j].kind@ == "blank_identifier"@ {
        s.alias == ImportAlias::Blank
    } else {
        s.alias matches ImportAlias::Named(id) && ident_rel(id, n.children@[j], src)
    }
}

/// Whether an import declaration converts: one specification or a list.
pub open spec fn import_decl_ok(n: CstNode) -> bool
    decreases n, n.children@.len() + 3,
{
    has_child(n, first_plain(n)) && {
        let p = n.children@[first_plain(n)];
        if p.kind@ == "import_spec_list"@ {
            imports_ok(p, 0)
        } else {
            import_ok(p)
        }
    }
}

pub open spec fn import_decl_rel(is: Seq<ImportSpec>, n: CstNode, src: Seq<u8>) -> bool
    decreases n, n.children@.len() + 3,
{
    has_child(n, first_plain(n)) && {
        let p = n.children@[first_plain(n)];
        if p.kind@ == "import_spec_list"@ {
            imports_rel(is, p, 0, src)
        } else {
            is.len() == 1 && import_rel(is[0], p, src)
        }
    }
}

/// Whether a function declaration converts.
pub open spec fn func_ok(n: CstNode) -> bool
    decreases n, n.children@.len() + 3,
{
    let c = n.children@;
    has_child(n, field_at(n, "name"@)) && tparams_ok(n) && has_child(n, field_at(n, "parameters"@)) && params_ok(
        c[field_at(n, "parameters"@)],
        0,
    ) && result_ok(n) && (!has_child(n, field_at(n, "body"@)) || block_ok(c[field_at(n, "body"@)]))
}

/// The optional body in field `body`.
pub open spec fn opt_body_rel(b: Option<Block>, n: CstNode, src: Seq<u8>) -> bool
    decreases n, n.children@.len() + 2,
{
    if has_child(n, field_at(n, "body"@)) {
        b matches Some(x) && block_rel(x, n.children@[field_at(n, "body"@)], src)
    } else {
        b is None
    }
}

/// The function declaration a node converts to; the signature's span is the
/// declaration's, and there is no doc comment.
pub open spec fn func_rel(f: FuncDecl, n: CstNode, src: Seq<u8>) -> bool
    decreases n, n.children@.len() + 3,
{
    let c = n.children@;
    f.span == n.span && f.doc is None && f.ty.span == n.span && has_child(n, field_at(n, "name"@)) && ident_rel(
        f.name,
        c[field_at(n, "name"@)],
        src,
    ) && tparams_rel(f.ty.type_params@, n, src) && has_child(n, field_at(n, "parameters"@)) && params_rel(
        f.ty.params@,
        c[field_at(n, "parameters"@)],
        0,
        src,
    ) && result_rel(f.ty.results@, n, src) && opt_body_rel(f.body, n, src)
}

/// The error a receiver list gives, if any: none declared, or a variadic one.
pub open spec fn receiver_err(pl: CstNode) -> Option<WalkErrorV> {
    if !has_child(pl, first_plain(pl)) {
        Some(WalkErrorV::MissingField("receiver parameter"@))
    } else {
        let p = pl.children@[first_plain(pl)];
        if p.kind@ == "variadic_parameter_declaration"@ {
            Some(WalkErrorV::UnexpectedNode("variadic receiver"@))
        } else if p.kind@ == "parameter_declaration"@ && has_child(p, field_at(p, "type"@)) && type_ok(
            p.children@[field_at(p, "type"@)],
        ) {
            None
        } else {
            Some(WalkErrorV::Parse)
        }
    }
}

/// The receiver a receiver list converts to: its first parameter's first name
/// and type, with the list's span.
pub open spec fn receiver_rel(r: Receiver, pl: CstNode, src: Seq<u8>) -> bool {
    has_child(pl, first_plain(pl)) && {
        let p = pl.children@[first_plain(pl)];
        r.span == pl.span && r.type_params@.len() == 0 && has_child(p, field_at(p, "type"@)) && type_rel(
            r.ty,
            p.children@[field_at(p, "type"@)],
            src,
        ) && if has_child(p, field_at(p, "name"@)) {
            r.name matches Some(id) && ident_rel(id, p.children@[field_at(p, "name"@)], src)
        } else {
            r.name is None
        }
    }
}

/// The error a method declaration gives, if any, in the order the parts are read.
pub open spec fn method_err(n: CstNode) -> Option<WalkErrorV> {
    let c = n.children@;
    if !has_child(n, field_at(n, "name"@)) || !has_child(n, field_at(n, "receiver"@)) {
        Some(WalkErrorV::Parse)
    } else if receiver_err(c[field_at(n, "receiver"@)]) is Some {
        receiver_err(c[field_at(n, "receiver"@)])
    } else if has_child(n, field_at(n, "parameters"@)) && params_ok(c[field_at(n, "parameters"@)], 0) && result_ok(n) && (
    !has_child(n, field_at(n, "body"@)) || block_ok(c[field_at(n, "body"@)])) {
        None
    } else {
        Some(WalkErrorV::Parse)
    }
}

pub open spec fn method_rel(m: MethodDecl, n: CstNode, src: Seq<u8>) -> bool {
    let c = n.children@;
    m.span == n.span && m.doc is None && m.ty.span == n.span && m.ty.type_params@.len() == 0 && has_child(
        n,
        field_at(n, "name"@),
    ) && ident_rel(m.name, c[field_at(n, "name"@)], src) && has_child(n, field_at(n, "receiver"@)) && receiver_rel(
        m.receiver,
        c[field_at(n, "receiver"@)],
        src,
    ) && has_child(n, field_at(n, "parameters"@)) && params_rel(m.ty.params@, c[field_at(n, "parameters"@)], 0, src)
        && result_rel(m.ty.results@, n, src) && opt_body_rel(m.body, n, src)
}

/// Kinds of statements that may stand at the top of a file and are left out.
pub open spec fn skipped_kind(k: Seq<char>) -> bool {
    is_simple_kind(k) || k == "block"@ || k == "return_statement"@ || k == "if_statement"@ || k == "for_statement"@
        || k == "expression_switch_statement"@ || k == "type_switch_statement"@ || k == "select_statement"@ || k
        == "go_statement"@ || k == "defer_statement"@ || k == "break_statement"@ || k == "continue_statement"@ || k
        == "goto_statement"@ || k == "fallthrough_statement"@ || k == "empty_statement"@ || k
        == "labeled_statement"@
}

/// The error the top-level nodes from `i` on give, if any.
pub open spec fn top_err(n: CstNode, i: int) -> Option<WalkErrorV>
    decreases n.children@.len() - i,
{
    if i < 0 || i >= n.children@.len() {
        None
    } else if !plain(n.children@[i]) {
        top_err(n, i + 1)
    } else {
        let d = n.children@[i];
        let k = d.kind@;
        let here = if k == "package_clause"@ {
            if has_child(d, first_plain(d)) { None } else { Some(WalkErrorV::Parse) }
        } else if k == "import_declaration"@ {
            if import_decl_ok(d) { None } else { Some(WalkErrorV::Parse) }
        } else if k == "function_declaration"@ {
            if func_ok(d) { None } else { Some(WalkErrorV::Parse) }
        } else if k == "method_declaration"@ {
            method_err(d)
        } else if k == "type_declaration"@ {
            if typespecs_ok(d, 0) { None } else { Some(WalkErrorV::Parse) }
        } else if k == "var_declaration"@ {
            if var_decl_ok(d) { None } else { Some(WalkErrorV::Parse) }
        } else if k == "const_declaration"@ {
            if constspecs_ok(d, 0) { None } else { Some(WalkErrorV::Parse) }
        } else if skipped_kind(k) {
            None
        } else {
            Some(WalkErrorV::Parse)
        };
        if here is Some {
            here
        } else {
            top_err(n, i + 1)
        }
    }
}

/// The imports that the top-level nodes from `i` on declare, in order.
pub open spec fn top_imports_rel(is: Seq<ImportSpec>, n: CstNode, i: int, src: Seq<u8>) -> bool
    decreases n.children@.len() - i,
{
    if i < 0 || i >= n.children@.len() {
        is.len() == 0
    } else if plain(n.children@[i]) && n.children@[i].kind@ == "import_declaration"@ {
        let k = import_decl_count(n.children@[i]);
        k <= is.len() && import_decl_rel(is.take(k as int), n.children@[i], src) && top_imports_rel(
            is.skip(k as int),
            n,
            i + 1,
            src,
        )
    } else {
        top_imports_rel(is, n, i + 1, src)
    }
}

/// How many specifications an import declaration holds.
pub open spec fn import_decl_count(n: CstNode) -> nat {
    if has_child(n, first_plain(n)) && n.children@[first_plain(n)].kind@ == "import_spec_list"@ {
        plain_count(n.children@[first_plain(n)], 0)
    } else {
        1
    }
}

/// Whether a top-level node declares something.
pub open spec fn is_decl_kind(k: Seq<char>) -> bool {
    k == "function_declaration"@ || k == "method_declaration"@ || k == "type_declaration"@ || k
        == "var_declaration"@ || k == "const_declaration"@
}

/// The declarations of the top-level nodes from `i` on, in order.
pub open spec fn top_decls_rel(ds: Seq<TopLevelDecl>, n: CstNode, i: int, src: Seq<u8>) -> bool
    decreases n.children@.len() - i,
{
    if i < 0 || i >= n.children@.len() {
        ds.len() == 0
    } else if plain(n.children@[i]) && is_decl_kind(n.children@[i].kind@) {
        ds.len() > 0 && decl_rel(ds[0], n.children@[i], src) && top_decls_rel(ds.drop_first(), n, i + 1, src)
    } else {
        top_decls_rel(ds, n, i + 1, src)
    }
}

/// The declaration a top-level node converts to.
pub open spec fn decl_rel(d: TopLevelDecl, n: CstNode, src: Seq<u8>) -> bool {
    let k = n.kind@;
    if k == "function_declaration"@ {
        d matches TopLevelDecl::Func(f) && func_rel(*f, n, src)
    } else if k == "method_declaration"@ {
        d matches TopLevelDecl::Method(m) && method_rel(*m, n, src)
    } else if k == "type_declaration"@ {
        d matches TopLevelDecl::Type(ts) && typespecs_rel(ts@, n, 0, src)
    } else if k == "var_declaration"@ {
        d matches TopLevelDecl::Var(vs) && var_decl_rel(vs@, n, src)
    } else {
        d matches TopLevelDecl::Const(vs) && constspecs_rel(vs@, n, 0, src)
    }
}

/// Index of the last package clause from `i` on, or -1.
pub open spec fn last_package(n: CstNode, i: int) -> int
    decreases n.children@.len() - i,
{
    if i < 0 || i >= n.children@.len() {
        -1
    } else if last_package(n, i + 1) != -1 {
        last_package(n, i + 1)
    } else if plain(n.children@[i]) && n.children@[i].kind@ == "package_clause"@ {
        i
    } else {
        -1
    }
}

/// The error converting a file gives: the first error of its top-level
/// nodes, else a missing package clause.
pub open spec fn file_err(n: CstNode) -> Option<WalkErrorV> {
    if top_err(n, 0) is Some {
        top_err(n, 0)
    } else if last_package(n, 0) == -1 {
        Some(WalkErrorV::MissingField("package"@))
    } else {
        None
    }
}

/// The file a node converts to: the name of its last package clause, its
/// imports and declarations in order (other top-level statements are left out).
pub open spec fn file_rel(f: SourceFile, n: CstNode, src: Seq<u8>) -> bool {
    let p = last_package(n, 0);
    f.span == n.span && has_child(n, p) && has_child(n.children@[p], first_plain(n.children@[p])) && ident_rel(
        f.package,
        n.children@[p].children@[first_plain(n.children@[p])],
        src,
    ) && top_imports_rel(f.imports@, n, 0, src) && top_decls_rel(f.decls@, n, 0, src)
}


// ---- Conversion ----

/// An identifier for the node.
fn mk_ident(n: &CstNode, src: &[u8]) -> (id: Ident)
    ensures
        ident_rel(id, *n, src@),
{
    Ident { name: node_text(n, src), span: n.span }
}

/// Identifiers for the named children from `i` on that fill field `f`.
fn walk_names(n: &CstNode, f: &str, i: usize, src: &[u8]) -> (r: Vec<Ident>)
    requires
        i <= n.children@.len(),
    ensures
        names_rel(r@, *n, f@, i as int, src@),
    decreases n.children@.len() - i,
{
    if i >= n.children.len() {
        return Vec::new();
    }
    let c = &n.children[i];
    let mut rest = walk_names(n, f, i + 1, src);
    if fills_field(c, f) && c.named {
        let ghost tail = rest@;
        rest.insert(0, mk_ident(c, src));
        proof {
            assert(rest@.drop_first() =~= tail);
        }
    }
    rest
}

/// Identifiers for the plain `identifier` children from `i` on.
fn walk_plain_idents(n: &CstNode, i: usize, src: &[u8]) -> (r: Vec<Ident>)
    requires
        i <= n.children@.len(),
    ensures
        plain_idents_rel(r@, *n, i as int, src@),
    decreases n.children@.len() - i,
{
    if i >= n.children.len() {
        return Vec::new();
    }
    let c = &n.children[i];
    let mut rest = walk_plain_idents(n, i + 1, src);
    if is_plain(c) && kind_is(c, "identifier") {
        let ghost tail = rest@;
        rest.insert(0, mk_ident(c, src));
        proof {
            assert(rest@.drop_first() =~= tail);
        }
    }
    rest
}

/// Whether the ASCII text `pat` stands in `src` at `start`.
fn bytes_at(src: &[u8], start: usize, pat: &str) -> (b: bool)
    ensures
        b == starts_at(src@, start as int, pat@),
{
    let cs = crate::text::chars_of(pat);
    if cs.len() > src.len() || start > src.len() - cs.len() {
        return false;
    }
    let mut k: usize = 0;
    while k < cs.len()
        invariant
            cs@ == pat@,
            cs@.len() == cs.len(),
            k <= cs@.len(),
            start + cs@.len() <= src@.len(),
            src@.len() <= usize::MAX,
            forall|j: int| 0 <= j < k ==> src@[start + j] as u32 == #[trigger] pat@[j] as u32,
        decreases cs.len() - k,
    {
        assert(start + k < src@.len());
        if src[start + k] as u32 != cs[k] as u32 {
            return false;
        }
        k = k + 1;
    }
    true
}

/// The direction of a channel type written at `start`.
fn chan_direction(src: &[u8], start: usize) -> (d: ChanDir)
    ensures
        d == chan_dir(src@, start as int),
{
    if bytes_at(src, start, "<-chan") {
        ChanDir::Recv
    } else if bytes_at(src, start, "chan<-") || bytes_at(src, start, "chan <-") {
        ChanDir::Send
    } else {
        ChanDir::Both
    }
}

/// Whether `:=` occurs in `src[from..to]`.
fn find_define(src: &[u8], from: usize, to: usize) -> (b: bool)
    ensures
        b == has_define(src@, from as int, to as int),
{
    let mut k = from;
    while k < to && k + 1 < to && k + 1 < src.len()
        invariant
            from <= k,
            forall|j: int| from <= j < k && j + 1 < to && j + 1 < src@.len() ==> !(#[trigger] src@[j] == 0x3A && src@[j + 1] == 0x3D),
        decreases to - k,
    {
        if src[k] == 0x3A && src[k + 1] == 0x3D {
            return true;
        }
        k = k + 1;
    }
    assert forall|j: int| from <= j && j + 1 < to && j + 1 < src@.len() implies !(#[trigger] src@[j] == 0x3A && src@[j + 1] == 0x3D) by {
        if j >= k {
            assert(false);
        }
    }
    false
}

/// A converted type as an expression, as `type_as_expr` says.
fn type_to_expr(t: TypeExpr, span: Span) -> (e: Expr)
    ensures
        type_as_expr(e, t, span),
{
    match t {
        TypeExpr::Named(id) => Expr::Ident(id),
        TypeExpr::Qualified { package, name } => Expr::Qualified { package, name, span },
        _ => {
            let text = Printer::type_expr(&t);
            let name = match &t {
                TypeExpr::Pointer(_) | TypeExpr::Func(_) | TypeExpr::Channel { .. } => {
                    let mut s = "(".to_string();
                    s.append(text.as_str());
                    s.append(")");
                    s
                },
                _ => text,
            };
            Expr::Ident(Ident { name, span })
        },
    }
}

/// The node that fills field `f`, or a conversion error.
fn need_field<'a>(n: &'a CstNode, f: &str) -> (r: Result<&'a CstNode, WalkError>)
    ensures
        r is Ok <==> has_child(*n, field_at(*n, f@)),
        r matches Ok(c) ==> *c == n.children@[field_at(*n, f@)],
        r matches Err(e) ==> e == WalkError::Parse,
{
    proof {
        lemma_field_from_bounds(*n, f@, 0);
    }
    match field_child(n, f) {
        Some(c) => Ok(c),
        None => Err(WalkError::Parse),
    }
}

/// The first plain child, or a conversion error.
fn need_plain(n: &CstNode) -> (r: Result<&CstNode, WalkError>)
    ensures
        r is Ok <==> has_child(*n, first_plain(*n)),
        r matches Ok(c) ==> *c == n.children@[first_plain(*n)],
        r matches Err(e) ==> e == WalkError::Parse,
{
    proof {
        lemma_plain_from_bounds(*n, 0);
    }
    match first_plain_child(n) {
        Some(c) => Ok(c),
        None => Err(WalkError::Parse),
    }
}

fn walk_fields(n: &CstNode, i: usize, src: &[u8]) -> (r: Result<Vec<FieldDecl>, WalkError>)
    requires
        i <= n.children@.len(),
    ensures
        r is Ok <==> fields_ok(*n, i as int),
        r matches Ok(v) ==> fields_rel(v@, *n, i as int, src@),
        r matches Err(e) ==> e == WalkError::Parse,
    decreases n, n.children@.len() - i,
{
    if i >= n.children.len() {
        return Ok(Vec::new());
    }
    let c = &n.children[i];
    if is_plain(c) {
        let x = match walk_field(c, src) {
            Ok(x) => x,
            Err(e) => return Err(e),
        };
        let mut rest = match walk_fields(n, i + 1, src) {
            Ok(v) => v,
            Err(e) => return Err(e),
        };
        let ghost tail = rest@;
        rest.insert(0, x);
        proof {
            assert(rest@.drop_first() =~= tail);
        }
        Ok(rest)
    } else {
        walk_fields(n, i + 1, src)
    }
}

fn walk_elems(n: &CstNode, i: usize, src: &[u8]) -> (r: Result<Vec<InterfaceElem>, WalkError>)
    requires
        i <= n.children@.len(),
    ensures
        r is Ok <==> elems_ok(*n, i as int),
        r matches Ok(v) ==> elems_rel(v@, *n, i as int, src@),
        r matches Err(e) ==> e == WalkError::Parse,
    decreases n, n.children@.len() - i,
{
    if i >= n.children.len() {
        return Ok(Vec::new());
    }
    let c = &n.children[i];
    if is_plain(c) {
        let x = match walk_elem(c, src) {
            Ok(x) => x,
            Err(e) => return Err(e),
        };
        let mut rest = match walk_elems(n, i + 1, src) {
            Ok(v) => v,
            Err(e) => return Err(e),
        };
        let ghost tail = rest@;
        rest.insert(0, x);
        proof {
            assert(rest@.drop_first() =~= tail);
        }
        Ok(rest)
    } else {
        walk_elems(n, i + 1, src)
    }
}

fn walk_targs(n: &CstNode, i: usize, src: &[u8]) -> (r: Result<Vec<TypeExpr>, WalkError>)
    requires
        i <= n.children@.len(),
    ensures
        r is Ok <==> targs_ok(*n, i as int),
        r matches Ok(v) ==> targs_rel(v@, *n, i as int, src@),
        r matches Err(e) ==> e == WalkError::Parse,
    decreases n, n.children@.len() - i,
{
    if i >= n.children.len() {
        return Ok(Vec::new());
    }
    let c = &n.children[i];
    if is_plain(c) {
        if !kind_is(c, "type_elem") {
            return Err(WalkError::Parse);
        }
        let x = match walk_union(c, src) {
            Ok(x) => x,
            Err(e) => return Err(e),
        };
        let mut rest = match walk_targs(n, i + 1, src) {
            Ok(v) => v,
            Err(e) => return Err(e),
        };
        let ghost tail = rest@;
        rest.insert(0, x);
        proof {
            assert(rest@.drop_first() =~= tail);
        }
        Ok(rest)
    } else {
        walk_targs(n, i + 1, src)
    }
}

fn walk_params(n: &CstNode, i: usize, src: &[u8]) -> (r: Result<Vec<ParamDecl>, WalkError>)
    requires
        i <= n.children@.len(),
    ensures
        r is Ok <==> params_ok(*n, i as int),
        r matches Ok(v) ==> params_rel(v@, *n, i as int, src@),
        r matches Err(e) ==> e == WalkError::Parse,
    decreases n, n.children@.len() - i,
{
    if i >= n.children.len() {
        return Ok(Vec::new());
    }
    let c = &n.children[i];
    if is_plain(c) {
        let x = match walk_param(c, src) {
            Ok(x) => x,
            Err(e) => return Err(e),
        };
        let mut rest = match walk_params(n, i + 1, src) {
            Ok(v) => v,
            Err(e) => return Err(e),
        };
        let ghost tail = rest@;
        rest.insert(0, x);
        proof {
            assert(rest@.drop_first() =~= tail);
        }
        Ok(rest)
    } else {
        walk_params(n, i + 1, src)
    }
}

fn walk_tparam_list(n: &CstNode, i: usize, src: &[u8]) -> (r: Result<Vec<TypeParam>, WalkError>)
    requires
        i <= n.children@.len(),
    ensures
        r is Ok <==> tparam_list_ok(*n, i as int),
        r matches Ok(v) ==> tparam_list_rel(v@, *n, i as int, src@),
        r matches Err(e) ==> e == WalkError::Parse,
    decreases n, n.children@.len() - i,
{
    if i >= n.children.len() {
        return Ok(Vec::new());
    }
    let c = &n.children[i];
    if is_plain(c) {
        let x = match walk_tparam(c, src) {
            Ok(x) => x,
            Err(e) => return Err(e),
        };
        let mut rest = match walk_tparam_list(n, i + 1, src) {
            Ok(v) => v,
            Err(e) => return Err(e),
        };
        let ghost tail = rest@;
        rest.insert(0, x);
        proof {
            assert(rest@.drop_first() =~= tail);
        }
        Ok(rest)
    } else {
        walk_tparam_list(n, i + 1, src)
    }
}

fn walk_exprs(n: &CstNode, i: usize, src: &[u8]) -> (r: Result<Vec<Expr>, WalkError>)
    requires
        i <= n.children@.len(),
    ensures
        r is Ok <==> exprs_ok(*n, i as int),
        r matches Ok(v) ==> exprs_rel(v@, *n, i as int, src@),
        r matches Err(e) ==> e == WalkError::Parse,
    decreases n, n.children@.len() - i,
{
    if i >= n.children.len() {
        return Ok(Vec::new());
    }
    let c = &n.children[i];
    if is_plain(c) {
        let x = match walk_expr(c, src) {
            Ok(x) => x,
            Err(e) => return Err(e),
        };
        let mut rest = match walk_exprs(n, i + 1, src) {
            Ok(v) => v,
            Err(e) => return Err(e),
        };
        let ghost tail = rest@;
        rest.insert(0, x);
        proof {
            assert(rest@.drop_first() =~= tail);
        }
        Ok(rest)
    } else {
        walk_exprs(n, i + 1, src)
    }
}

fn walk_args(n: &CstNode, i: usize, src: &[u8]) -> (r: Result<Vec<Expr>, WalkError>)
    requires
        i <= n.children@.len(),
    ensures
        r is Ok <==> args_ok(*n, i as int),
        r matches Ok(v) ==> args_rel(v@, *n, i as int, src@),
        r matches Err(e) ==> e == WalkError::Parse,
    decreases n, n.children@.len() - i,
{
    if i >= n.children.len() {
        return Ok(Vec::new());
    }
    let c = &n.children[i];
    if is_plain(c) {
        let x = match walk_arg(c, src) {
            Ok(x) => x,
            Err(e) => return Err(e),
        };
        let mut rest = match walk_args(n, i + 1, src) {
            Ok(v) => v,
            Err(e) => return Err(e),
        };
        let ghost tail = rest@;
        rest.insert(0, x);
        proof {
            assert(rest@.drop_first() =~= tail);
        }
        Ok(rest)
    } else {
        walk_args(n, i + 1, src)
    }
}

fn walk_litvals(n: &CstNode, i: usize, src: &[u8]) -> (r: Result<Vec<KeyedElem>, WalkError>)
    requires
        i <= n.children@.len(),
    ensures
        r is Ok <==> litvals_ok(*n, i as int),
        r matches Ok(v) ==> litvals_rel(v@, *n, i as int, src@),
        r matches Err(e) ==> e == WalkError::Parse,
    decreases n, n.children@.len() - i,
{
    if i >= n.children.len() {
        return Ok(Vec::new());
    }
    let c = &n.children[i];
    if is_plain(c) {
        let x = match walk_keyed(c, src) {
            Ok(x) => x,
            Err(e) => return Err(e),
        };
        let mut rest = match walk_litvals(n, i + 1, src) {
            Ok(v) => v,
            Err(e) => return Err(e),
        };
        let ghost tail = rest@;
        rest.insert(0, x);
        proof {
            assert(rest@.drop_first() =~= tail);
        }
        Ok(rest)
    } else {
        walk_litvals(n, i + 1, src)
    }
}

fn walk_stmts(n: &CstNode, i: usize, src: &[u8]) -> (r: Result<Vec<Stmt>, WalkError>)
    requires
        i <= n.children@.len(),
    ensures
        r is Ok <==> stmts_ok(*n, i as int),
        r matches Ok(v) ==> stmts_rel(v@, *n, i as int, src@),
        r matches Err(e) ==> e == WalkError::Parse,
    decreases n, n.children@.len() - i,
{
    if i >= n.children.len() {
        return Ok(Vec::new());
    }
    let c = &n.children[i];
    if is_plain(c) {
        let x = match walk_stmt(c, src) {
            Ok(x) => x,
            Err(e) => return Err(e),
        };
        let mut rest = match walk_stmts(n, i + 1, src) {
            Ok(v) => v,
            Err(e) => return Err(e),
        };
        let ghost tail = rest@;
        rest.insert(0, x);
        proof {
            assert(rest@.drop_first() =~= tail);
        }
        Ok(rest)
    } else {
        walk_stmts(n, i + 1, src)
    }
}

fn walk_ecases(n: &CstNode, i: usize, src: &[u8]) -> (r: Result<Vec<ExprCase>, WalkError>)
    requires
        i <= n.children@.len(),
    ensures
        r is Ok <==> ecases_ok(*n, i as int),
        r matches Ok(v) ==> ecases_rel(v@, *n, i as int, src@),
        r matches Err(e) ==> e == WalkError::Parse,
    decreases n, n.children@.len() - i,
{
    if i >= n.children.len() {
        return Ok(Vec::new());
    }
    let c = &n.children[i];
    if is_plain(c) {
        let x = match walk_ecase(c, src) {
            Ok(x) => x,
            Err(e) => return Err(e),
        };
        let mut rest = match walk_ecases(n, i + 1, src) {
            Ok(v) => v,
            Err(e) => return Err(e),
        };
        let ghost tail = rest@;
        rest.insert(0, x);
        proof {
            assert(rest@.drop_first() =~= tail);
        }
        Ok(rest)
    } else {
        walk_ecases(n, i + 1, src)
    }
}

fn walk_tcases(n: &CstNode, i: usize, src: &[u8]) -> (r: Result<Vec<TypeCase>, WalkError>)
    requires
        i <= n.children@.len(),
    ensures
        r is Ok <==> tcases_ok(*n, i as int),
        r matches Ok(v) ==> tcases_rel(v@, *n, i as int, src@),
        r matches Err(e) ==> e == WalkError::Parse,
    decreases n, n.children@.len() - i,
{
    if i >= n.children.len() {
        return Ok(Vec::new());
    }
    let c = &n.children[i];
    if is_plain(c) {
        let x = match walk_tcase(c, src) {
            Ok(x) => x,
            Err(e) => return Err(e),
        };
        let mut rest = match walk_tcases(n, i + 1, src) {
            Ok(v) => v,
            Err(e) => return Err(e),
        };
        let ghost tail = rest@;
        rest.insert(0, x);
        proof {
            assert(rest@.drop_first() =~= tail);
        }
        Ok(rest)
    } else {
        walk_tcases(n, i + 1, src)
    }
}

fn walk_ftypes(n: &CstNode, i: usize, src: &[u8]) -> (r: Result<Vec<TypeExpr>, WalkError>)
    requires
        i <= n.children@.len(),
    ensures
        r is Ok <==> ftypes_ok(*n, i as int),
        r matches Ok(v) ==> ftypes_rel(v@, *n, i as int, src@),
        r matches Err(e) ==> e == WalkError::Parse,
    decreases n, n.children@.len() - i,
{
    if i >= n.children.len() {
        return Ok(Vec::new());
    }
    let c = &n.children[i];
    if fills_field(c, "type") && c.named {
        let x = match walk_type(c, src) {
            Ok(x) => x,
            Err(e) => return Err(e),
        };
        let mut rest = match walk_ftypes(n, i + 1, src) {
            Ok(v) => v,
            Err(e) => return Err(e),
        };
        let ghost tail = rest@;
        rest.insert(0, x);
        proof {
            assert(rest@.drop_first() =~= tail);
        }
        Ok(rest)
    } else {
        walk_ftypes(n, i + 1, src)
    }
}

fn walk_ccases(n: &CstNode, i: usize, src: &[u8]) -> (r: Result<Vec<CommCase>, WalkError>)
    requires
        i <= n.children@.len(),
    ensures
        r is Ok <==> ccases_ok(*n, i as int),
        r matches Ok(v) ==> ccases_rel(v@, *n, i as int, src@),
        r matches Err(e) ==> e == WalkError::Parse,
    decreases n, n.children@.len() - i,
{
    if i >= n.children.len() {
        return Ok(Vec::new());
    }
    let c = &n.children[i];
    if is_plain(c) {
        let x = match walk_ccase(c, src) {
            Ok(x) => x,
            Err(e) => return Err(e),
        };
        let mut rest = match walk_ccases(n, i + 1, src) {
            Ok(v) => v,
            Err(e) => return Err(e),
        };
        let ghost tail = rest@;
        rest.insert(0, x);
        proof {
            assert(rest@.drop_first() =~= tail);
        }
        Ok(rest)
    } else {
        walk_ccases(n, i + 1, src)
    }
}

fn walk_typespecs(n: &CstNode, i: usize, src: &[u8]) -> (r: Result<Vec<TypeSpec>, WalkError>)
    requires
        i <= n.children@.len(),
    ensures
        r is Ok <==> typespecs_ok(*n, i as int),
        r matches Ok(v) ==> typespecs_rel(v@, *n, i as int, src@),
        r matches Err(e) ==> e == WalkError::Parse,
    decreases n, n.children@.len() - i,
{
    if i >= n.children.len() {
        return Ok(Vec::new());
    }
    let c = &n.children[i];
    if is_plain(c) {
        let x = match walk_typespec(c, src) {
            Ok(x) => x,
            Err(e) => return Err(e),
        };
        let mut rest = match walk_typespecs(n, i + 1, src) {
            Ok(v) => v,
            Err(e) => return Err(e),
        };
        let ghost tail = rest@;
        rest.insert(0, x);
        proof {
            assert(rest@.drop_first() =~= tail);
        }
        Ok(rest)
    } else {
        walk_typespecs(n, i + 1, src)
    }
}

fn walk_varspecs(n: &CstNode, i: usize, src: &[u8]) -> (r: Result<Vec<VarSpec>, WalkError>)
    requires
        i <= n.children@.len(),
    ensures
        r is Ok <==> varspecs_ok(*n, i as int),
        r matches Ok(v) ==> varspecs_rel(v@, *n, i as int, src@),
        r matches Err(e) ==> e == WalkError::Parse,
    decreases n, n.children@.len() - i,
{
    if i >= n.children.len() {
        return Ok(Vec::new());
    }
    let c = &n.children[i];
    if is_plain(c) {
        if !kind_is(c, "var_spec") {
            return Err(WalkError::Parse);
        }
        let x = match walk_varspec(c, src) {
            Ok(x) => x,
            Err(e) => return Err(e),
        };
        let mut rest = match walk_varspecs(n, i + 1, src) {
            Ok(v) => v,
            Err(e) => return Err(e),
        };
        let ghost tail = rest@;
        rest.insert(0, x);
        proof {
            assert(rest@.drop_first() =~= tail);
        }
        Ok(rest)
    } else {
        walk_varspecs(n, i + 1, src)
    }
}

fn walk_constspecs(n: &CstNode, i: usize, src: &[u8]) -> (r: Result<Vec<ConstSpec>, WalkError>)
    requires
        i <= n.children@.len(),
    ensures
        r is Ok <==> constspecs_ok(*n, i as int),
        r matches Ok(v) ==> constspecs_rel(v@, *n, i as int, src@),
        r matches Err(e) ==> e == WalkError::Parse,
    decreases n, n.children@.len() - i,
{
    if i >= n.children.len() {
        return Ok(Vec::new());
    }
    let c = &n.children[i];
    if is_plain(c) {
        if !kind_is(c, "const_spec") {
            return Err(WalkError::Parse);
        }
        let x = match walk_constspec(c, src) {
            Ok(x) => x,
            Err(e) => return Err(e),
        };
        let mut rest = match walk_constspecs(n, i + 1, src) {
            Ok(v) => v,
            Err(e) => return Err(e),
        };
        let ghost tail = rest@;
        rest.insert(0, x);
        proof {
            assert(rest@.drop_first() =~= tail);
        }
        Ok(rest)
    } else {
        walk_constspecs(n, i + 1, src)
    }
}

fn walk_imports(n: &CstNode, i: usize, src: &[u8]) -> (r: Result<Vec<ImportSpec>, WalkError>)
    requires
        i <= n.children@.len(),
    ensures
        r is Ok <==> imports_ok(*n, i as int),
        r matches Ok(v) ==> imports_rel(v@, *n, i as int, src@),
        r matches Err(e) ==> e == WalkError::Parse,
    decreases n, n.children@.len() - i,
{
    if i >= n.children.len() {
        return Ok(Vec::new());
    }
    let c = &n.children[i];
    if is_plain(c) {
        let x = match walk_import(c, src) {
            Ok(x) => x,
            Err(e) => return Err(e),
        };
        let mut rest = match walk_imports(n, i + 1, src) {
            Ok(v) => v,
            Err(e) => return Err(e),
        };
        let ghost tail = rest@;
        rest.insert(0, x);
        proof {
            assert(rest@.drop_first() =~= tail);
        }
        Ok(rest)
    } else {
        walk_imports(n, i + 1, src)
    }
}

fn walk_terms(n: &CstNode, i: usize, src: &[u8]) -> (r: Result<Vec<TypeTermElem>, WalkError>)
    requires
        i <= n.children@.len(),
    ensures
        r is Ok <==> terms_ok(*n, i as int),
        r matches Ok(v) ==> terms_rel(v@, *n, i as int, src@),
        r matches Err(e) ==> e == WalkError::Parse,
    decreases n, n.children@.len() - i,
{
    if i >= n.children.len() {
        return Ok(Vec::new());
    }
    let c = &n.children[i];
    if is_plain(c) {
        let x = match walk_term(c, src) {
            Ok(x) => x,
            Err(e) => return Err(e),
        };
        let mut rest = match walk_terms(n, i + 1, src) {
            Ok(v) => v,
            Err(e) => return Err(e),
        };
        let ghost tail = rest@;
        rest.insert(0, x);
        proof {
            assert(rest@.drop_first() =~= tail);
        }
        Ok(rest)
    } else {
        walk_terms(n, i + 1, src)
    }
}

/// Converts a union term.
fn walk_term(n: &CstNode, src: &[u8]) -> (r: Result<TypeTermElem, WalkError>)
    ensures
        r is Ok <==> term_ok(*n),
        r matches Ok(t) ==> term_rel(t, *n, src@),
        r matches Err(e) ==> e == WalkError::Parse,
    decreases n, n.children@.len() + 4,
{
    if kind_is(n, "negated_type") {
        let c = match need_plain(n) { Ok(c) => c, Err(e) => return Err(e) };
        let ty = match walk_type(c, src) { Ok(t) => t, Err(e) => return Err(e) };
        Ok(TypeTermElem { tilde: true, ty, span: n.span })
    } else {
        let ty = match walk_type(n, src) { Ok(t) => t, Err(e) => return Err(e) };
        Ok(TypeTermElem { tilde: false, ty, span: n.span })
    }
}

/// Types for the plain children from `i` on.
fn walk_types(n: &CstNode, i: usize, src: &[u8]) -> (r: Result<Vec<TypeExpr>, WalkError>)
    requires
        i <= n.children@.len(),
    ensures
        r is Ok <==> types_ok(*n, i as int),
        r matches Ok(v) ==> types_rel(v@, *n, i as int, src@),
        r matches Err(e) ==> e == WalkError::Parse,
    decreases n, n.children@.len() - i,
{
    if i >= n.children.len() {
        return Ok(Vec::new());
    }
    let c = &n.children[i];
    if is_plain(c) {
        let x = match walk_type(c, src) {
            Ok(x) => x,
            Err(e) => return Err(e),
        };
        let mut rest = match walk_types(n, i + 1, src) {
            Ok(v) => v,
            Err(e) => return Err(e),
        };
        let ghost tail = rest@;
        rest.insert(0, x);
        proof {
            assert(rest@.drop_first() =~= tail);
        }
        Ok(rest)
    } else {
        walk_types(n, i + 1, src)
    }
}

/// Converts a type node.
pub fn walk_type(n: &CstNode, src: &[u8]) -> (r: Result<TypeExpr, WalkError>)
    ensures
        r is Ok <==> type_ok(*n),
        r matches Ok(t) ==> type_rel(t, *n, src@),
        r matches Err(e) ==> e == WalkError::Parse,
    decreases n, n.children@.len() + 3,
{
    proof {
        lemma_kinds_type_ok();
        lemma_kinds_type_rel();
    }
    if kind_is(n, "type_identifier") {
        Ok(TypeExpr::Named(mk_ident(n, src)))
    } else if kind_is(n, "qualified_type") {
        let p = match need_field(n, "package") { Ok(c) => c, Err(e) => return Err(e) };
        let m = match need_field(n, "name") { Ok(c) => c, Err(e) => return Err(e) };
        Ok(TypeExpr::Qualified { package: mk_ident(p, src), name: mk_ident(m, src) })
    } else if kind_is(n, "pointer_type") {
        let c = match need_plain(n) { Ok(c) => c, Err(e) => return Err(e) };
        let t = match walk_type(c, src) { Ok(t) => t, Err(e) => return Err(e) };
        Ok(TypeExpr::Pointer(Box::new(t)))
    } else if kind_is(n, "negated_type") || kind_is(n, "parenthesized_type") {
        let c = match need_plain(n) { Ok(c) => c, Err(e) => return Err(e) };
        walk_type(c, src)
    } else if kind_is(n, "array_type") {
        let l = match need_field(n, "length") { Ok(c) => c, Err(e) => return Err(e) };
        let len = match walk_expr(l, src) { Ok(x) => x, Err(e) => return Err(e) };
        let el = match need_field(n, "element") { Ok(c) => c, Err(e) => return Err(e) };
        let elem = match walk_type(el, src) { Ok(t) => t, Err(e) => return Err(e) };
        Ok(TypeExpr::Array { len: Box::new(len), elem: Box::new(elem) })
    } else if kind_is(n, "implicit_length_array_type") {
        let el = match need_field(n, "element") { Ok(c) => c, Err(e) => return Err(e) };
        let elem = match walk_type(el, src) { Ok(t) => t, Err(e) => return Err(e) };
        let len = Expr::Ident(Ident { name: "...".to_string(), span: n.span });
        Ok(TypeExpr::Array { len: Box::new(len), elem: Box::new(elem) })
    } else if kind_is(n, "slice_type") {
        let el = match need_field(n, "element") { Ok(c) => c, Err(e) => return Err(e) };
        let elem = match walk_type(el, src) { Ok(t) => t, Err(e) => return Err(e) };
        Ok(TypeExpr::Slice(Box::new(elem)))
    } else if kind_is(n, "map_type") {
        let k = match need_field(n, "key") { Ok(c) => c, Err(e) => return Err(e) };
        let key = match walk_type(k, src) { Ok(t) => t, Err(e) => return Err(e) };
        let v = match need_field(n, "value") { Ok(c) => c, Err(e) => return Err(e) };
        let value = match walk_type(v, src) { Ok(t) => t, Err(e) => return Err(e) };
        Ok(TypeExpr::MapType { key: Box::new(key), value: Box::new(value) })
    } else if kind_is(n, "channel_type") {
        let v = match need_field(n, "value") { Ok(c) => c, Err(e) => return Err(e) };
        let elem = match walk_type(v, src) { Ok(t) => t, Err(e) => return Err(e) };
        Ok(TypeExpr::Channel { direction: chan_direction(src, n.span.start_byte), elem: Box::new(elem) })
    } else if kind_is(n, "struct_type") {
        let l = match need_plain(n) { Ok(c) => c, Err(e) => return Err(e) };
        let fields = match walk_fields(l, 0, src) { Ok(v) => v, Err(e) => return Err(e) };
        Ok(TypeExpr::Struct(StructType { fields, span: n.span }))
    } else if kind_is(n, "interface_type") {
        let elements = match walk_elems(n, 0, src) { Ok(v) => v, Err(e) => return Err(e) };
        Ok(TypeExpr::Interface(InterfaceType { elements, span: n.span }))
    } else if kind_is(n, "function_type") {
        let pl = match need_field(n, "parameters") { Ok(c) => c, Err(e) => return Err(e) };
        let params = match walk_params(pl, 0, src) { Ok(v) => v, Err(e) => return Err(e) };
        let results = match walk_result(n, src) { Ok(v) => v, Err(e) => return Err(e) };
        Ok(TypeExpr::Func(FuncType { type_params: Vec::new(), params, results, span: n.span }))
    } else if kind_is(n, "generic_type") {
        let b = match need_field(n, "type") { Ok(c) => c, Err(e) => return Err(e) };
        let base = match walk_type(b, src) { Ok(t) => t, Err(e) => return Err(e) };
        let a = match need_field(n, "type_arguments") { Ok(c) => c, Err(e) => return Err(e) };
        let args = match walk_targs(a, 0, src) { Ok(v) => v, Err(e) => return Err(e) };
        Ok(TypeExpr::Generic { base: Box::new(base), args })
    } else {
        Err(WalkError::Parse)
    }
}

/// Converts a field declaration.
fn walk_field(n: &CstNode, src: &[u8]) -> (r: Result<FieldDecl, WalkError>)
    ensures
        r is Ok <==> field_ok(*n),
        r matches Ok(f) ==> field_rel(f, *n, src@),
        r matches Err(e) ==> e == WalkError::Parse,
    decreases n, n.children@.len() + 3,
{
    if !kind_is(n, "field_declaration") {
        return Err(WalkError::Parse);
    }
    let tc = match need_field(n, "type") { Ok(c) => c, Err(e) => return Err(e) };
    let ty = match walk_type(tc, src) { Ok(t) => t, Err(e) => return Err(e) };
    proof {
        lemma_field_from_bounds(*n, "tag"@, 0);
        lemma_field_from_bounds(*n, "name"@, 0);
    }
    let tag = match field_child(n, "tag") {
        Some(t) => Some(StringLit { raw: node_text(t, src), span: t.span }),
        None => None,
    };
    if field_child(n, "name").is_some() {
        let names = walk_names(n, "name", 0, src);
        Ok(FieldDecl::Named { names, ty, tag, span: n.span })
    } else {
        Ok(FieldDecl::Embedded { ty, tag, span: n.span })
    }
}

/// Converts an interface element.
fn walk_elem(n: &CstNode, src: &[u8]) -> (r: Result<InterfaceElem, WalkError>)
    ensures
        r is Ok <==> elem_ok(*n),
        r matches Ok(e) ==> elem_rel(e, *n, src@),
        r matches Err(e) ==> e == WalkError::Parse,
    decreases n, n.children@.len() + 3,
{
    proof {
        lemma_kinds_elem_ok();
        lemma_kinds_elem_rel();
    }
    if kind_is(n, "method_elem") {
        let nm = match need_field(n, "name") { Ok(c) => c, Err(e) => return Err(e) };
        let pl = match need_field(n, "parameters") { Ok(c) => c, Err(e) => return Err(e) };
        let params = match walk_params(pl, 0, src) { Ok(v) => v, Err(e) => return Err(e) };
        let results = match walk_result(n, src) { Ok(v) => v, Err(e) => return Err(e) };
        Ok(InterfaceElem::Method {
            name: mk_ident(nm, src),
            ty: FuncType { type_params: Vec::new(), params, results, span: n.span },
            span: n.span,
        })
    } else if kind_is(n, "type_elem") {
        if count_plain(n) == 1 {
            let c = match need_plain(n) { Ok(c) => c, Err(e) => return Err(e) };
            let t = match walk_type(c, src) { Ok(t) => t, Err(e) => return Err(e) };
            Ok(InterfaceElem::Embedded(t))
        } else {
            let terms = match walk_terms(n, 0, src) { Ok(v) => v, Err(e) => return Err(e) };
            Ok(InterfaceElem::TypeTerm(TypeTerm { terms, span: n.span }))
        }
    } else {
        Err(WalkError::Parse)
    }
}

/// Converts a constraint: its one type, or an interface holding the union.
fn walk_union(n: &CstNode, src: &[u8]) -> (r: Result<TypeExpr, WalkError>)
    ensures
        r is Ok <==> union_ok(*n),
        r matches Ok(t) ==> union_rel(t, *n, src@),
        r matches Err(e) ==> e == WalkError::Parse,
    decreases n, n.children@.len() + 2,
{
    if count_plain(n) == 1 {
        let c = match need_plain(n) { Ok(c) => c, Err(e) => return Err(e) };
        walk_type(c, src)
    } else {
        let terms = match walk_terms(n, 0, src) { Ok(v) => v, Err(e) => return Err(e) };
        let tt = TypeTerm { terms, span: n.span };
        let elements = vec![InterfaceElem::TypeTerm(tt)];
        Ok(TypeExpr::Interface(InterfaceType { elements, span: n.span }))
    }
}

/// Converts a parameter declaration.
fn walk_param(n: &CstNode, src: &[u8]) -> (r: Result<ParamDecl, WalkError>)
    ensures
        r is Ok <==> param_ok(*n),
        r matches Ok(p) ==> param_rel(p, *n, src@),
        r matches Err(e) ==> e == WalkError::Parse,
    decreases n, n.children@.len() + 3,
{
    proof {
        lemma_kinds_param_ok();
    }
    let variadic = kind_is(n, "variadic_parameter_declaration");
    if !variadic && !kind_is(n, "parameter_declaration") {
        return Err(WalkError::Parse);
    }
    let tc = match need_field(n, "type") { Ok(c) => c, Err(e) => return Err(e) };
    let ty = match walk_type(tc, src) { Ok(t) => t, Err(e) => return Err(e) };
    Ok(ParamDecl { names: walk_names(n, "name", 0, src), ty, variadic, span: n.span })
}

/// Converts the optional `result` of a signature.
fn walk_result(n: &CstNode, src: &[u8]) -> (r: Result<Vec<ParamDecl>, WalkError>)
    ensures
        r is Ok <==> result_ok(*n),
        r matches Ok(v) ==> result_rel(v@, *n, src@),
        r matches Err(e) ==> e == WalkError::Parse,
    decreases n, n.children@.len() + 2,
{
    proof {
        lemma_field_from_bounds(*n, "result"@, 0);
    }
    match field_child(n, "result") {
        None => Ok(Vec::new()),
        Some(c) => if kind_is(c, "parameter_list") {
            walk_params(c, 0, src)
        } else {
            let ty = match walk_type(c, src) { Ok(t) => t, Err(e) => return Err(e) };
            Ok(vec![ParamDecl { names: Vec::new(), ty, variadic: false, span: c.span }])
        },
    }
}

/// Converts the optional type parameters of a declaration.
fn walk_tparams(n: &CstNode, src: &[u8]) -> (r: Result<Vec<TypeParam>, WalkError>)
    ensures
        r is Ok <==> tparams_ok(*n),
        r matches Ok(v) ==> tparams_rel(v@, *n, src@),
        r matches Err(e) ==> e == WalkError::Parse,
    decreases n, n.children@.len() + 2,
{
    proof {
        lemma_field_from_bounds(*n, "type_parameters"@, 0);
    }
    match field_child(n, "type_parameters") {
        None => Ok(Vec::new()),
        Some(c) => walk_tparam_list(c, 0, src),
    }
}

/// Converts a type parameter declaration.
fn walk_tparam(n: &CstNode, src: &[u8]) -> (r: Result<TypeParam, WalkError>)
    ensures
        r is Ok <==> tparam_ok(*n),
        r matches Ok(t) ==> tparam_rel(t, *n, src@),
        r matches Err(e) ==> e == WalkError::Parse,
    decreases n, n.children@.len() + 3,
{
    if !kind_is(n, "type_parameter_declaration") {
        return Err(WalkError::Parse);
    }
    let tc = match need_field(n, "type") { Ok(c) => c, Err(e) => return Err(e) };
    let constraint = match walk_union(tc, src) { Ok(t) => t, Err(e) => return Err(e) };
    Ok(TypeParam { names: walk_names(n, "name", 0, src), constraint, span: n.span })
}

/// Converts the optional expression in field `f`.
fn walk_opt_expr(n: &CstNode, f: &str, src: &[u8]) -> (r: Result<Option<Box<Expr>>, WalkError>)
    ensures
        r is Ok <==> opt_expr_ok(*n, f@),
        r matches Ok(e) ==> opt_expr_rel(e, *n, f@, src@),
        r matches Err(e) ==> e == WalkError::Parse,
    decreases n, n.children@.len() + 2,
{
    proof {
        lemma_field_from_bounds(*n, f@, 0);
    }
    match field_child(n, f) {
        None => Ok(None),
        Some(c) => match walk_expr(c, src) {
            Ok(x) => Ok(Some(Box::new(x))),
            Err(e) => Err(e),
        },
    }
}

/// Converts an expression node.
pub fn walk_expr(n: &CstNode, src: &[u8]) -> (r: Result<Expr, WalkError>)
    ensures
        r is Ok <==> expr_ok(*n),
        r matches Ok(e) ==> expr_rel(e, *n, src@),
        r matches Err(e) ==> e == WalkError::Parse,
    decreases n, n.children@.len() + 3,
{
    proof {
        lemma_kinds_expr_ok();
        lemma_kinds_expr_rel();
    }
    if kind_is(n, "identifier") {
        Ok(Expr::Ident(mk_ident(n, src)))
    } else if kind_is(n, "int_literal") {
        Ok(Expr::Int(IntLit { raw: node_text(n, src), span: n.span }))
    } else if kind_is(n, "float_literal") {
        Ok(Expr::Float(FloatLit { raw: node_text(n, src), span: n.span }))
    } else if kind_is(n, "imaginary_literal") {
        Ok(Expr::Imaginary(ImaginaryLit { raw: node_text(n, src), span: n.span }))
    } else if kind_is(n, "rune_literal") {
        Ok(Expr::Rune(RuneLit { raw: node_text(n, src), span: n.span }))
    } else if kind_is(n, "interpreted_string_literal") {
        Ok(Expr::String(StringLit { raw: node_text(n, src), span: n.span }))
    } else if kind_is(n, "raw_string_literal") {
        Ok(Expr::RawString(RawStringLit { raw: node_text(n, src), span: n.span }))
    } else if kind_is(n, "true") {
        Ok(Expr::True(n.span))
    } else if kind_is(n, "false") {
        Ok(Expr::False(n.span))
    } else if kind_is(n, "nil") {
        Ok(Expr::Nil(n.span))
    } else if kind_is(n, "iota") {
        Ok(Expr::Iota(n.span))
    } else if kind_is(n, "parenthesized_expression") {
        let c = match need_plain(n) { Ok(c) => c, Err(e) => return Err(e) };
        let x = match walk_expr(c, src) { Ok(x) => x, Err(e) => return Err(e) };
        Ok(Expr::Paren(Box::new(x), n.span))
    } else if kind_is(n, "selector_expression") {
        let o = match need_field(n, "operand") { Ok(c) => c, Err(e) => return Err(e) };
        let operand = match walk_expr(o, src) { Ok(x) => x, Err(e) => return Err(e) };
        let fl = match need_field(n, "field") { Ok(c) => c, Err(e) => return Err(e) };
        Ok(Expr::Selector { operand: Box::new(operand), field: mk_ident(fl, src), span: n.span })
    } else if kind_is(n, "index_expression") {
        let o = match need_field(n, "operand") { Ok(c) => c, Err(e) => return Err(e) };
        let operand = match walk_expr(o, src) { Ok(x) => x, Err(e) => return Err(e) };
        let ix = match need_field(n, "index") { Ok(c) => c, Err(e) => return Err(e) };
        let index = match walk_expr(ix, src) { Ok(x) => x, Err(e) => return Err(e) };
        Ok(Expr::Index { operand: Box::new(operand), index: Box::new(index), span: n.span })
    } else if kind_is(n, "slice_expression") {
        let o = match need_field(n, "operand") { Ok(c) => c, Err(e) => return Err(e) };
        let operand = match walk_expr(o, src) { Ok(x) => x, Err(e) => return Err(e) };
        let low = match walk_opt_expr(n, "start", src) { Ok(x) => x, Err(e) => return Err(e) };
        let high = match walk_opt_expr(n, "end", src) { Ok(x) => x, Err(e) => return Err(e) };
        let max = match walk_opt_expr(n, "capacity", src) { Ok(x) => x, Err(e) => return Err(e) };
        Ok(Expr::Slice { operand: Box::new(operand), low, high, max, span: n.span })
    } else if kind_is(n, "call_expression") {
        let fc = match need_field(n, "function") { Ok(c) => c, Err(e) => return Err(e) };
        let func = match walk_expr(fc, src) { Ok(x) => x, Err(e) => return Err(e) };
        proof {
            lemma_field_from_bounds(*n, "type_arguments"@, 0);
        }
        let type_args = match field_child(n, "type_arguments") {
            None => Vec::new(),
            Some(ta) => match walk_targs(ta, 0, src) {
                Ok(v) => v,
                Err(e) => return Err(e),
            },
        };
        let al = match need_field(n, "arguments") { Ok(c) => c, Err(e) => return Err(e) };
        let args = match walk_args(al, 0, src) { Ok(v) => v, Err(e) => return Err(e) };
        let ellipsis = any_variadic(al, 0);
        Ok(Expr::Call { func: Box::new(func), type_args, args, ellipsis, span: n.span })
    } else if kind_is(n, "type_conversion_expression") {
        let tc = match need_field(n, "type") { Ok(c) => c, Err(e) => return Err(e) };
        let t = match walk_type(tc, src) { Ok(t) => t, Err(e) => return Err(e) };
        let ghost gt = t;
        let func = type_to_expr(t, n.span);
        let o = match need_field(n, "operand") { Ok(c) => c, Err(e) => return Err(e) };
        let operand = match walk_expr(o, src) { Ok(x) => x, Err(e) => return Err(e) };
        let args = vec![operand];
        proof {
            assert(type_rel(gt, n.children@[field_at(*n, "type"@)], src@) && type_as_expr(func, gt, n.span));
        }
        let r = Expr::Call { func: Box::new(func), type_args: Vec::new(), args, ellipsis: false, span: n.span };
        proof {
            assert(expr_rel(r, *n, src@));
        }
        Ok(r)
    } else if kind_is(n, "type_assertion_expression") {
        let tc = match need_field(n, "type") { Ok(c) => c, Err(e) => return Err(e) };
        let ty = match walk_type(tc, src) { Ok(t) => t, Err(e) => return Err(e) };
        let o = match need_field(n, "operand") { Ok(c) => c, Err(e) => return Err(e) };
        let operand = match walk_expr(o, src) { Ok(x) => x, Err(e) => return Err(e) };
        Ok(Expr::TypeAssert { operand: Box::new(operand), ty: Box::new(ty), span: n.span })
    } else if kind_is(n, "type_instantiation_expression") {
        let tc = match need_field(n, "type") { Ok(c) => c, Err(e) => return Err(e) };
        let base = match walk_type(tc, src) { Ok(t) => t, Err(e) => return Err(e) };
        let args = match walk_types(n, 0, src) { Ok(v) => v, Err(e) => return Err(e) };
        let t = TypeExpr::Generic { base: Box::new(base), args };
        let ghost gt = t;
        let e = type_to_expr(t, n.span);
        proof {
            assert(expr_rel(e, *n, src@));
        }
        Ok(e)
    } else if kind_is(n, "unary_expression") {
        let o = match need_field(n, "operand") { Ok(c) => c, Err(e) => return Err(e) };
        let operand = match walk_expr(o, src) { Ok(x) => x, Err(e) => return Err(e) };
        let oc = match need_field(n, "operator") { Ok(c) => c, Err(e) => return Err(e) };
        let op = match unary_op_of(oc) { Some(op) => op, None => return Err(WalkError::Parse) };
        Ok(Expr::Unary { op, operand: Box::new(operand), span: n.span })
    } else if kind_is(n, "binary_expression") {
        let l = match need_field(n, "left") { Ok(c) => c, Err(e) => return Err(e) };
        let left = match walk_expr(l, src) { Ok(x) => x, Err(e) => return Err(e) };
        let rc = match need_field(n, "right") { Ok(c) => c, Err(e) => return Err(e) };
        let right = match walk_expr(rc, src) { Ok(x) => x, Err(e) => return Err(e) };
        let oc = match need_field(n, "operator") { Ok(c) => c, Err(e) => return Err(e) };
        let op = match binary_op_of(oc) { Some(op) => op, None => return Err(WalkError::Parse) };
        Ok(Expr::Binary { op, left: Box::new(left), right: Box::new(right), span: n.span })
    } else if kind_is(n, "composite_literal") {
        let tc = match need_field(n, "type") { Ok(c) => c, Err(e) => return Err(e) };
        let ty = match walk_type(tc, src) { Ok(t) => t, Err(e) => return Err(e) };
        let b = match need_field(n, "body") { Ok(c) => c, Err(e) => return Err(e) };
        let elems = match walk_litvals(b, 0, src) { Ok(v) => v, Err(e) => return Err(e) };
        Ok(Expr::Composite { ty: Box::new(ty), elems, span: n.span })
    } else if kind_is(n, "func_literal") {
        let pl = match need_field(n, "parameters") { Ok(c) => c, Err(e) => return Err(e) };
        let params = match walk_params(pl, 0, src) { Ok(v) => v, Err(e) => return Err(e) };
        let results = match walk_result(n, src) { Ok(v) => v, Err(e) => return Err(e) };
        let b = match need_field(n, "body") { Ok(c) => c, Err(e) => return Err(e) };
        let body = match walk_block(b, src) { Ok(x) => x, Err(e) => return Err(e) };
        Ok(Expr::FuncLit { ty: FuncType { type_params: Vec::new(), params, results, span: n.span }, body, span: n.span })
    } else {
        Err(WalkError::Parse)
    }
}

/// The unary operator of an operator token.
fn unary_op_of(n: &CstNode) -> (r: Option<UnaryOp>)
    ensures
        r == unary_op(n.kind@),
{
    proof {
        lemma_kinds_unary_op();
    }
    if kind_is(n, "!") { Some(UnaryOp::Not) }
    else if kind_is(n, "-") { Some(UnaryOp::Neg) }
    else if kind_is(n, "+") { Some(UnaryOp::Pos) }
    else if kind_is(n, "*") { Some(UnaryOp::Deref) }
    else if kind_is(n, "&") { Some(UnaryOp::Addr) }
    else if kind_is(n, "<-") { Some(UnaryOp::Recv) }
    else if kind_is(n, "^") { Some(UnaryOp::BitNot) }
    else { None }
}

/// The binary operator of an operator token.
fn binary_op_of(n: &CstNode) -> (r: Option<BinaryOp>)
    ensures
        r == binary_op(n.kind@),
{
    proof {
        lemma_kinds_binary_op();
    }
    if kind_is(n, "+") { Some(BinaryOp::Add) }
    else if kind_is(n, "-") { Some(BinaryOp::Sub) }
    else if kind_is(n, "*") { Some(BinaryOp::Mul) }
    else if kind_is(n, "/") { Some(BinaryOp::Div) }
    else if kind_is(n, "%") { Some(BinaryOp::Rem) }
    else if kind_is(n, "&") { Some(BinaryOp::And) }
    else if kind_is(n, "|") { Some(BinaryOp::Or) }
    else if kind_is(n, "^") { Some(BinaryOp::Xor) }
    else if kind_is(n, "&^") { Some(BinaryOp::AndNot) }
    else if kind_is(n, "<<") { Some(BinaryOp::Shl) }
    else if kind_is(n, ">>") { Some(BinaryOp::Shr) }
    else if kind_is(n, "&&") { Some(BinaryOp::LogAnd) }
    else if kind_is(n, "||") { Some(BinaryOp::LogOr) }
    else if kind_is(n, "==") { Some(BinaryOp::Eq) }
    else if kind_is(n, "!=") { Some(BinaryOp::Ne) }
    else if kind_is(n, "<") { Some(BinaryOp::Lt) }
    else if kind_is(n, "<=") { Some(BinaryOp::Le) }
    else if kind_is(n, ">") { Some(BinaryOp::Gt) }
    else if kind_is(n, ">=") { Some(BinaryOp::Ge) }
    else { None }
}

/// The assignment operator of an operator token.
fn assign_op_of(n: &CstNode) -> (r: Option<AssignOp>)
    ensures
        r == assign_op(n.kind@),
{
    proof {
        lemma_kinds_assign_op();
    }
    if kind_is(n, "=") { Some(AssignOp::Assign) }
    else if kind_is(n, "+=") { Some(AssignOp::AddAssign) }
    else if kind_is(n, "-=") { Some(AssignOp::SubAssign) }
    else if kind_is(n, "*=") { Some(AssignOp::MulAssign) }
    else if kind_is(n, "/=") { Some(AssignOp::DivAssign) }
    else if kind_is(n, "%=") { Some(AssignOp::RemAssign) }
    else if kind_is(n, "&=") { Some(AssignOp::AndAssign) }
    else if kind_is(n, "|=") { Some(AssignOp::OrAssign) }
    else if kind_is(n, "^=") { Some(AssignOp::XorAssign) }
    else if kind_is(n, "&^=") { Some(AssignOp::AndNotAssign) }
    else if kind_is(n, "<<=") { Some(AssignOp::ShlAssign) }
    else if kind_is(n, ">>=") { Some(AssignOp::ShrAssign) }
    else { None }
}

/// Whether a plain child from `i` on is a variadic argument.
fn any_variadic(n: &CstNode, i: usize) -> (b: bool)
    requires
        i <= n.children@.len(),
    ensures
        b == has_variadic(*n, i as int),
    decreases n.children@.len() - i,
{
    if i >= n.children.len() {
        false
    } else {
        (is_plain(&n.children[i]) && kind_is(&n.children[i], "variadic_argument")) || any_variadic(n, i + 1)
    }
}

/// Converts a call argument.
fn walk_arg(n: &CstNode, src: &[u8]) -> (r: Result<Expr, WalkError>)
    ensures
        r is Ok <==> arg_ok(*n),
        r matches Ok(e) ==> arg_rel(e, *n, src@),
        r matches Err(e) ==> e == WalkError::Parse,
    decreases n, n.children@.len() + 4,
{
    proof {
        lemma_kinds_is_type_kind();
    }
    if kind_is(n, "variadic_argument") {
        let c = match need_plain(n) { Ok(c) => c, Err(e) => return Err(e) };
        walk_expr(c, src)
    } else if is_type_kind_of(n) {
        let t = match walk_type(n, src) { Ok(t) => t, Err(e) => return Err(e) };
        let ghost gt = t;
        let e = type_to_expr(t, n.span);
        proof {
            assert(type_rel(gt, *n, src@) && type_as_expr(e, gt, n.span));
            assert(is_type_kind(n.kind@));
            assert(arg_rel(e, *n, src@));
        }
        Ok(e)
    } else {
        walk_expr(n, src)
    }
}

/// Whether a node's kind converts to a type.
fn is_type_kind_of(n: &CstNode) -> (b: bool)
    ensures
        b == is_type_kind(n.kind@),
{
    proof {
        lemma_kinds_is_type_kind();
    }
    kind_is(n, "type_identifier") || kind_is(n, "qualified_type") || kind_is(n, "pointer_type") || kind_is(
        n,
        "array_type",
    ) || kind_is(n, "implicit_length_array_type") || kind_is(n, "slice_type") || kind_is(n, "map_type")
        || kind_is(n, "channel_type") || kind_is(n, "struct_type") || kind_is(n, "interface_type") || kind_is(
        n,
        "function_type",
    ) || kind_is(n, "generic_type") || kind_is(n, "negated_type") || kind_is(n, "parenthesized_type")
}

/// Converts an element of a literal value.
fn walk_keyed(n: &CstNode, src: &[u8]) -> (r: Result<KeyedElem, WalkError>)
    ensures
        r is Ok <==> keyed_ok(*n),
        r matches Ok(k) ==> keyed_rel(k, *n, src@),
        r matches Err(e) ==> e == WalkError::Parse,
    decreases n, n.children@.len() + 3,
{
    proof {
        lemma_kinds_keyed_ok();
    }
    if kind_is(n, "keyed_element") {
        let kc = match need_field(n, "key") { Ok(c) => c, Err(e) => return Err(e) };
        let key = match walk_litelem(kc, src) { Ok(x) => x, Err(e) => return Err(e) };
        let vc = match need_field(n, "value") { Ok(c) => c, Err(e) => return Err(e) };
        let value = match walk_litelem(vc, src) { Ok(x) => x, Err(e) => return Err(e) };
        Ok(KeyedElem { key: Some(key), value, span: n.span })
    } else if kind_is(n, "literal_element") {
        let value = match walk_litelem(n, src) { Ok(x) => x, Err(e) => return Err(e) };
        Ok(KeyedElem { key: None, value, span: n.span })
    } else {
        Err(WalkError::Parse)
    }
}

/// Converts a literal element: an expression, or a nested literal value.
fn walk_litelem(n: &CstNode, src: &[u8]) -> (r: Result<Expr, WalkError>)
    ensures
        r is Ok <==> litelem_ok(*n),
        r matches Ok(e) ==> litelem_rel(e, *n, src@),
        r matches Err(e) ==> e == WalkError::Parse,
    decreases n, n.children@.len() + 2,
{
    let c = match need_plain(n) { Ok(c) => c, Err(e) => return Err(e) };
    if kind_is(c, "literal_value") {
        let elems = match walk_litvals(c, 0, src) { Ok(v) => v, Err(e) => return Err(e) };
        let ty = TypeExpr::Named(Ident::synthetic(""));
        proof {
            reveal_strlit("");
            assert(""@ =~= Seq::<char>::empty());
        }
        Ok(Expr::Composite { ty: Box::new(ty), elems, span: c.span })
    } else {
        walk_expr(c, src)
    }
}

/// Converts a block.
pub fn walk_block(n: &CstNode, src: &[u8]) -> (r: Result<Block, WalkError>)
    ensures
        r is Ok <==> block_ok(*n),
        r matches Ok(b) ==> block_rel(b, *n, src@),
        r matches Err(e) ==> e == WalkError::Parse,
    decreases n, n.children@.len() + 3,
{
    let stmts = match walk_body(n, src) { Ok(v) => v, Err(e) => return Err(e) };
    Ok(Block { stmts, span: n.span })
}

/// Converts the optional statement list among the plain children.
fn walk_body(n: &CstNode, src: &[u8]) -> (r: Result<Vec<Stmt>, WalkError>)
    ensures
        r is Ok <==> body_ok(*n),
        r matches Ok(v) ==> body_rel(v@, *n, src@),
        r matches Err(e) ==> e == WalkError::Parse,
    decreases n, n.children@.len() + 2,
{
    proof {
        lemma_plain_from_bounds(*n, 0);
    }
    match first_plain_child(n) {
        None => Ok(Vec::new()),
        Some(c) => walk_stmts(c, 0, src),
    }
}

/// Converts the optional simple statement in field `f`.
fn walk_init(n: &CstNode, f: &str, src: &[u8]) -> (r: Result<Option<Box<Stmt>>, WalkError>)
    ensures
        r is Ok <==> init_ok(*n, f@),
        r matches Ok(s) ==> init_rel(s, *n, f@, src@),
        r matches Err(e) ==> e == WalkError::Parse,
    decreases n, n.children@.len() + 2,
{
    proof {
        lemma_kinds_is_simple_kind();
    }
    proof {
        lemma_field_from_bounds(*n, f@, 0);
    }
    match field_child(n, f) {
        None => Ok(None),
        Some(c) => {
            if !is_simple_kind_of(c) {
                return Err(WalkError::Parse);
            }
            match walk_stmt(c, src) {
                Ok(s) => Ok(Some(Box::new(s))),
                Err(e) => Err(e),
            }
        },
    }
}

/// Whether a node's kind is a simple statement's.
fn is_simple_kind_of(n: &CstNode) -> (b: bool)
    ensures
        b == is_simple_kind(n.kind@),
{
    proof {
        lemma_kinds_is_simple_kind();
    }
    kind_is(n, "assignment_statement") || kind_is(n, "short_var_declaration") || kind_is(n, "inc_statement")
        || kind_is(n, "dec_statement") || kind_is(n, "send_statement") || kind_is(n, "expression_statement")
}

/// Converts the optional expression list among the plain children.
fn walk_plain_exprs(n: &CstNode, src: &[u8]) -> (r: Result<Vec<Expr>, WalkError>)
    ensures
        r is Ok <==> plain_exprs_ok(*n),
        r matches Ok(v) ==> plain_exprs_rel(v@, *n, src@),
        r matches Err(e) ==> e == WalkError::Parse,
    decreases n, n.children@.len() + 2,
{
    proof {
        lemma_plain_from_bounds(*n, 0);
    }
    match first_plain_child(n) {
        None => Ok(Vec::new()),
        Some(c) => walk_exprs(c, 0, src),
    }
}

/// Converts the optional expression list in field `f`.
fn walk_field_exprs(n: &CstNode, f: &str, src: &[u8]) -> (r: Result<Vec<Expr>, WalkError>)
    ensures
        r is Ok <==> field_exprs_ok(*n, f@),
        r matches Ok(v) ==> field_exprs_rel(v@, *n, f@, src@),
        r matches Err(e) ==> e == WalkError::Parse,
    decreases n, n.children@.len() + 2,
{
    proof {
        lemma_field_from_bounds(*n, f@, 0);
    }
    match field_child(n, f) {
        None => Ok(Vec::new()),
        Some(c) => walk_exprs(c, 0, src),
    }
}

/// Converts the optional expression in field `f`.
fn walk_field_expr(n: &CstNode, f: &str, src: &[u8]) -> (r: Result<Option<Expr>, WalkError>)
    ensures
        r is Ok <==> opt_expr_ok(*n, f@),
        r matches Ok(e) ==> field_expr_rel(e, *n, f@, src@),
        r matches Err(e) ==> e == WalkError::Parse,
    decreases n, n.children@.len() + 2,
{
    proof {
        lemma_field_from_bounds(*n, f@, 0);
    }
    match field_child(n, f) {
        None => Ok(None),
        Some(c) => match walk_expr(c, src) {
            Ok(x) => Ok(Some(x)),
            Err(e) => Err(e),
        },
    }
}

/// The optional label among the plain children.
fn walk_label(n: &CstNode, src: &[u8]) -> (l: Option<Ident>)
    ensures
        label_rel(l, *n, src@),
{
    proof {
        lemma_plain_from_bounds(*n, 0);
    }
    match first_plain_child(n) {
        None => None,
        Some(c) => Some(mk_ident(c, src)),
    }
}

/// Converts a statement node.
pub fn walk_stmt(n: &CstNode, src: &[u8]) -> (r: Result<Stmt, WalkError>)
    ensures
        r is Ok <==> stmt_ok(*n),
        r matches Ok(s) ==> stmt_rel(s, *n, src@),
        r matches Err(e) ==> e == WalkError::Parse,
    decreases n, n.children@.len() + 3,
{
    proof {
        lemma_kinds_stmt_ok();
        lemma_kinds_stmt_rel();
    }
    if kind_is(n, "assignment_statement") {
        let l = match need_field(n, "left") { Ok(c) => c, Err(e) => return Err(e) };
        let lhs = match walk_exprs(l, 0, src) { Ok(v) => v, Err(e) => return Err(e) };
        let rc = match need_field(n, "right") { Ok(c) => c, Err(e) => return Err(e) };
        let rhs = match walk_exprs(rc, 0, src) { Ok(v) => v, Err(e) => return Err(e) };
        let oc = match need_field(n, "operator") { Ok(c) => c, Err(e) => return Err(e) };
        let op = match assign_op_of(oc) { Some(op) => op, None => return Err(WalkError::Parse) };
        Ok(Stmt::Assign { lhs, op, rhs, span: n.span })
    } else if kind_is(n, "short_var_declaration") {
        let l = match need_field(n, "left") { Ok(c) => c, Err(e) => return Err(e) };
        let rc = match need_field(n, "right") { Ok(c) => c, Err(e) => return Err(e) };
        let values = match walk_exprs(rc, 0, src) { Ok(v) => v, Err(e) => return Err(e) };
        Ok(Stmt::ShortVarDecl { names: walk_plain_idents(l, 0, src), values, span: n.span })
    } else if kind_is(n, "inc_statement") || kind_is(n, "dec_statement") || kind_is(n, "expression_statement")
        || kind_is(n, "go_statement") || kind_is(n, "defer_statement") {
        let c = match need_plain(n) { Ok(c) => c, Err(e) => return Err(e) };
        let x = match walk_expr(c, src) { Ok(x) => x, Err(e) => return Err(e) };
        if kind_is(n, "inc_statement") {
            Ok(Stmt::Inc(x, n.span))
        } else if kind_is(n, "dec_statement") {
            Ok(Stmt::Dec(x, n.span))
        } else if kind_is(n, "expression_statement") {
            Ok(Stmt::Expr(x, n.span))
        } else if kind_is(n, "go_statement") {
            Ok(Stmt::Go(x, n.span))
        } else {
            Ok(Stmt::Defer(x, n.span))
        }
    } else if kind_is(n, "send_statement") {
        let ch = match need_field(n, "channel") { Ok(c) => c, Err(e) => return Err(e) };
        let channel = match walk_expr(ch, src) { Ok(x) => x, Err(e) => return Err(e) };
        let vc = match need_field(n, "value") { Ok(c) => c, Err(e) => return Err(e) };
        let value = match walk_expr(vc, src) { Ok(x) => x, Err(e) => return Err(e) };
        Ok(Stmt::Send { channel, value, span: n.span })
    } else if kind_is(n, "block") {
        let stmts = match walk_body(n, src) { Ok(v) => v, Err(e) => return Err(e) };
        Ok(Stmt::Block(Block { stmts, span: n.span }))
    } else if kind_is(n, "return_statement") {
        let values = match walk_plain_exprs(n, src) { Ok(v) => v, Err(e) => return Err(e) };
        Ok(Stmt::Return { values, span: n.span })
    } else if kind_is(n, "if_statement") {
        let init = match walk_init(n, "initializer", src) { Ok(x) => x, Err(e) => return Err(e) };
        let cc = match need_field(n, "condition") { Ok(c) => c, Err(e) => return Err(e) };
        let cond = match walk_expr(cc, src) { Ok(x) => x, Err(e) => return Err(e) };
        let bc = match need_field(n, "consequence") { Ok(c) => c, Err(e) => return Err(e) };
        let body = match walk_block(bc, src) { Ok(x) => x, Err(e) => return Err(e) };
        proof {
            lemma_field_from_bounds(*n, "alternative"@, 0);
        }
        let else_ = match field_child(n, "alternative") {
            None => None,
            Some(a) => if kind_is(a, "block") {
                match walk_block(a, src) {
                    Ok(b) => Some(Box::new(Stmt::Block(b))),
                    Err(e) => return Err(e),
                }
            } else if kind_is(a, "if_statement") {
                match walk_stmt(a, src) {
                    Ok(s) => Some(Box::new(s)),
                    Err(e) => return Err(e),
                }
            } else {
                return Err(WalkError::Parse);
            },
        };
        Ok(Stmt::If { init, cond, body, else_, span: n.span })
    } else if kind_is(n, "for_statement") {
        walk_for(n, src)
    } else if kind_is(n, "expression_switch_statement") {
        let init = match walk_init(n, "initializer", src) { Ok(x) => x, Err(e) => return Err(e) };
        let tag = match walk_field_expr(n, "value", src) { Ok(x) => x, Err(e) => return Err(e) };
        let cases = match walk_ecases(n, 0, src) { Ok(v) => v, Err(e) => return Err(e) };
        Ok(Stmt::Switch { init, tag, cases, span: n.span })
    } else if kind_is(n, "type_switch_statement") {
        let init = match walk_init(n, "initializer", src) { Ok(x) => x, Err(e) => return Err(e) };
        let name = walk_alias(n, src);
        let vc = match need_field(n, "value") { Ok(c) => c, Err(e) => return Err(e) };
        let expr = match walk_expr(vc, src) { Ok(x) => x, Err(e) => return Err(e) };
        let cases = match walk_tcases(n, 0, src) { Ok(v) => v, Err(e) => return Err(e) };
        proof {
            lemma_field_from_bounds(*n, "alias"@, 0);
        }
        let gspan = match field_child(n, "alias") {
            None => vc.span,
            Some(a) => Span {
                start_byte: a.span.start_byte,
                end_byte: vc.span.end_byte,
                start_row: a.span.start_row,
                start_col: a.span.start_col,
                end_row: vc.span.end_row,
                end_col: vc.span.end_col,
            },
        };
        Ok(Stmt::TypeSwitch { init, assign: TypeSwitchAssign { name, expr, span: gspan }, cases, span: n.span })
    } else if kind_is(n, "select_statement") {
        let cases = match walk_ccases(n, 0, src) { Ok(v) => v, Err(e) => return Err(e) };
        Ok(Stmt::Select { cases, span: n.span })
    } else if kind_is(n, "break_statement") {
        Ok(Stmt::Break(walk_label(n, src), n.span))
    } else if kind_is(n, "continue_statement") {
        Ok(Stmt::Continue(walk_label(n, src), n.span))
    } else if kind_is(n, "goto_statement") {
        let c = match need_plain(n) { Ok(c) => c, Err(e) => return Err(e) };
        Ok(Stmt::Goto(mk_ident(c, src), n.span))
    } else if kind_is(n, "fallthrough_statement") {
        Ok(Stmt::Fallthrough(n.span))
    } else if kind_is(n, "empty_statement") {
        Ok(Stmt::Empty(n.span))
    } else if kind_is(n, "labeled_statement") {
        let lc = match need_field(n, "label") { Ok(c) => c, Err(e) => return Err(e) };
        let label = mk_ident(lc, src);
        proof {
            lemma_plain_from_bounds(*n, 0);
        }
        let body = match first_plain_child(n) {
            None => Stmt::Empty(n.span),
            Some(c) => match walk_stmt(c, src) {
                Ok(s) => s,
                Err(e) => return Err(e),
            },
        };
        Ok(Stmt::Labeled { label, body: Box::new(body), span: n.span })
    } else if kind_is(n, "type_declaration") {
        let specs = match walk_typespecs(n, 0, src) { Ok(v) => v, Err(e) => return Err(e) };
        proof {
            lemma_typespecs_count(specs@, *n, 0, src@);
        }
        if specs.len() > 0 {
            Ok(Stmt::TypeDecl(specs, n.span))
        } else {
            Ok(Stmt::Empty(n.span))
        }
    } else if kind_is(n, "var_declaration") {
        let specs = match walk_var_decl(n, src) { Ok(v) => v, Err(e) => return Err(e) };
        proof {
            lemma_var_decl_count(specs@, *n, src@);
        }
        if specs.len() > 0 {
            Ok(Stmt::VarDecl(specs, n.span))
        } else {
            Ok(Stmt::Empty(n.span))
        }
    } else if kind_is(n, "const_declaration") {
        let specs = match walk_constspecs(n, 0, src) { Ok(v) => v, Err(e) => return Err(e) };
        proof {
            lemma_constspecs_count(specs@, *n, 0, src@);
        }
        if specs.len() > 0 {
            Ok(Stmt::ConstDecl(specs, n.span))
        } else {
            Ok(Stmt::Empty(n.span))
        }
    } else {
        Err(WalkError::Parse)
    }
}

/// The name a type switch binds.
fn walk_alias(n: &CstNode, src: &[u8]) -> (name: Option<Ident>)
    ensures
        alias_rel(name, *n, src@),
{
    proof {
        lemma_field_from_bounds(*n, "alias"@, 0);
    }
    match field_child(n, "alias") {
        None => None,
        Some(a) => {
            proof {
                lemma_plain_from_bounds(*a, 0);
            }
            match first_plain_child(a) {
                Some(c) => if kind_is(c, "identifier") {
                    Some(mk_ident(c, src))
                } else {
                    None
                },
                None => None,
            }
        },
    }
}

/// Converts a `for` statement.
fn walk_for(n: &CstNode, src: &[u8]) -> (r: Result<Stmt, WalkError>)
    requires
        n.kind@ == "for_statement"@,
    ensures
        r is Ok <==> stmt_ok(*n),
        r matches Ok(s) ==> stmt_rel(s, *n, src@),
        r matches Err(e) ==> e == WalkError::Parse,
    decreases n, n.children@.len() + 2,
{
    proof {
        lemma_kinds_stmt_ok();
        lemma_kinds_stmt_rel();
    }
    let bc = match need_field(n, "body") { Ok(c) => c, Err(e) => return Err(e) };
    proof {
        lemma_plain_from_bounds(*n, 0);
    }
    match first_plain_child(n) {
        None => {
            let body = match walk_block(bc, src) { Ok(x) => x, Err(e) => return Err(e) };
            Ok(Stmt::For { init: None, cond: None, post: None, body, span: n.span })
        },
        Some(cl) => walk_clause(n, cl, bc, src),
    }
}

/// Converts a `for` statement with a clause: a three-part loop, a range loop,
/// or a loop on a condition.
fn walk_clause(f: &CstNode, n: &CstNode, bc: &CstNode, src: &[u8]) -> (r: Result<Stmt, WalkError>)
    requires
        has_child(*f, first_plain(*f)),
        *n == f.children@[first_plain(*f)],
        has_child(*f, field_at(*f, "body"@)),
        *bc == f.children@[field_at(*f, "body"@)],
    ensures
        r is Ok <==> (clause_ok(*n) && block_ok(*bc)),
        r matches Ok(s) ==> clause_rel(s, *f, src@),
        r matches Err(e) ==> e == WalkError::Parse,
    decreases f, f.children@.len() + 1,
{
    proof {
        lemma_kinds_clause_ok();
        lemma_kinds_clause_rel();
    }
    if kind_is(n, "for_clause") {
        let init = match walk_init(n, "initializer", src) { Ok(x) => x, Err(e) => return Err(e) };
        let cond = match walk_field_expr(n, "condition", src) { Ok(x) => x, Err(e) => return Err(e) };
        let post = match walk_init(n, "update", src) { Ok(x) => x, Err(e) => return Err(e) };
        let body = match walk_block(bc, src) { Ok(x) => x, Err(e) => return Err(e) };
        Ok(Stmt::For { init, cond, post, body, span: f.span })
    } else if kind_is(n, "range_clause") {
        proof {
            lemma_field_from_bounds(*n, "left"@, 0);
        }
        let (key, value, assign) = match field_child(n, "left") {
            None => (None, None, RangeAssign::Bare),
            Some(l) => {
                let mut exprs = match walk_exprs(l, 0, src) { Ok(v) => v, Err(e) => return Err(e) };
                let rc = match need_field(n, "right") { Ok(c) => c, Err(e) => return Err(e) };
                proof {
                    lemma_exprs_first_two(exprs@, *l, src@);
                }
                let ghost es = exprs@;
                let key = if exprs.len() > 0 { Some(exprs.remove(0)) } else { None };
                let value = if exprs.len() > 0 { Some(exprs.remove(0)) } else { None };
                proof {
                    if es.len() > 1 {
                        assert(value == Some(es[1]));
                    }
                }
                let assign = if find_define(src, l.span.end_byte, rc.span.start_byte) {
                    RangeAssign::Define
                } else {
                    RangeAssign::Assign
                };
                (key, value, assign)
            },
        };
        let rc = match need_field(n, "right") { Ok(c) => c, Err(e) => return Err(e) };
        let iterable = match walk_expr(rc, src) { Ok(x) => x, Err(e) => return Err(e) };
        let body = match walk_block(bc, src) { Ok(x) => x, Err(e) => return Err(e) };
        Ok(Stmt::ForRange { key, value, assign, iterable: Box::new(iterable), body, span: f.span })
    } else {
        let cond = match walk_expr(n, src) { Ok(x) => x, Err(e) => return Err(e) };
        let body = match walk_block(bc, src) { Ok(x) => x, Err(e) => return Err(e) };
        Ok(Stmt::For { init: None, cond: Some(cond), post: None, body, span: f.span })
    }
}

/// Converts a case of an expression switch.
fn walk_ecase(n: &CstNode, src: &[u8]) -> (r: Result<ExprCase, WalkError>)
    ensures
        r is Ok <==> ecase_ok(*n),
        r matches Ok(c) ==> ecase_rel(c, *n, src@),
        r matches Err(e) ==> e == WalkError::Parse,
    decreases n, n.children@.len() + 3,
{
    proof {
        lemma_kinds_ecase_ok();
    }
    if kind_is(n, "expression_case") {
        let vc = match need_field(n, "value") { Ok(c) => c, Err(e) => return Err(e) };
        let exprs = match walk_exprs(vc, 0, src) { Ok(v) => v, Err(e) => return Err(e) };
        let body = match walk_body(n, src) { Ok(v) => v, Err(e) => return Err(e) };
        Ok(ExprCase { exprs, body, span: n.span })
    } else if kind_is(n, "default_case") {
        let body = match walk_body(n, src) { Ok(v) => v, Err(e) => return Err(e) };
        Ok(ExprCase { exprs: Vec::new(), body, span: n.span })
    } else {
        Err(WalkError::Parse)
    }
}

/// Converts a case of a type switch.
fn walk_tcase(n: &CstNode, src: &[u8]) -> (r: Result<TypeCase, WalkError>)
    ensures
        r is Ok <==> tcase_ok(*n),
        r matches Ok(c) ==> tcase_rel(c, *n, src@),
        r matches Err(e) ==> e == WalkError::Parse,
    decreases n, n.children@.len() + 3,
{
    proof {
        lemma_kinds_tcase_ok();
    }
    if kind_is(n, "type_case") {
        let types = match walk_ftypes(n, 0, src) { Ok(v) => v, Err(e) => return Err(e) };
        let body = match walk_body(n, src) { Ok(v) => v, Err(e) => return Err(e) };
        Ok(TypeCase { types, body, span: n.span })
    } else if kind_is(n, "default_case") {
        let body = match walk_body(n, src) { Ok(v) => v, Err(e) => return Err(e) };
        Ok(TypeCase { types: Vec::new(), body, span: n.span })
    } else {
        Err(WalkError::Parse)
    }
}

/// Converts a case of a `select` statement.
fn walk_ccase(n: &CstNode, src: &[u8]) -> (r: Result<CommCase, WalkError>)
    ensures
        r is Ok <==> ccase_ok(*n),
        r matches Ok(c) ==> ccase_rel(c, *n, src@),
        r matches Err(e) ==> e == WalkError::Parse,
    decreases n, n.children@.len() + 3,
{
    proof {
        lemma_kinds_ccase_ok();
        lemma_kinds_ccase_rel();
    }
    if kind_is(n, "communication_case") {
        let body = match walk_body(n, src) { Ok(v) => v, Err(e) => return Err(e) };
        let m = match need_field(n, "communication") { Ok(c) => c, Err(e) => return Err(e) };
        if kind_is(m, "send_statement") {
            let stmt = match walk_stmt(m, src) { Ok(s) => s, Err(e) => return Err(e) };
            Ok(CommCase::Send { stmt: Box::new(stmt), body, span: n.span })
        } else if kind_is(m, "receive_statement") {
            let rc = match need_field(m, "right") { Ok(c) => c, Err(e) => return Err(e) };
            let recv = match walk_expr(rc, src) { Ok(x) => x, Err(e) => return Err(e) };
            proof {
                lemma_field_from_bounds(*m, "left"@, 0);
            }
            match field_child(m, "left") {
                None => Ok(CommCase::Recv { stmt: None, recv_expr: Some(Box::new(recv)), body, span: n.span }),
                Some(l) => {
                    let lhs = match walk_exprs(l, 0, src) { Ok(v) => v, Err(e) => return Err(e) };
                    let stmt = if find_define(src, l.span.end_byte, rc.span.start_byte) {
                        Stmt::ShortVarDecl { names: walk_plain_idents(l, 0, src), values: vec![recv], span: m.span }
                    } else {
                        Stmt::Assign { lhs, op: AssignOp::Assign, rhs: vec![recv], span: m.span }
                    };
                    Ok(CommCase::Recv { stmt: Some(Box::new(stmt)), recv_expr: None, body, span: n.span })
                },
            }
        } else {
            Err(WalkError::Parse)
        }
    } else if kind_is(n, "default_case") {
        let body = match walk_body(n, src) { Ok(v) => v, Err(e) => return Err(e) };
        Ok(CommCase::Default { body, span: n.span })
    } else {
        Err(WalkError::Parse)
    }
}

/// Converts a type specification.
fn walk_typespec(n: &CstNode, src: &[u8]) -> (r: Result<TypeSpec, WalkError>)
    ensures
        r is Ok <==> typespec_ok(*n),
        r matches Ok(t) ==> typespec_rel(t, *n, src@),
        r matches Err(e) ==> e == WalkError::Parse,
    decreases n, n.children@.len() + 3,
{
    proof {
        lemma_kinds_typespec_ok();
    }
    let alias = kind_is(n, "type_alias");
    if !alias && !kind_is(n, "type_spec") {
        return Err(WalkError::Parse);
    }
    let nc = match need_field(n, "name") { Ok(c) => c, Err(e) => return Err(e) };
    let name = mk_ident(nc, src);
    let type_params = match walk_tparams(n, src) { Ok(v) => v, Err(e) => return Err(e) };
    let tc = match need_field(n, "type") { Ok(c) => c, Err(e) => return Err(e) };
    let ty = match walk_type(tc, src) { Ok(t) => t, Err(e) => return Err(e) };
    if alias {
        Ok(TypeSpec::Alias { name, type_params, ty, span: n.span })
    } else {
        Ok(TypeSpec::Def { name, type_params, ty, span: n.span })
    }
}

/// Converts the optional type in field `type`.
fn walk_opt_type(n: &CstNode, src: &[u8]) -> (r: Result<Option<TypeExpr>, WalkError>)
    ensures
        r is Ok <==> opt_type_ok(*n),
        r matches Ok(t) ==> opt_type_rel(t, *n, src@),
        r matches Err(e) ==> e == WalkError::Parse,
    decreases n, n.children@.len() + 2,
{
    proof {
        lemma_field_from_bounds(*n, "type"@, 0);
    }
    match field_child(n, "type") {
        None => Ok(None),
        Some(c) => match walk_type(c, src) {
            Ok(t) => Ok(Some(t)),
            Err(e) => Err(e),
        },
    }
}

/// Converts a `var` specification.
fn walk_varspec(n: &CstNode, src: &[u8]) -> (r: Result<VarSpec, WalkError>)
    ensures
        r is Ok <==> valspec_ok(*n),
        r matches Ok(v) ==> varspec_rel(v, *n, src@),
        r matches Err(e) ==> e == WalkError::Parse,
    decreases n, n.children@.len() + 3,
{
    let ty = match walk_opt_type(n, src) { Ok(t) => t, Err(e) => return Err(e) };
    let values = match walk_field_exprs(n, "value", src) { Ok(v) => v, Err(e) => return Err(e) };
    Ok(VarSpec { names: walk_names(n, "name", 0, src), ty, values, span: n.span })
}

/// Converts a `const` specification.
fn walk_constspec(n: &CstNode, src: &[u8]) -> (r: Result<ConstSpec, WalkError>)
    ensures
        r is Ok <==> valspec_ok(*n),
        r matches Ok(v) ==> constspec_rel(v, *n, src@),
        r matches Err(e) ==> e == WalkError::Parse,
    decreases n, n.children@.len() + 3,
{
    let ty = match walk_opt_type(n, src) { Ok(t) => t, Err(e) => return Err(e) };
    let values = match walk_field_exprs(n, "value", src) { Ok(v) => v, Err(e) => return Err(e) };
    Ok(ConstSpec { names: walk_names(n, "name", 0, src), ty, values, span: n.span })
}

/// Converts a `var` declaration: one specification or a list.
fn walk_var_decl(n: &CstNode, src: &[u8]) -> (r: Result<Vec<VarSpec>, WalkError>)
    ensures
        r is Ok <==> var_decl_ok(*n),
        r matches Ok(v) ==> var_decl_rel(v@, *n, src@),
        r matches Err(e) ==> e == WalkError::Parse,
    decreases n, n.children@.len() + 2,
{
    proof {
        lemma_kinds_var_decl_ok();
    }
    let p = match need_plain(n) { Ok(c) => c, Err(e) => return Err(e) };
    if kind_is(p, "var_spec") {
        let v = match walk_varspec(p, src) { Ok(v) => v, Err(e) => return Err(e) };
        Ok(vec![v])
    } else if kind_is(p, "var_spec_list") {
        walk_varspecs(p, 0, src)
    } else {
        Err(WalkError::Parse)
    }
}

/// Converts an import specification.
fn walk_import(n: &CstNode, src: &[u8]) -> (r: Result<ImportSpec, WalkError>)
    ensures
        r is Ok <==> import_ok(*n),
        r matches Ok(s) ==> import_rel(s, *n, src@),
        r matches Err(e) ==> e == WalkError::Parse,
    decreases n, n.children@.len() + 3,
{
    proof {
        lemma_kinds_import_ok();
        lemma_kinds_import_rel();
    }
    if !kind_is(n, "import_spec") {
        return Err(WalkError::Parse);
    }
    let pc = match need_field(n, "path") { Ok(c) => c, Err(e) => return Err(e) };
    proof {
        lemma_field_from_bounds(*n, "name"@, 0);
    }
    let alias = match field_child(n, "name") {
        None => ImportAlias::Implicit,
        Some(a) => if kind_is(a, "dot") {
            ImportAlias::Dot
        } else if kind_is(a, "blank_identifier") {
            ImportAlias::Blank
        } else if kind_is(a, "package_identifier") {
            ImportAlias::Named(mk_ident(a, src))
        } else {
            return Err(WalkError::Parse);
        },
    };
    Ok(ImportSpec { alias, path: StringLit { raw: node_text(pc, src), span: pc.span }, span: n.span })
}

/// Converts an import declaration.
fn walk_import_decl(n: &CstNode, src: &[u8]) -> (r: Result<Vec<ImportSpec>, WalkError>)
    ensures
        r is Ok <==> import_decl_ok(*n),
        r matches Ok(v) ==> import_decl_rel(v@, *n, src@) && v@.len() == import_decl_count(*n),
        r matches Err(e) ==> e == WalkError::Parse,
{
    let p = match need_plain(n) { Ok(c) => c, Err(e) => return Err(e) };
    if kind_is(p, "import_spec_list") {
        let v = match walk_imports(p, 0, src) { Ok(v) => v, Err(e) => return Err(e) };
        proof {
            lemma_imports_len(v@, *p, 0, src@);
        }
        Ok(v)
    } else {
        let s = match walk_import(p, src) { Ok(s) => s, Err(e) => return Err(e) };
        Ok(vec![s])
    }
}

proof fn lemma_imports_len(is: Seq<ImportSpec>, n: CstNode, i: int, src: Seq<u8>)
    requires
        imports_rel(is, n, i, src),
    ensures
        is.len() == plain_count(n, i),
    decreases n.children@.len() - i,
{
    if 0 <= i < n.children@.len() {
        if plain(n.children@[i]) {
            lemma_imports_len(is.drop_first(), n, i + 1, src);
        } else {
            lemma_imports_len(is, n, i + 1, src);
        }
    }
}

/// Converts a function declaration.
fn walk_func(n: &CstNode, src: &[u8]) -> (r: Result<FuncDecl, WalkError>)
    ensures
        r is Ok <==> func_ok(*n),
        r matches Ok(f) ==> func_rel(f, *n, src@),
        r matches Err(e) ==> e == WalkError::Parse,
{
    let nc = match need_field(n, "name") { Ok(c) => c, Err(e) => return Err(e) };
    let name = mk_ident(nc, src);
    let type_params = match walk_tparams(n, src) { Ok(v) => v, Err(e) => return Err(e) };
    let pl = match need_field(n, "parameters") { Ok(c) => c, Err(e) => return Err(e) };
    let params = match walk_params(pl, 0, src) { Ok(v) => v, Err(e) => return Err(e) };
    let results = match walk_result(n, src) { Ok(v) => v, Err(e) => return Err(e) };
    let body = match walk_opt_body(n, src) { Ok(b) => b, Err(e) => return Err(e) };
    Ok(FuncDecl { name, ty: FuncType { type_params, params, results, span: n.span }, body, doc: None, span: n.span })
}

/// Converts the optional body in field `body`.
fn walk_opt_body(n: &CstNode, src: &[u8]) -> (r: Result<Option<Block>, WalkError>)
    ensures
        r is Ok <==> (!has_child(*n, field_at(*n, "body"@)) || block_ok(n.children@[field_at(*n, "body"@)])),
        r matches Ok(b) ==> opt_body_rel(b, *n, src@),
        r matches Err(e) ==> e == WalkError::Parse,
{
    proof {
        lemma_field_from_bounds(*n, "body"@, 0);
    }
    match field_child(n, "body") {
        None => Ok(None),
        Some(b) => match walk_block(b, src) {
            Ok(x) => Ok(Some(x)),
            Err(e) => Err(e),
        },
    }
}

/// Converts a receiver list.
fn walk_receiver(pl: &CstNode, src: &[u8]) -> (r: Result<Receiver, WalkError>)
    ensures
        r is Ok <==> receiver_err(*pl) is None,
        r matches Ok(x) ==> receiver_rel(x, *pl, src@),
        r matches Err(e) ==> receiver_err(*pl) == Some(e.view()),
{
    proof {
        lemma_kinds_receiver_err();
    }
    proof {
        lemma_plain_from_bounds(*pl, 0);
    }
    let p = match first_plain_child(pl) {
        None => return Err(WalkError::MissingField { field: "receiver parameter".to_string() }),
        Some(p) => p,
    };
    if kind_is(p, "variadic_parameter_declaration") {
        return Err(WalkError::UnexpectedNode { kind: "variadic receiver".to_string() });
    }
    if !kind_is(p, "parameter_declaration") {
        return Err(WalkError::Parse);
    }
    let tc = match need_field(p, "type") { Ok(c) => c, Err(e) => return Err(e) };
    let ty = match walk_type(tc, src) { Ok(t) => t, Err(e) => return Err(e) };
    proof {
        lemma_field_from_bounds(*p, "name"@, 0);
    }
    let name = match field_child(p, "name") {
        None => None,
        Some(c) => Some(mk_ident(c, src)),
    };
    Ok(Receiver { name, type_params: Vec::new(), ty, span: pl.span })
}

/// Converts a method declaration.
fn walk_method(n: &CstNode, src: &[u8]) -> (r: Result<MethodDecl, WalkError>)
    ensures
        r is Ok <==> method_err(*n) is None,
        r matches Ok(m) ==> method_rel(m, *n, src@),
        r matches Err(e) ==> method_err(*n) == Some(e.view()),
{
    proof {
        lemma_kinds_receiver_err();
    }
    let nc = match need_field(n, "name") { Ok(c) => c, Err(e) => return Err(e) };
    let name = mk_ident(nc, src);
    let rc = match need_field(n, "receiver") { Ok(c) => c, Err(e) => return Err(e) };
    let receiver = match walk_receiver(rc, src) { Ok(x) => x, Err(e) => return Err(e) };
    let pl = match need_field(n, "parameters") { Ok(c) => c, Err(e) => return Err(e) };
    let params = match walk_params(pl, 0, src) { Ok(v) => v, Err(e) => return Err(e) };
    let results = match walk_result(n, src) { Ok(v) => v, Err(e) => return Err(e) };
    let body = match walk_opt_body(n, src) { Ok(b) => b, Err(e) => return Err(e) };
    Ok(MethodDecl {
        receiver,
        name,
        ty: FuncType { type_params: Vec::new(), params, results, span: n.span },
        body,
        doc: None,
        span: n.span,
    })
}

/// Whether a node's kind is a statement left out at the top of a file.
fn is_skipped_kind(n: &CstNode) -> (b: bool)
    ensures
        b == skipped_kind(n.kind@),
{
    proof {
        lemma_kinds_skipped_kind();
        lemma_kinds_is_simple_kind();
    }
    is_simple_kind_of(n) || kind_is(n, "block") || kind_is(n, "return_statement") || kind_is(n, "if_statement")
        || kind_is(n, "for_statement") || kind_is(n, "expression_switch_statement") || kind_is(
        n,
        "type_switch_statement",
    ) || kind_is(n, "select_statement") || kind_is(n, "go_statement") || kind_is(n, "defer_statement") || kind_is(
        n,
        "break_statement",
    ) || kind_is(n, "continue_statement") || kind_is(n, "goto_statement") || kind_is(n, "fallthrough_statement")
        || kind_is(n, "empty_statement") || kind_is(n, "labeled_statement")
}

/// Converts a source file node.
pub fn walk_source_file(n: &CstNode, src: &[u8]) -> (r: Result<SourceFile, WalkError>)
    ensures
        r is Ok <==> file_err(*n) is None,
        r matches Ok(f) ==> file_rel(f, *n, src@),
        r matches Err(e) ==> file_err(*n) == Some(e.view()),
{
    let mut package: Option<Ident> = None;
    let mut imports: Vec<ImportSpec> = Vec::new();
    let mut decls: Vec<TopLevelDecl> = Vec::new();
    let ghost mut pj: int = -1;
    let mut i: usize = 0;
    while i < n.children.len()
        invariant
            i <= n.children@.len(),
            top_err(*n, 0) == top_err(*n, i as int),
            pj == -1 || (0 <= pj < i && plain(n.children@[pj]) && n.children@[pj].kind@ == "package_clause"@),
            last_package(*n, 0) == (if last_package(*n, i as int) != -1 { last_package(*n, i as int) } else { pj }),
            match package {
                None => pj == -1,
                Some(id) => pj != -1 && has_child(n.children@[pj], first_plain(n.children@[pj])) && ident_rel(
                    id,
                    n.children@[pj].children@[first_plain(n.children@[pj])],
                    src@,
                ),
            },
            forall|is: Seq<ImportSpec>| #[trigger] top_imports_rel(is, *n, i as int, src@) ==> top_imports_rel(
                imports@ + is,
                *n,
                0,
                src@,
            ),
            forall|ds: Seq<TopLevelDecl>| #[trigger] top_decls_rel(ds, *n, i as int, src@) ==> top_decls_rel(
                decls@ + ds,
                *n,
                0,
                src@,
            ),
        decreases n.children@.len() - i,
    {
        proof {
            lemma_kinds_top_err();
            lemma_kinds_skipped_kind();
            lemma_kinds_is_decl_kind();
            lemma_kinds_decl_rel();
        }
        let c = &n.children[i];
        let ghost is0 = imports@;
        let ghost ds0 = decls@;
        let ghost mut add_is: Seq<ImportSpec> = Seq::empty();
        let ghost mut add_d: Option<TopLevelDecl> = None;
        if is_plain(c) {
            if kind_is(c, "package_clause") {
                proof {
                    lemma_plain_from_bounds(*c, 0);
                }
                match first_plain_child(c) {
                    None => return Err(WalkError::Parse),
                    Some(p) => {
                        package = Some(mk_ident(p, src));
                    },
                }
                proof {
                    pj = i as int;
                }
            } else if kind_is(c, "import_declaration") {
                let mut v = match walk_import_decl(c, src) { Ok(v) => v, Err(e) => return Err(e) };
                proof {
                    add_is = v@;
                }
                imports.append(&mut v);
            } else if kind_is(c, "function_declaration") {
                let f = match walk_func(c, src) { Ok(f) => f, Err(e) => return Err(e) };
                let d = TopLevelDecl::Func(Box::new(f));
                proof {
                    add_d = Some(d);
                }
                decls.push(d);
            } else if kind_is(c, "method_declaration") {
                let m = match walk_method(c, src) { Ok(m) => m, Err(e) => return Err(e) };
                let d = TopLevelDecl::Method(Box::new(m));
                proof {
                    add_d = Some(d);
                }
                decls.push(d);
            } else if kind_is(c, "type_declaration") {
                let v = match walk_typespecs(c, 0, src) { Ok(v) => v, Err(e) => return Err(e) };
                let d = TopLevelDecl::Type(v);
                proof {
                    add_d = Some(d);
                }
                decls.push(d);
            } else if kind_is(c, "var_declaration") {
                let v = match walk_var_decl(c, src) { Ok(v) => v, Err(e) => return Err(e) };
                let d = TopLevelDecl::Var(v);
                proof {
                    add_d = Some(d);
                }
                decls.push(d);
            } else if kind_is(c, "const_declaration") {
                let v = match walk_constspecs(c, 0, src) { Ok(v) => v, Err(e) => return Err(e) };
                let d = TopLevelDecl::Const(v);
                proof {
                    add_d = Some(d);
                }
                decls.push(d);
            } else if !is_skipped_kind(c) {
                return Err(WalkError::Parse);
            }
        }
        proof {
            lemma_top_imports_step(*n, i as int, is0, add_is, src@);
            assert(imports@ == is0 + add_is);
            lemma_top_decls_step(*n, i as int, ds0, add_d, src@);
        }
        i = i + 1;
    }
    proof {
        assert(top_imports_rel(Seq::empty(), *n, i as int, src@));
        assert(imports@ + Seq::<ImportSpec>::empty() =~= imports@);
        assert(top_decls_rel(Seq::empty(), *n, i as int, src@));
        assert(decls@ + Seq::<TopLevelDecl>::empty() =~= decls@);
    }
    match package {
        None => Err(WalkError::MissingField { field: "package".to_string() }),
        Some(package) => Ok(SourceFile { package, imports, decls, span: n.span }),
    }
}

proof fn lemma_top_imports_step(n: CstNode, i: int, is0: Seq<ImportSpec>, add: Seq<ImportSpec>, src: Seq<u8>)
    requires
        0 <= i < n.children@.len(),
        forall|is: Seq<ImportSpec>| #[trigger] top_imports_rel(is, n, i, src) ==> top_imports_rel(is0 + is, n, 0, src),
        if plain(n.children@[i]) && n.children@[i].kind@ == "import_declaration"@ {
            import_decl_rel(add, n.children@[i], src) && add.len() == import_decl_count(n.children@[i])
        } else {
            add.len() == 0
        },
    ensures
        forall|is: Seq<ImportSpec>| #[trigger] top_imports_rel(is, n, i + 1, src) ==> top_imports_rel(
            (is0 + add) + is,
            n,
            0,
            src,
        ),
{
    assert forall|is: Seq<ImportSpec>| #[trigger] top_imports_rel(is, n, i + 1, src) implies top_imports_rel(
        (is0 + add) + is,
        n,
        0,
        src,
    ) by {
        let big = add + is;
        assert((is0 + add) + is =~= is0 + big);
        if plain(n.children@[i]) && n.children@[i].kind@ == "import_declaration"@ {
            let k = import_decl_count(n.children@[i]);
            assert(big.take(k as int) =~= add);
            assert(big.skip(k as int) =~= is);
        } else {
            assert(big =~= is);
        }
        assert(top_imports_rel(big, n, i, src));
    }
}

proof fn lemma_top_decls_step(n: CstNode, i: int, ds0: Seq<TopLevelDecl>, add: Option<TopLevelDecl>, src: Seq<u8>)
    requires
        0 <= i < n.children@.len(),
        forall|ds: Seq<TopLevelDecl>| #[trigger] top_decls_rel(ds, n, i, src) ==> top_decls_rel(ds0 + ds, n, 0, src),
        if plain(n.children@[i]) && is_decl_kind(n.children@[i].kind@) {
            add matches Some(d) && decl_rel(d, n.children@[i], src)
        } else {
            add is None
        },
    ensures
        forall|ds: Seq<TopLevelDecl>| #[trigger] top_decls_rel(ds, n, i + 1, src) ==> top_decls_rel(
            (match add {
                Some(d) => ds0.push(d),
                None => ds0,
            }) + ds,
            n,
            0,
            src,
        ),
{
    assert forall|ds: Seq<TopLevelDecl>| #[trigger] top_decls_rel(ds, n, i + 1, src) implies top_decls_rel(
        (match add {
            Some(d) => ds0.push(d),
            None => ds0,
        }) + ds,
        n,
        0,
        src,
    ) by {
        match add {
            Some(d) => {
                let big = seq![d] + ds;
                assert(big.drop_first() =~= ds);
                assert(top_decls_rel(big, n, i, src));
                assert(ds0.push(d) + ds =~= ds0 + big);
            },
            None => {
                assert(top_decls_rel(ds, n, i, src));
            },
        }
    }
}

/// A list of type specifications is empty exactly when no plain child is left.
proof fn lemma_typespecs_count(ts: Seq<TypeSpec>, n: CstNode, i: int, src: Seq<u8>)
    requires
        typespecs_rel(ts, n, i, src),
    ensures
        ts.len() > 0 <==> has_child(n, plain_from(n, i)),
    decreases n.children@.len() - i,
{
    if 0 <= i < n.children@.len() && !plain(n.children@[i]) {
        lemma_typespecs_count(ts, n, i + 1, src);
    }
}

proof fn lemma_constspecs_count(ts: Seq<ConstSpec>, n: CstNode, i: int, src: Seq<u8>)
    requires
        constspecs_rel(ts, n, i, src),
    ensures
        ts.len() > 0 <==> has_child(n, plain_from(n, i)),
    decreases n.children@.len() - i,
{
    if 0 <= i < n.children@.len() && !plain(n.children@[i]) {
        lemma_constspecs_count(ts, n, i + 1, src);
    }
}

proof fn lemma_varspecs_count(ts: Seq<VarSpec>, n: CstNode, i: int, src: Seq<u8>)
    requires
        varspecs_rel(ts, n, i, src),
    ensures
        ts.len() > 0 <==> has_child(n, plain_from(n, i)),
    decreases n.children@.len() - i,
{
    if 0 <= i < n.children@.len() && !plain(n.children@[i]) {
        lemma_varspecs_count(ts, n, i + 1, src);
    }
}

proof fn lemma_var_decl_count(vs: Seq<VarSpec>, n: CstNode, src: Seq<u8>)
    requires
        var_decl_rel(vs, n, src),
    ensures
        vs.len() > 0 <==> var_decl_nonempty(n),
{
    let p = n.children@[first_plain(n)];
    if p.kind@ != "var_spec"@ {
        lemma_varspecs_count(vs, p, 0, src);
    }
}

proof fn lemma_exprs_first(es: Seq<Expr>, n: CstNode, i: int, src: Seq<u8>)
    requires
        exprs_rel(es, n, i, src),
    ensures
        es.len() > 0 <==> has_child(n, plain_from(n, i)),
        es.len() > 0 ==> expr_rel(es[0], n.children@[plain_from(n, i)], src) && exprs_rel(
            es.drop_first(),
            n,
            plain_from(n, i) + 1,
            src,
        ),
    decreases n.children@.len() - i,
{
    if 0 <= i < n.children@.len() && !plain(n.children@[i]) {
        lemma_exprs_first(es, n, i + 1, src);
    }
}

proof fn lemma_exprs_first_two(es: Seq<Expr>, n: CstNode, src: Seq<u8>)
    requires
        exprs_rel(es, n, 0, src),
    ensures
        es.len() > 0 <==> has_child(n, first_plain(n)),
        es.len() > 0 ==> expr_rel(es[0], n.children@[first_plain(n)], src),
        es.len() > 1 <==> (has_child(n, first_plain(n)) && has_child(n, plain_from(n, first_plain(n) + 1))),
        es.len() > 1 ==> expr_rel(es[1], n.children@[plain_from(n, first_plain(n) + 1)], src),
{
    lemma_exprs_first(es, n, 0, src);
    if es.len() > 0 {
        lemma_exprs_first(es.drop_first(), n, first_plain(n) + 1, src);
    }
}

/// Parses Go source text and converts its syntax tree.
pub fn parse_and_walk(src: &[u8]) -> (r: Result<SourceFile, WalkError>)
    ensures
        match go_cst(src@) {
            None => r matches Err(e) && e.view() == WalkErrorV::UnexpectedNode("parse returned None"@),
            Some(t) => match r {
                Ok(f) => file_err(t) is None && file_rel(f, t, src@),
                Err(e) => file_err(t) == Some(e.view()),
            },
        },
{
    match parse_go_cst(src) {
        None => Err(WalkError::UnexpectedNode { kind: "parse returned None".to_string() }),
        Some(t) => walk_source_file(&t, src),
    }
}



/// The node kinds that `is_type_kind` tells apart are distinct.
proof fn lemma_kinds_is_type_kind()
    ensures
        "type_identifier"@ != "qualified_type"@,
        "type_identifier"@ != "pointer_type"@,
        "type_identifier"@ != "array_type"@,
        "type_identifier"@ != "implicit_length_array_type"@,
        "type_identifier"@ != "slice_type"@,
        "type_identifier"@ != "map_type"@,
        "type_identifier"@ != "channel_type"@,
        "type_identifier"@ != "struct_type"@,
        "type_identifier"@ != "interface_type"@,
        "type_identifier"@ != "function_type"@,
        "type_identifier"@ != "generic_type"@,
        "type_identifier"@ != "negated_type"@,
        "type_identifier"@ != "parenthesized_type"@,
        "qualified_type"@ != "pointer_type"@,
        "qualified_type"@ != "array_type"@,
        "qualified_type"@ != "implicit_length_array_type"@,
        "qualified_type"@ != "slice_type"@,
        "qualified_type"@ != "map_type"@,
        "qualified_type"@ != "channel_type"@,
        "qualified_type"@ != "struct_type"@,
        "qualified_type"@ != "interface_type"@,
        "qualified_type"@ != "function_type"@,
        "qualified_type"@ != "generic_type"@,
        "qualified_type"@ != "negated_type"@,
        "qualified_type"@ != "parenthesized_type"@,
        "pointer_type"@ != "array_type"@,
        "pointer_type"@ != "implicit_length_array_type"@,
        "pointer_type"@ != "slice_type"@,
        "pointer_type"@ != "map_type"@,
        "pointer_type"@ != "channel_type"@,
        "pointer_type"@ != "struct_type"@,
        "pointer_type"@ != "interface_type"@,
        "pointer_type"@ != "function_type"@,
        "pointer_type"@ != "generic_type"@,
        "pointer_type"@ != "negated_type"@,
        "pointer_type"@ != "parenthesized_type"@,
        "array_type"@ != "implicit_length_array_type"@,
        "array_type"@ != "slice_type"@,
        "array_type"@ != "map_type"@,
        "array_type"@ != "channel_type"@,
        "array_type"@ != "struct_type"@,
        "array_type"@ != "interface_type"@,
        "array_type"@ != "function_type"@,
        "array_type"@ != "generic_type"@,
        "array_type"@ != "negated_type"@,
        "array_type"@ != "parenthesized_type"@,
        "implicit_length_array_type"@ != "slice_type"@,
        "implicit_length_array_type"@ != "map_type"@,
        "implicit_length_array_type"@ != "channel_type"@,
        "implicit_length_array_type"@ != "struct_type"@,
        "implicit_length_array_type"@ != "interface_type"@,
        "implicit_length_array_type"@ != "function_type"@,
        "implicit_length_array_type"@ != "generic_type"@,
        "implicit_length_array_type"@ != "negated_type"@,
        "implicit_length_array_type"@ != "parenthesized_type"@,
        "slice_type"@ != "map_type"@,
        "slice_type"@ != "channel_type"@,
        "slice_type"@ != "struct_type"@,
        "slice_type"@ != "interface_type"@,
        "slice_type"@ != "function_type"@,
        "slice_type"@ != "generic_type"@,
        "slice_type"@ != "negated_type"@,
        "slice_type"@ != "parenthesized_type"@,
        "map_type"@ != "channel_type"@,
        "map_type"@ != "struct_type"@,
        "map_type"@ != "interface_type"@,
        "map_type"@ != "function_type"@,
        "map_type"@ != "generic_type"@,
        "map_type"@ != "negated_type"@,
        "map_type"@ != "parenthesized_type"@,
        "channel_type"@ != "struct_type"@,
        "channel_type"@ != "interface_type"@,
        "channel_type"@ != "function_type"@,
        "channel_type"@ != "generic_type"@,
        "channel_type"@ != "negated_type"@,
        "channel_type"@ != "parenthesized_type"@,
        "struct_type"@ != "interface_type"@,
        "struct_type"@ != "function_type"@,
        "struct_type"@ != "generic_type"@,
        "struct_type"@ != "negated_type"@,
        "struct_type"@ != "parenthesized_type"@,
        "interface_type"@ != "function_type"@,
        "interface_type"@ != "generic_type"@,
        "interface_type"@ != "negated_type"@,
        "interface_type"@ != "parenthesized_type"@,
        "function_type"@ != "generic_type"@,
        "function_type"@ != "negated_type"@,
        "function_type"@ != "parenthesized_type"@,
        "generic_type"@ != "negated_type"@,
        "generic_type"@ != "parenthesized_type"@,
        "negated_type"@ != "parenthesized_type"@,
{
    reveal_strlit("type_identifier");
    reveal_strlit("qualified_type");
    reveal_strlit("pointer_type");
    reveal_strlit("array_type");
    reveal_strlit("implicit_length_array_type");
    reveal_strlit("slice_type");
    reveal_strlit("map_type");
    reveal_strlit("channel_type");
    reveal_strlit("struct_type");
    reveal_strlit("interface_type");
    reveal_strlit("function_type");
    reveal_strlit("generic_type");
    reveal_strlit("negated_type");
    reveal_strlit("parenthesized_type");
    assert("type_identifier"@.len() != "qualified_type"@.len());
    assert("type_identifier"@.len() != "pointer_type"@.len());
    assert("type_identifier"@.len() != "array_type"@.len());
    assert("type_identifier"@.len() != "implicit_length_array_type"@.len());
    assert("type_identifier"@.len() != "slice_type"@.len());
    assert("type_identifier"@.len() != "map_type"@.len());
    assert("type_identifier"@.len() != "channel_type"@.len());
    assert("type_identifier"@.len() != "struct_type"@.len());
    assert("type_identifier"@.len() != "interface_type"@.len());
    assert("type_identifier"@.len() != "function_type"@.len());
    assert("type_identifier"@.len() != "generic_type"@.len());
    assert("type_identifier"@.len() != "negated_type"@.len());
    assert("type_identifier"@.len() != "parenthesized_type"@.len());
    assert("qualified_type"@.len() != "pointer_type"@.len());
    assert("qualified_type"@.len() != "array_type"@.len());
    assert("qualified_type"@.len() != "implicit_length_array_type"@.len());
    assert("qualified_type"@.len() != "slice_type"@.len());
    assert("qualified_type"@.len() != "map_type"@.len());
    assert("qualified_type"@.len() != "channel_type"@.len());
    assert("qualified_type"@.len() != "struct_type"@.len());
    assert("qualified_type"@[0] != "interface_type"@[0]);
    assert("qualified_type"@.len() != "function_type"@.len());
    assert("qualified_type"@.len() != "generic_type"@.len());
    assert("qualified_type"@.len() != "negated_type"@.len());
    assert("qualified_type"@.len() != "parenthesized_type"@.len());
    assert("pointer_type"@.len() != "array_type"@.len());
    assert("pointer_type"@.len() != "implicit_length_array_type"@.len());
    assert("pointer_type"@.len() != "slice_type"@.len());
    assert("pointer_type"@.len() != "map_type"@.len());
    assert("pointer_type"@[0] != "channel_type"@[0]);
    assert("pointer_type"@.len() != "struct_type"@.len());
    assert("pointer_type"@.len() != "interface_type"@.len());
    assert("pointer_type"@.len() != "function_type"@.len());
    assert("pointer_type"@[0] != "generic_type"@[0]);
    assert("pointer_type"@[0] != "negated_type"@[0]);
    assert("pointer_type"@.len() != "parenthesized_type"@.len());
    assert("array_type"@.len() != "implicit_length_array_type"@.len());
    assert("array_type"@[0] != "slice_type"@[0]);
    assert("array_type"@.len() != "map_type"@.len());
    assert("array_type"@.len() != "channel_type"@.len());
    assert("array_type"@.len() != "struct_type"@.len());
    assert("array_type"@.len() != "interface_type"@.len());
    assert("array_type"@.len() != "function_type"@.len());
    assert("array_type"@.len() != "generic_type"@.len());
    assert("array_type"@.len() != "negated_type"@.len());
    assert("array_type"@.len() != "parenthesized_type"@.len());
    assert("implicit_length_array_type"@.len() != "slice_type"@.len());
    assert("implicit_length_array_type"@.len() != "map_type"@.len());
    assert("implicit_length_array_type"@.len() != "channel_type"@.len());
    assert("implicit_length_array_type"@.len() != "struct_type"@.len());
    assert("implicit_length_array_type"@.len() != "interface_type"@.len());
    assert("implicit_length_array_type"@.len() != "function_type"@.len());
    assert("implicit_length_array_type"@.len() != "generic_type"@.len());
    assert("implicit_length_array_type"@.len() != "negated_type"@.len());
    assert("implicit_length_array_type"@.len() != "parenthesized_type"@.len());
    assert("slice_type"@.len() != "map_type"@.len());
    assert("slice_type"@.len() != "channel_type"@.len());
    assert("slice_type"@.len() != "struct_type"@.len());
    assert("slice_type"@.len() != "interface_type"@.len());
    assert("slice_type"@.len() != "function_type"@.len());
    assert("slice_type"@.len() != "generic_type"@.len());
    assert("slice_type"@.len() != "negated_type"@.len());
    assert("slice_type"@.len() != "parenthesized_type"@.len());
    assert("map_type"@.len() != "channel_type"@.len());
    assert("map_type"@.len() != "struct_type"@.len());
    assert("map_type"@.len() != "interface_type"@.len());
    assert("map_type"@.len() != "function_type"@.len());
    assert("map_type"@.len() != "generic_type"@.len());
    assert("map_type"@.len() != "negated_type"@.len());
    assert("map_type"@.len() != "parenthesized_type"@.len());
    assert("channel_type"@.len() != "struct_type"@.len());
    assert("channel_type"@.len() != "interface_type"@.len());
    assert("channel_type"@.len() != "function_type"@.len());
    assert("channel_type"@[0] != "generic_type"@[0]);
    assert("channel_type"@[0] != "negated_type"@[0]);
    assert("channel_type"@.len() != "parenthesized_type"@.len());
    assert("struct_type"@.len() != "interface_type"@.len());
    assert("struct_type"@.len() != "function_type"@.len());
    assert("struct_type"@.len() != "generic_type"@.len());
    assert("struct_type"@.len() != "negated_type"@.len());
    assert("struct_type"@.len() != "parenthesized_type"@.len());
    assert("interface_type"@.len() != "function_type"@.len());
    assert("interface_type"@.len() != "generic_type"@.len());
    assert("interface_type"@.len() != "negated_type"@.len());
    assert("interface_type"@.len() != "parenthesized_type"@.len());
    assert("function_type"@.len() != "generic_type"@.len());
    assert("function_type"@.len() != "negated_type"@.len());
    assert("function_type"@.len() != "parenthesized_type"@.len());
    assert("generic_type"@[0] != "negated_type"@[0]);
    assert("generic_type"@.len() != "parenthesized_type"@.len());
    assert("negated_type"@.len() != "parenthesized_type"@.len());
}

/// The node kinds that `is_simple_kind` tells apart are distinct.
proof fn lemma_kinds_is_simple_kind()
    ensures
        "assignment_statement"@ != "short_var_declaration"@,
        "assignment_statement"@ != "inc_statement"@,
        "assignment_statement"@ != "dec_statement"@,
        "assignment_statement"@ != "send_statement"@,
        "assignment_statement"@ != "expression_statement"@,
        "short_var_declaration"@ != "inc_statement"@,
        "short_var_declaration"@ != "dec_statement"@,
        "short_var_declaration"@ != "send_statement"@,
        "short_var_declaration"@ != "expression_statement"@,
        "inc_statement"@ != "dec_statement"@,
        "inc_statement"@ != "send_statement"@,
        "inc_statement"@ != "expression_statement"@,
        "dec_statement"@ != "send_statement"@,
        "dec_statement"@ != "expression_statement"@,
        "send_statement"@ != "expression_statement"@,
{
    reveal_strlit("assignment_statement");
    reveal_strlit("short_var_declaration");
    reveal_strlit("inc_statement");
    reveal_strlit("dec_statement");
    reveal_strlit("send_statement");
    reveal_strlit("expression_statement");
    assert("assignment_statement"@.len() != "short_var_declaration"@.len());
    assert("assignment_statement"@.len() != "inc_statement"@.len());
    assert("assignment_statement"@.len() != "dec_statement"@.len());
    assert("assignment_statement"@.len() != "send_statement"@.len());
    assert("assignment_statement"@[0] != "expression_statement"@[0]);
    assert("short_var_declaration"@.len() != "inc_statement"@.len());
    assert("short_var_declaration"@.len() != "dec_statement"@.len());
    assert("short_var_declaration"@.len() != "send_statement"@.len());
    assert("short_var_declaration"@.len() != "expression_statement"@.len());
    assert("inc_statement"@[0] != "dec_statement"@[0]);
    assert("inc_statement"@.len() != "send_statement"@.len());
    assert("inc_statement"@.len() != "expression_statement"@.len());
    assert("dec_statement"@.len() != "send_statement"@.len());
    assert("dec_statement"@.len() != "expression_statement"@.len());
    assert("send_statement"@.len() != "expression_statement"@.len());
}

/// The node kinds that `unary_op` tells apart are distinct.
proof fn lemma_kinds_unary_op()
    ensures
        "!"@ != "-"@,
        "!"@ != "+"@,
        "!"@ != "*"@,
        "!"@ != "&"@,
        "!"@ != "<-"@,
        "!"@ != "^"@,
        "-"@ != "+"@,
        "-"@ != "*"@,
        "-"@ != "&"@,
        "-"@ != "<-"@,
        "-"@ != "^"@,
        "+"@ != "*"@,
        "+"@ != "&"@,
        "+"@ != "<-"@,
        "+"@ != "^"@,
        "*"@ != "&"@,
        "*"@ != "<-"@,
        "*"@ != "^"@,
        "&"@ != "<-"@,
        "&"@ != "^"@,
        "<-"@ != "^"@,
{
    reveal_strlit("!");
    reveal_strlit("-");
    reveal_strlit("+");
    reveal_strlit("*");
    reveal_strlit("&");
    reveal_strlit("<-");
    reveal_strlit("^");
    assert("!"@[0] != "-"@[0]);
    assert("!"@[0] != "+"@[0]);
    assert("!"@[0] != "*"@[0]);
    assert("!"@[0] != "&"@[0]);
    assert("!"@.len() != "<-"@.len());
    assert("!"@[0] != "^"@[0]);
    assert("-"@[0] != "+"@[0]);
    assert("-"@[0] != "*"@[0]);
    assert("-"@[0] != "&"@[0]);
    assert("-"@.len() != "<-"@.len());
    assert("-"@[0] != "^"@[0]);
    assert("+"@[0] != "*"@[0]);
    assert("+"@[0] != "&"@[0]);
    assert("+"@.len() != "<-"@.len());
    assert("+"@[0] != "^"@[0]);
    assert("*"@[0] != "&"@[0]);
    assert("*"@.len() != "<-"@.len());
    assert("*"@[0] != "^"@[0]);
    assert("&"@.len() != "<-"@.len());
    assert("&"@[0] != "^"@[0]);
    assert("<-"@.len() != "^"@.len());
}

/// The node kinds that `binary_op` tells apart are distinct.
proof fn lemma_kinds_binary_op()
    ensures
        "+"@ != "-"@,
        "+"@ != "*"@,
        "+"@ != "/"@,
        "+"@ != "%"@,
        "+"@ != "&"@,
        "+"@ != "|"@,
        "+"@ != "^"@,
        "+"@ != "&^"@,
        "+"@ != "<<"@,
        "+"@ != ">>"@,
        "+"@ != "&&"@,
        "+"@ != "||"@,
        "+"@ != "=="@,
        "+"@ != "!="@,
        "+"@ != "<"@,
        "+"@ != "<="@,
        "+"@ != ">"@,
        "+"@ != ">="@,
        "-"@ != "*"@,
        "-"@ != "/"@,
        "-"@ != "%"@,
        "-"@ != "&"@,
        "-"@ != "|"@,
        "-"@ != "^"@,
        "-"@ != "&^"@,
        "-"@ != "<<"@,
        "-"@ != ">>"@,
        "-"@ != "&&"@,
        "-"@ != "||"@,
        "-"@ != "=="@,
        "-"@ != "!="@,
        "-"@ != "<"@,
        "-"@ != "<="@,
        "-"@ != ">"@,
        "-"@ != ">="@,
        "*"@ != "/"@,
        "*"@ != "%"@,
        "*"@ != "&"@,
        "*"@ != "|"@,
        "*"@ != "^"@,
        "*"@ != "&^"@,
        "*"@ != "<<"@,
        "*"@ != ">>"@,
        "*"@ != "&&"@,
        "*"@ != "||"@,
        "*"@ != "=="@,
        "*"@ != "!="@,
        "*"@ != "<"@,
        "*"@ != "<="@,
        "*"@ != ">"@,
        "*"@ != ">="@,
        "/"@ != "%"@,
        "/"@ != "&"@,
        "/"@ != "|"@,
        "/"@ != "^"@,
        "/"@ != "&^"@,
        "/"@ != "<<"@,
        "/"@ != ">>"@,
        "/"@ != "&&"@,
        "/"@ != "||"@,
        "/"@ != "=="@,
        "/"@ != "!="@,
        "/"@ != "<"@,
        "/"@ != "<="@,
        "/"@ != ">"@,
        "/"@ != ">="@,
        "%"@ != "&"@,
        "%"@ != "|"@,
        "%"@ != "^"@,
        "%"@ != "&^"@,
        "%"@ != "<<"@,
        "%"@ != ">>"@,
        "%"@ != "&&"@,
        "%"@ != "||"@,
        "%"@ != "=="@,
        "%"@ != "!="@,
        "%"@ != "<"@,
        "%"@ != "<="@,
        "%"@ != ">"@,
        "%"@ != ">="@,
        "&"@ != "|"@,
        "&"@ != "^"@,
        "&"@ != "&^"@,
        "&"@ != "<<"@,
        "&"@ != ">>"@,
        "&"@ != "&&"@,
        "&"@ != "||"@,
        "&"@ != "=="@,
        "&"@ != "!="@,
        "&"@ != "<"@,
        "&"@ != "<="@,
        "&"@ != ">"@,
        "&"@ != ">="@,
        "|"@ != "^"@,
        "|"@ != "&^"@,
        "|"@ != "<<"@,
        "|"@ != ">>"@,
        "|"@ != "&&"@,
        "|"@ != "||"@,
        "|"@ != "=="@,
        "|"@ != "!="@,
        "|"@ != "<"@,
        "|"@ != "<="@,
        "|"@ != ">"@,
        "|"@ != ">="@,
        "^"@ != "&^"@,
        "^"@ != "<<"@,
        "^"@ != ">>"@,
        "^"@ != "&&"@,
        "^"@ != "||"@,
        "^"@ != "=="@,
        "^"@ != "!="@,
        "^"@ != "<"@,
        "^"@ != "<="@,
        "^"@ != ">"@,
        "^"@ != ">="@,
        "&^"@ != "<<"@,
        "&^"@ != ">>"@,
        "&^"@ != "&&"@,
        "&^"@ != "||"@,
        "&^"@ != "=="@,
        "&^"@ != "!="@,
        "&^"@ != "<"@,
        "&^"@ != "<="@,
        "&^"@ != ">"@,
        "&^"@ != ">="@,
        "<<"@ != ">>"@,
        "<<"@ != "&&"@,
        "<<"@ != "||"@,
        "<<"@ != "=="@,
        "<<"@ != "!="@,
        "<<"@ != "<"@,
        "<<"@ != "<="@,
        "<<"@ != ">"@,
        "<<"@ != ">="@,
        ">>"@ != "&&"@,
        ">>"@ != "||"@,
        ">>"@ != "=="@,
        ">>"@ != "!="@,
        ">>"@ != "<"@,
        ">>"@ != "<="@,
        ">>"@ != ">"@,
        ">>"@ != ">="@,
        "&&"@ != "||"@,
        "&&"@ != "=="@,
        "&&"@ != "!="@,
        "&&"@ != "<"@,
        "&&"@ != "<="@,
        "&&"@ != ">"@,
        "&&"@ != ">="@,
        "||"@ != "=="@,
        "||"@ != "!="@,
        "||"@ != "<"@,
        "||"@ != "<="@,
        "||"@ != ">"@,
        "||"@ != ">="@,
        "=="@ != "!="@,
        "=="@ != "<"@,
        "=="@ != "<="@,
        "=="@ != ">"@,
        "=="@ != ">="@,
        "!="@ != "<"@,
        "!="@ != "<="@,
        "!="@ != ">"@,
        "!="@ != ">="@,
        "<"@ != "<="@,
        "<"@ != ">"@,
        "<"@ != ">="@,
        "<="@ != ">"@,
        "<="@ != ">="@,
        ">"@ != ">="@,
{
    reveal_strlit("+");
    reveal_strlit("-");
    reveal_strlit("*");
    reveal_strlit("/");
    reveal_strlit("%");
    reveal_strlit("&");
    reveal_strlit("|");
    reveal_strlit("^");
    reveal_strlit("&^");
    reveal_strlit("<<");
    reveal_strlit(">>");
    reveal_strlit("&&");
    reveal_strlit("||");
    reveal_strlit("==");
    reveal_strlit("!=");
    reveal_strlit("<");
    reveal_strlit("<=");
    reveal_strlit(">");
    reveal_strlit(">=");
    assert("+"@[0] != "-"@[0]);
    assert("+"@[0] != "*"@[0]);
    assert("+"@[0] != "/"@[0]);
    assert("+"@[0] != "%"@[0]);
    assert("+"@[0] != "&"@[0]);
    assert("+"@[0] != "|"@[0]);
    assert("+"@[0] != "^"@[0]);
    assert("+"@.len() != "&^"@.len());
    assert("+"@.len() != "<<"@.len());
    assert("+"@.len() != ">>"@.len());
    assert("+"@.len() != "&&"@.len());
    assert("+"@.len() != "||"@.len());
    assert("+"@.len() != "=="@.len());
    assert("+"@.len() != "!="@.len());
    assert("+"@[0] != "<"@[0]);
    assert("+"@.len() != "<="@.len());
    assert("+"@[0] != ">"@[0]);
    assert("+"@.len() != ">="@.len());
    assert("-"@[0] != "*"@[0]);
    assert("-"@[0] != "/"@[0]);
    assert("-"@[0] != "%"@[0]);
    assert("-"@[0] != "&"@[0]);
    assert("-"@[0] != "|"@[0]);
    assert("-"@[0] != "^"@[0]);
    assert("-"@.len() != "&^"@.len());
    assert("-"@.len() != "<<"@.len());
    assert("-"@.len() != ">>"@.len());
    assert("-"@.len() != "&&"@.len());
    assert("-"@.len() != "||"@.len());
    assert("-"@.len() != "=="@.len());
    assert("-"@.len() != "!="@.len());
    assert("-"@[0] != "<"@[0]);
    assert("-"@.len() != "<="@.len());
    assert("-"@[0] != ">"@[0]);
    assert("-"@.len() != ">="@.len());
    assert("*"@[0] != "/"@[0]);
    assert("*"@[0] != "%"@[0]);
    assert("*"@[0] != "&"@[0]);
    assert("*"@[0] != "|"@[0]);
    assert("*"@[0] != "^"@[0]);
    assert("*"@.len() != "&^"@.len());
    assert("*"@.len() != "<<"@.len());
    assert("*"@.len() != ">>"@.len());
    assert("*"@.len() != "&&"@.len());
    assert("*"@.len() != "||"@.len());
    assert("*"@.len() != "=="@.len());
    assert("*"@.len() != "!="@.len());
    assert("*"@[0] != "<"@[0]);
    assert("*"@.len() != "<="@.len());
    assert("*"@[0] != ">"@[0]);
    assert("*"@.len() != ">="@.len());
    assert("/"@[0] != "%"@[0]);
    assert("/"@[0] != "&"@[0]);
    assert("/"@[0] != "|"@[0]);
    assert("/"@[0] != "^"@[0]);
    assert("/"@.len() != "&^"@.len());
    assert("/"@.len() != "<<"@.len());
    assert("/"@.len() != ">>"@.len());
    assert("/"@.len() != "&&"@.len());
    assert("/"@.len() != "||"@.len());
    assert("/"@.len() != "=="@.len());
    assert("/"@.len() != "!="@.len());
    assert("/"@[0] != "<"@[0]);
    assert("/"@.len() != "<="@.len());
    assert("/"@[0] != ">"@[0]);
    assert("/"@.len() != ">="@.len());
    assert("%"@[0] != "&"@[0]);
    assert("%"@[0] != "|"@[0]);
    assert("%"@[0] != "^"@[0]);
    assert("%"@.len() != "&^"@.len());
    assert("%"@.len() != "<<"@.len());
    assert("%"@.len() != ">>"@.len());
    assert("%"@.len() != "&&"@.len());
    assert("%"@.len() != "||"@.len());
    assert("%"@.len() != "=="@.len());
    assert("%"@.len() != "!="@.len());
    assert("%"@[0] != "<"@[0]);
    assert("%"@.len() != "<="@.len());
    assert("%"@[0] != ">"@[0]);
    assert("%"@.len() != ">="@.len());
    assert("&"@[0] != "|"@[0]);
    assert("&"@[0] != "^"@[0]);
    assert("&"@.len() != "&^"@.len());
    assert("&"@.len() != "<<"@.len());
    assert("&"@.len() != ">>"@.len());
    assert("&"@.len() != "&&"@.len());
    assert("&"@.len() != "||"@.len());
    assert("&"@.len() != "=="@.len());
    assert("&"@.len() != "!="@.len());
    assert("&"@[0] != "<"@[0]);
    assert("&"@.len() != "<="@.len());
    assert("&"@[0] != ">"@[0]);
    assert("&"@.len() != ">="@.len());
    assert("|"@[0] != "^"@[0]);
    assert("|"@.len() != "&^"@.len());
    assert("|"@.len() != "<<"@.len());
    assert("|"@.len() != ">>"@.len());
    assert("|"@.len() != "&&"@.len());
    assert("|"@.len() != "||"@.len());
    assert("|"@.len() != "=="@.len());
    assert("|"@.len() != "!="@.len());
    assert("|"@[0] != "<"@[0]);
    assert("|"@.len() != "<="@.len());
    assert("|"@[0] != ">"@[0]);
    assert("|"@.len() != ">="@.len());
    assert("^"@.len() != "&^"@.len());
    assert("^"@.len() != "<<"@.len());
    assert("^"@.len() != ">>"@.len());
    assert("^"@.len() != "&&"@.len());
    assert("^"@.len() != "||"@.len());
    assert("^"@.len() != "=="@.len());
    assert("^"@.len() != "!="@.len());
    assert("^"@[0] != "<"@[0]);
    assert("^"@.len() != "<="@.len());
    assert("^"@[0] != ">"@[0]);
    assert("^"@.len() != ">="@.len());
    assert("&^"@[0] != "<<"@[0]);
    assert("&^"@[0] != ">>"@[0]);
    assert("&^"@[1] != "&&"@[1]);
    assert("&^"@[0] != "||"@[0]);
    assert("&^"@[0] != "=="@[0]);
    assert("&^"@[0] != "!="@[0]);
    assert("&^"@.len() != "<"@.len());
    assert("&^"@[0] != "<="@[0]);
    assert("&^"@.len() != ">"@.len());
    assert("&^"@[0] != ">="@[0]);
    assert("<<"@[0] != ">>"@[0]);
    assert("<<"@[0] != "&&"@[0]);
    assert("<<"@[0] != "||"@[0]);
    assert("<<"@[0] != "=="@[0]);
    assert("<<"@[0] != "!="@[0]);
    assert("<<"@.len() != "<"@.len());
    assert("<<"@[1] != "<="@[1]);
    assert("<<"@.len() != ">"@.len());
    assert("<<"@[0] != ">="@[0]);
    assert(">>"@[0] != "&&"@[0]);
    assert(">>"@[0] != "||"@[0]);
    assert(">>"@[0] != "=="@[0]);
    assert(">>"@[0] != "!="@[0]);
    assert(">>"@.len() != "<"@.len());
    assert(">>"@[0] != "<="@[0]);
    assert(">>"@.len() != ">"@.len());
    assert(">>"@[1] != ">="@[1]);
    assert("&&"@[0] != "||"@[0]);
    assert("&&"@[0] != "=="@[0]);
    assert("&&"@[0] != "!="@[0]);
    assert("&&"@.len() != "<"@.len());
    assert("&&"@[0] != "<="@[0]);
    assert("&&"@.len() != ">"@.len());
    assert("&&"@[0] != ">="@[0]);
    assert("||"@[0] != "=="@[0]);
    assert("||"@[0] != "!="@[0]);
    assert("||"@.len() != "<"@.len());
    assert("||"@[0] != "<="@[0]);
    assert("||"@.len() != ">"@.len());
    assert("||"@[0] != ">="@[0]);
    assert("=="@[0] != "!="@[0]);
    assert("=="@.len() != "<"@.len());
    assert("=="@[0] != "<="@[0]);
    assert("=="@.len() != ">"@.len());
    assert("=="@[0] != ">="@[0]);
    assert("!="@.len() != "<"@.len());
    assert("!="@[0] != "<="@[0]);
    assert("!="@.len() != ">"@.len());
    assert("!="@[0] != ">="@[0]);
    assert("<"@.len() != "<="@.len());
    assert("<"@[0] != ">"@[0]);
    assert("<"@.len() != ">="@.len());
    assert("<="@.len() != ">"@.len());
    assert("<="@[0] != ">="@[0]);
    assert(">"@.len() != ">="@.len());
}

/// The node kinds that `assign_op` tells apart are distinct.
proof fn lemma_kinds_assign_op()
    ensures
        "="@ != "+="@,
        "="@ != "-="@,
        "="@ != "*="@,
        "="@ != "/="@,
        "="@ != "%="@,
        "="@ != "&="@,
        "="@ != "|="@,
        "="@ != "^="@,
        "="@ != "&^="@,
        "="@ != "<<="@,
        "="@ != ">>="@,
        "+="@ != "-="@,
        "+="@ != "*="@,
        "+="@ != "/="@,
        "+="@ != "%="@,
        "+="@ != "&="@,
        "+="@ != "|="@,
        "+="@ != "^="@,
        "+="@ != "&^="@,
        "+="@ != "<<="@,
        "+="@ != ">>="@,
        "-="@ != "*="@,
        "-="@ != "/="@,
        "-="@ != "%="@,
        "-="@ != "&="@,
        "-="@ != "|="@,
        "-="@ != "^="@,
        "-="@ != "&^="@,
        "-="@ != "<<="@,
        "-="@ != ">>="@,
        "*="@ != "/="@,
        "*="@ != "%="@,
        "*="@ != "&="@,
        "*="@ != "|="@,
        "*="@ != "^="@,
        "*="@ != "&^="@,
        "*="@ != "<<="@,
        "*="@ != ">>="@,
        "/="@ != "%="@,
        "/="@ != "&="@,
        "/="@ != "|="@,
        "/="@ != "^="@,
        "/="@ != "&^="@,
        "/="@ != "<<="@,
        "/="@ != ">>="@,
        "%="@ != "&="@,
        "%="@ != "|="@,
        "%="@ != "^="@,
        "%="@ != "&^="@,
        "%="@ != "<<="@,
        "%="@ != ">>="@,
        "&="@ != "|="@,
        "&="@ != "^="@,
        "&="@ != "&^="@,
        "&="@ != "<<="@,
        "&="@ != ">>="@,
        "|="@ != "^="@,
        "|="@ != "&^="@,
        "|="@ != "<<="@,
        "|="@ != ">>="@,
        "^="@ != "&^="@,
        "^="@ != "<<="@,
        "^="@ != ">>="@,
        "&^="@ != "<<="@,
        "&^="@ != ">>="@,
        "<<="@ != ">>="@,
{
    reveal_strlit("=");
    reveal_strlit("+=");
    reveal_strlit("-=");
    reveal_strlit("*=");
    reveal_strlit("/=");
    reveal_strlit("%=");
    reveal_strlit("&=");
    reveal_strlit("|=");
    reveal_strlit("^=");
    reveal_strlit("&^=");
    reveal_strlit("<<=");
    reveal_strlit(">>=");
    assert("="@.len() != "+="@.len());
    assert("="@.len() != "-="@.len());
    assert("="@.len() != "*="@.len());
    assert("="@.len() != "/="@.len());
    assert("="@.len() != "%="@.len());
    assert("="@.len() != "&="@.len());
    assert("="@.len() != "|="@.len());
    assert("="@.len() != "^="@.len());
    assert("="@.len() != "&^="@.len());
    assert("="@.len() != "<<="@.len());
    assert("="@.len() != ">>="@.len());
    assert("+="@[0] != "-="@[0]);
    assert("+="@[0] != "*="@[0]);
    assert("+="@[0] != "/="@[0]);
    assert("+="@[0] != "%="@[0]);
    assert("+="@[0] != "&="@[0]);
    assert("+="@[0] != "|="@[0]);
    assert("+="@[0] != "^="@[0]);
    assert("+="@.len() != "&^="@.len());
    assert("+="@.len() != "<<="@.len());
    assert("+="@.len() != ">>="@.len());
    assert("-="@[0] != "*="@[0]);
    assert("-="@[0] != "/="@[0]);
    assert("-="@[0] != "%="@[0]);
    assert("-="@[0] != "&="@[0]);
    assert("-="@[0] != "|="@[0]);
    assert("-="@[0] != "^="@[0]);
    assert("-="@.len() != "&^="@.len());
    assert("-="@.len() != "<<="@.len());
    assert("-="@.len() != ">>="@.len());
    assert("*="@[0] != "/="@[0]);
    assert("*="@[0] != "%="@[0]);
    assert("*="@[0] != "&="@[0]);
    assert("*="@[0] != "|="@[0]);
    assert("*="@[0] != "^="@[0]);
    assert("*="@.len() != "&^="@.len());
    assert("*="@.len() != "<<="@.len());
    assert("*="@.len() != ">>="@.len());
    assert("/="@[0] != "%="@[0]);
    assert("/="@[0] != "&="@[0]);
    assert("/="@[0] != "|="@[0]);
    assert("/="@[0] != "^="@[0]);
    assert("/="@.len() != "&^="@.len());
    assert("/="@.len() != "<<="@.len());
    assert("/="@.len() != ">>="@.len());
    assert("%="@[0] != "&="@[0]);
    assert("%="@[0] != "|="@[0]);
    assert("%="@[0] != "^="@[0]);
    assert("%="@.len() != "&^="@.len());
    assert("%="@.len() != "<<="@.len());
    assert("%="@.len() != ">>="@.len());
    assert("&="@[0] != "|="@[0]);
    assert("&="@[0] != "^="@[0]);
    assert("&="@.len() != "&^="@.len());
    assert("&="@.len() != "<<="@.len());
    assert("&="@.len() != ">>="@.len());
    assert("|="@[0] != "^="@[0]);
    assert("|="@.len() != "&^="@.len());
    assert("|="@.len() != "<<="@.len());
    assert("|="@.len() != ">>="@.len());
    assert("^="@.len() != "&^="@.len());
    assert("^="@.len() != "<<="@.len());
    assert("^="@.len() != ">>="@.len());
    assert("&^="@[0] != "<<="@[0]);
    assert("&^="@[0] != ">>="@[0]);
    assert("<<="@[0] != ">>="@[0]);
}

/// The node kinds that `type_ok` tells apart are distinct.
proof fn lemma_kinds_type_ok()
    ensures
        "type_identifier"@ != "qualified_type"@,
        "type_identifier"@ != "pointer_type"@,
        "type_identifier"@ != "negated_type"@,
        "type_identifier"@ != "parenthesized_type"@,
        "type_identifier"@ != "array_type"@,
        "type_identifier"@ != "implicit_length_array_type"@,
        "type_identifier"@ != "slice_type"@,
        "type_identifier"@ != "map_type"@,
        "type_identifier"@ != "channel_type"@,
        "type_identifier"@ != "struct_type"@,
        "type_identifier"@ != "interface_type"@,
        "type_identifier"@ != "function_type"@,
        "type_identifier"@ != "generic_type"@,
        "qualified_type"@ != "pointer_type"@,
        "qualified_type"@ != "negated_type"@,
        "qualified_type"@ != "parenthesized_type"@,
        "qualified_type"@ != "array_type"@,
        "qualified_type"@ != "implicit_length_array_type"@,
        "qualified_type"@ != "slice_type"@,
        "qualified_type"@ != "map_type"@,
        "qualified_type"@ != "channel_type"@,
        "qualified_type"@ != "struct_type"@,
        "qualified_type"@ != "interface_type"@,
        "qualified_type"@ != "function_type"@,
        "qualified_type"@ != "generic_type"@,
        "pointer_type"@ != "negated_type"@,
        "pointer_type"@ != "parenthesized_type"@,
        "pointer_type"@ != "array_type"@,
        "pointer_type"@ != "implicit_length_array_type"@,
        "pointer_type"@ != "slice_type"@,
        "pointer_type"@ != "map_type"@,
        "pointer_type"@ != "channel_type"@,
        "pointer_type"@ != "struct_type"@,
        "pointer_type"@ != "interface_type"@,
        "pointer_type"@ != "function_type"@,
        "pointer_type"@ != "generic_type"@,
        "negated_type"@ != "parenthesized_type"@,
        "negated_type"@ != "array_type"@,
        "negated_type"@ != "implicit_length_array_type"@,
        "negated_type"@ != "slice_type"@,
        "negated_type"@ != "map_type"@,
        "negated_type"@ != "channel_type"@,
        "negated_type"@ != "struct_type"@,
        "negated_type"@ != "interface_type"@,
        "negated_type"@ != "function_type"@,
        "negated_type"@ != "generic_type"@,
        "parenthesized_type"@ != "array_type"@,
        "parenthesized_type"@ != "implicit_length_array_type"@,
        "parenthesized_type"@ != "slice_type"@,
        "parenthesized_type"@ != "map_type"@,
        "parenthesized_type"@ != "channel_type"@,
        "parenthesized_type"@ != "struct_type"@,
        "parenthesized_type"@ != "interface_type"@,
        "parenthesized_type"@ != "function_type"@,
        "parenthesized_type"@ != "generic_type"@,
        "array_type"@ != "implicit_length_array_type"@,
        "array_type"@ != "slice_type"@,
        "array_type"@ != "map_type"@,
        "array_type"@ != "channel_type"@,
        "array_type"@ != "struct_type"@,
        "array_type"@ != "interface_type"@,
        "array_type"@ != "function_type"@,
        "array_type"@ != "generic_type"@,
        "implicit_length_array_type"@ != "slice_type"@,
        "implicit_length_array_type"@ != "map_type"@,
        "implicit_length_array_type"@ != "channel_type"@,
        "implicit_length_array_type"@ != "struct_type"@,
        "implicit_length_array_type"@ != "interface_type"@,
        "implicit_length_array_type"@ != "function_type"@,
        "implicit_length_array_type"@ != "generic_type"@,
        "slice_type"@ != "map_type"@,
        "slice_type"@ != "channel_type"@,
        "slice_type"@ != "struct_type"@,
        "slice_type"@ != "interface_type"@,
        "slice_type"@ != "function_type"@,
        "slice_type"@ != "generic_type"@,
        "map_type"@ != "channel_type"@,
        "map_type"@ != "struct_type"@,
        "map_type"@ != "interface_type"@,
        "map_type"@ != "function_type"@,
        "map_type"@ != "generic_type"@,
        "channel_type"@ != "struct_type"@,
        "channel_type"@ != "interface_type"@,
        "channel_type"@ != "function_type"@,
        "channel_type"@ != "generic_type"@,
        "struct_type"@ != "interface_type"@,
        "struct_type"@ != "function_type"@,
        "struct_type"@ != "generic_type"@,
        "interface_type"@ != "function_type"@,
        "interface_type"@ != "generic_type"@,
        "function_type"@ != "generic_type"@,
{
    reveal_strlit("type_identifier");
    reveal_strlit("qualified_type");
    reveal_strlit("pointer_type");
    reveal_strlit("negated_type");
    reveal_strlit("parenthesized_type");
    reveal_strlit("array_type");
    reveal_strlit("implicit_length_array_type");
    reveal_strlit("slice_type");
    reveal_strlit("map_type");
    reveal_strlit("channel_type");
    reveal_strlit("struct_type");
    reveal_strlit("interface_type");
    reveal_strlit("function_type");
    reveal_strlit("generic_type");
    assert("type_identifier"@.len() != "qualified_type"@.len());
    assert("type_identifier"@.len() != "pointer_type"@.len());
    assert("type_identifier"@.len() != "negated_type"@.len());
    assert("type_identifier"@.len() != "parenthesized_type"@.len());
    assert("type_identifier"@.len() != "array_type"@.len());
    assert("type_identifier"@.len() != "implicit_length_array_type"@.len());
    assert("type_identifier"@.len() != "slice_type"@.len());
    assert("type_identifier"@.len() != "map_type"@.len());
    assert("type_identifier"@.len() != "channel_type"@.len());
    assert("type_identifier"@.len() != "struct_type"@.len());
    assert("type_identifier"@.len() != "interface_type"@.len());
    assert("type_identifier"@.len() != "function_type"@.len());
    assert("type_identifier"@.len() != "generic_type"@.len());
    assert("qualified_type"@.len() != "pointer_type"@.len());
    assert("qualified_type"@.len() != "negated_type"@.len());
    assert("qualified_type"@.len() != "parenthesized_type"@.len());
    assert("qualified_type"@.len() != "array_type"@.len());
    assert("qualified_type"@.len() != "implicit_length_array_type"@.len());
    assert("qualified_type"@.len() != "slice_type"@.len());
    assert("qualified_type"@.len() != "map_type"@.len());
    assert("qualified_type"@.len() != "channel_type"@.len());
    assert("qualified_type"@.len() != "struct_type"@.len());
    assert("qualified_type"@[0] != "interface_type"@[0]);
    assert("qualified_type"@.len() != "function_type"@.len());
    assert("qualified_type"@.len() != "generic_type"@.len());
    assert("pointer_type"@[0] != "negated_type"@[0]);
    assert("pointer_type"@.len() != "parenthesized_type"@.len());
    assert("pointer_type"@.len() != "array_type"@.len());
    assert("pointer_type"@.len() != "implicit_length_array_type"@.len());
    assert("pointer_type"@.len() != "slice_type"@.len());
    assert("pointer_type"@.len() != "map_type"@.len());
    assert("pointer_type"@[0] != "channel_type"@[0]);
    assert("pointer_type"@.len() != "struct_type"@.len());
    assert("pointer_type"@.len() != "interface_type"@.len());
    assert("pointer_type"@.len() != "function_type"@.len());
    assert("pointer_type"@[0] != "generic_type"@[0]);
    assert("negated_type"@.len() != "parenthesized_type"@.len());
    assert("negated_type"@.len() != "array_type"@.len());
    assert("negated_type"@.len() != "implicit_length_array_type"@.len());
    assert("negated_type"@.len() != "slice_type"@.len());
    assert("negated_type"@.len() != "map_type"@.len());
    assert("negated_type"@[0] != "channel_type"@[0]);
    assert("negated_type"@.len() != "struct_type"@.len());
    assert("negated_type"@.len() != "interface_type"@.len());
    assert("negated_type"@.len() != "function_type"@.len());
    assert("negated_type"@[0] != "generic_type"@[0]);
    assert("parenthesized_type"@.len() != "array_type"@.len());
    assert("parenthesized_type"@.len() != "implicit_length_array_type"@.len());
    assert("parenthesized_type"@.len() != "slice_type"@.len());
    assert("parenthesized_type"@.len() != "map_type"@.len());
    assert("parenthesized_type"@.len() != "channel_type"@.len());
    assert("parenthesized_type"@.len() != "struct_type"@.len());
    assert("parenthesized_type"@.len() != "interface_type"@.len());
    assert("parenthesized_type"@.len() != "function_type"@.len());
    assert("parenthesized_type"@.len() != "generic_type"@.len());
    assert("array_type"@.len() != "implicit_length_array_type"@.len());
    assert("array_type"@[0] != "slice_type"@[0]);
    assert("array_type"@.len() != "map_type"@.len());
    assert("array_type"@.len() != "channel_type"@.len());
    assert("array_type"@.len() != "struct_type"@.len());
    assert("array_type"@.len() != "interface_type"@.len());
    assert("array_type"@.len() != "function_type"@.len());
    assert("array_type"@.len() != "generic_type"@.len());
    assert("implicit_length_array_type"@.len() != "slice_type"@.len());
    assert("implicit_length_array_type"@.len() != "map_type"@.len());
    assert("implicit_length_array_type"@.len() != "channel_type"@.len());
    assert("implicit_length_array_type"@.len() != "struct_type"@.len());
    assert("implicit_length_array_type"@.len() != "interface_type"@.len());
    assert("implicit_length_array_type"@.len() != "function_type"@.len());
    assert("implicit_length_array_type"@.len() != "generic_type"@.len());
    assert("slice_type"@.len() != "map_type"@.len());
    assert("slice_type"@.len() != "channel_type"@.len());
    assert("slice_type"@.len() != "struct_type"@.len());
    assert("slice_type"@.len() != "interface_type"@.len());
    assert("slice_type"@.len() != "function_type"@.len());
    assert("slice_type"@.len() != "generic_type"@.len());
    assert("map_type"@.len() != "channel_type"@.len());
    assert("map_type"@.len() != "struct_type"@.len());
    assert("map_type"@.len() != "interface_type"@.len());
    assert("map_type"@.len() != "function_type"@.len());
    assert("map_type"@.len() != "generic_type"@.len());
    assert("channel_type"@.len() != "struct_type"@.len());
    assert("channel_type"@.len() != "interface_type"@.len());
    assert("channel_type"@.len() != "function_type"@.len());
    assert("channel_type"@[0] != "generic_type"@[0]);
    assert("struct_type"@.len() != "interface_type"@.len());
    assert("struct_type"@.len() != "function_type"@.len());
    assert("struct_type"@.len() != "generic_type"@.len());
    assert("interface_type"@.len() != "function_type"@.len());
    assert("interface_type"@.len() != "generic_type"@.len());
    assert("function_type"@.len() != "generic_type"@.len());
}

/// The node kinds that `type_rel` tells apart are distinct.
proof fn lemma_kinds_type_rel()
    ensures
        "type_identifier"@ != "qualified_type"@,
        "type_identifier"@ != "pointer_type"@,
        "type_identifier"@ != "negated_type"@,
        "type_identifier"@ != "parenthesized_type"@,
        "type_identifier"@ != "array_type"@,
        "type_identifier"@ != "implicit_length_array_type"@,
        "type_identifier"@ != "..."@,
        "type_identifier"@ != "slice_type"@,
        "type_identifier"@ != "map_type"@,
        "type_identifier"@ != "channel_type"@,
        "type_identifier"@ != "struct_type"@,
        "type_identifier"@ != "interface_type"@,
        "type_identifier"@ != "function_type"@,
        "type_identifier"@ != "generic_type"@,
        "qualified_type"@ != "pointer_type"@,
        "qualified_type"@ != "negated_type"@,
        "qualified_type"@ != "parenthesized_type"@,
        "qualified_type"@ != "array_type"@,
        "qualified_type"@ != "implicit_length_array_type"@,
        "qualified_type"@ != "..."@,
        "qualified_type"@ != "slice_type"@,
        "qualified_type"@ != "map_type"@,
        "qualified_type"@ != "channel_type"@,
        "qualified_type"@ != "struct_type"@,
        "qualified_type"@ != "interface_type"@,
        "qualified_type"@ != "function_type"@,
        "qualified_type"@ != "generic_type"@,
        "pointer_type"@ != "negated_type"@,
        "pointer_type"@ != "parenthesized_type"@,
        "pointer_type"@ != "array_type"@,
        "pointer_type"@ != "implicit_length_array_type"@,
        "pointer_type"@ != "..."@,
        "pointer_type"@ != "slice_type"@,
        "pointer_type"@ != "map_type"@,
        "pointer_type"@ != "channel_type"@,
        "pointer_type"@ != "struct_type"@,
        "pointer_type"@ != "interface_type"@,
        "pointer_type"@ != "function_type"@,
        "pointer_type"@ != "generic_type"@,
        "negated_type"@ != "parenthesized_type"@,
        "negated_type"@ != "array_type"@,
        "negated_type"@ != "implicit_length_array_type"@,
        "negated_type"@ != "..."@,
        "negated_type"@ != "slice_type"@,
        "negated_type"@ != "map_type"@,
        "negated_type"@ != "channel_type"@,
        "negated_type"@ != "struct_type"@,
        "negated_type"@ != "interface_type"@,
        "negated_type"@ != "function_type"@,
        "negated_type"@ != "generic_type"@,
        "parenthesized_type"@ != "array_type"@,
        "parenthesized_type"@ != "implicit_length_array_type"@,
        "parenthesized_type"@ != "..."@,
        "parenthesized_type"@ != "slice_type"@,
        "parenthesized_type"@ != "map_type"@,
        "parenthesized_type"@ != "channel_type"@,
        "parenthesized_type"@ != "struct_type"@,
        "parenthesized_type"@ != "interface_type"@,
        "parenthesized_type"@ != "function_type"@,
        "parenthesized_type"@ != "generic_type"@,
        "array_type"@ != "implicit_length_array_type"@,
        "array_type"@ != "..."@,
        "array_type"@ != "slice_type"@,
        "array_type"@ != "map_type"@,
        "array_type"@ != "channel_type"@,
        "array_type"@ != "struct_type"@,
        "array_type"@ != "interface_type"@,
        "array_type"@ != "function_type"@,
        "array_type"@ != "generic_type"@,
        "implicit_length_array_type"@ != "..."@,
        "implicit_length_array_type"@ != "slice_type"@,
        "implicit_length_array_type"@ != "map_type"@,
        "implicit_length_array_type"@ != "channel_type"@,
        "implicit_length_array_type"@ != "struct_type"@,
        "implicit_length_array_type"@ != "interface_type"@,
        "implicit_length_array_type"@ != "function_type"@,
        "implicit_length_array_type"@ != "generic_type"@,
        "..."@ != "slice_type"@,
        "..."@ != "map_type"@,
        "..."@ != "channel_type"@,
        "..."@ != "struct_type"@,
        "..."@ != "interface_type"@,
        "..."@ != "function_type"@,
        "..."@ != "generic_type"@,
        "slice_type"@ != "map_type"@,
        "slice_type"@ != "channel_type"@,
        "slice_type"@ != "struct_type"@,
        "slice_type"@ != "interface_type"@,
        "slice_type"@ != "function_type"@,
        "slice_type"@ != "generic_type"@,
        "map_type"@ != "channel_type"@,
        "map_type"@ != "struct_type"@,
        "map_type"@ != "interface_type"@,
        "map_type"@ != "function_type"@,
        "map_type"@ != "generic_type"@,
        "channel_type"@ != "struct_type"@,
        "channel_type"@ != "interface_type"@,
        "channel_type"@ != "function_type"@,
        "channel_type"@ != "generic_type"@,
        "struct_type"@ != "interface_type"@,
        "struct_type"@ != "function_type"@,
        "struct_type"@ != "generic_type"@,
        "interface_type"@ != "function_type"@,
        "interface_type"@ != "generic_type"@,
        "function_type"@ != "generic_type"@,
{
    reveal_strlit("type_identifier");
    reveal_strlit("qualified_type");
    reveal_strlit("pointer_type");
    reveal_strlit("negated_type");
    reveal_strlit("parenthesized_type");
    reveal_strlit("array_type");
    reveal_strlit("implicit_length_array_type");
    reveal_strlit("...");
    reveal_strlit("slice_type");
    reveal_strlit("map_type");
    reveal_strlit("channel_type");
    reveal_strlit("struct_type");
    reveal_strlit("interface_type");
    reveal_strlit("function_type");
    reveal_strlit("generic_type");
    assert("type_identifier"@.len() != "qualified_type"@.len());
    assert("type_identifier"@.len() != "pointer_type"@.len());
    assert("type_identifier"@.len() != "negated_type"@.len());
    assert("type_identifier"@.len() != "parenthesized_type"@.len());
    assert("type_identifier"@.len() != "array_type"@.len());
    assert("type_identifier"@.len() != "implicit_length_array_type"@.len());
    assert("type_identifier"@.len() != "..."@.len());
    assert("type_identifier"@.len() != "slice_type"@.len());
    assert("type_identifier"@.len() != "map_type"@.len());
    assert("type_identifier"@.len() != "channel_type"@.len());
    assert("type_identifier"@.len() != "struct_type"@.len());
    assert("type_identifier"@.len() != "interface_type"@.len());
    assert("type_identifier"@.len() != "function_type"@.len());
    assert("type_identifier"@.len() != "generic_type"@.len());
    assert("qualified_type"@.len() != "pointer_type"@.len());
    assert("qualified_type"@.len() != "negated_type"@.len());
    assert("qualified_type"@.len() != "parenthesized_type"@.len());
    assert("qualified_type"@.len() != "array_type"@.len());
    assert("qualified_type"@.len() != "implicit_length_array_type"@.len());
    assert("qualified_type"@.len() != "..."@.len());
    assert("qualified_type"@.len() != "slice_type"@.len());
    assert("qualified_type"@.len() != "map_type"@.len());
    assert("qualified_type"@.len() != "channel_type"@.len());
    assert("qualified_type"@.len() != "struct_type"@.len());
    assert("qualified_type"@[0] != "interface_type"@[0]);
    assert("qualified_type"@.len() != "function_type"@.len());
    assert("qualified_type"@.len() != "generic_type"@.len());
    assert("pointer_type"@[0] != "negated_type"@[0]);
    assert("pointer_type"@.len() != "parenthesized_type"@.len());
    assert("pointer_type"@.len() != "array_type"@.len());
    assert("pointer_type"@.len() != "implicit_length_array_type"@.len());
    assert("pointer_type"@.len() != "..."@.len());
    assert("pointer_type"@.len() != "slice_type"@.len());
    assert("pointer_type"@.len() != "map_type"@.len());
    assert("pointer_type"@[0] != "channel_type"@[0]);
    assert("pointer_type"@.len() != "struct_type"@.len());
    assert("pointer_type"@.len() != "interface_type"@.len());
    assert("pointer_type"@.len() != "function_type"@.len());
    assert("pointer_type"@[0] != "generic_type"@[0]);
    assert("negated_type"@.len() != "parenthesized_type"@.len());
    assert("negated_type"@.len() != "array_type"@.len());
    assert("negated_type"@.len() != "implicit_length_array_type"@.len());
    assert("negated_type"@.len() != "..."@.len());
    assert("negated_type"@.len() != "slice_type"@.len());
    assert("negated_type"@.len() != "map_type"@.len());
    assert("negated_type"@[0] != "channel_type"@[0]);
    assert("negated_type"@.len() != "struct_type"@.len());
    assert("negated_type"@.len() != "interface_type"@.len());
    assert("negated_type"@.len() != "function_type"@.len());
    assert("negated_type"@[0] != "generic_type"@[0]);
    assert("parenthesized_type"@.len() != "array_type"@.len());
    assert("parenthesized_type"@.len() != "implicit_length_array_type"@.len());
    assert("parenthesized_type"@.len() != "..."@.len());
    assert("parenthesized_type"@.len() != "slice_type"@.len());
    assert("parenthesized_type"@.len() != "map_type"@.len());
    assert("parenthesized_type"@.len() != "channel_type"@.len());
    assert("parenthesized_type"@.len() != "struct_type"@.len());
    assert("parenthesized_type"@.len() != "interface_type"@.len());
    assert("parenthesized_type"@.len() != "function_type"@.len());
    assert("parenthesized_type"@.len() != "generic_type"@.len());
    assert("array_type"@.len() != "implicit_length_array_type"@.len());
    assert("array_type"@.len() != "..."@.len());
    assert("array_type"@[0] != "slice_type"@[0]);
    assert("array_type"@.len() != "map_type"@.len());
    assert("array_type"@.len() != "channel_type"@.len());
    assert("array_type"@.len() != "struct_type"@.len());
    assert("array_type"@.len() != "interface_type"@.len());
    assert("array_type"@.len() != "function_type"@.len());
    assert("array_type"@.len() != "generic_type"@.len());
    assert("implicit_length_array_type"@.len() != "..."@.len());
    assert("implicit_length_array_type"@.len() != "slice_type"@.len());
    assert("implicit_length_array_type"@.len() != "map_type"@.len());
    assert("implicit_length_array_type"@.len() != "channel_type"@.len());
    assert("implicit_length_array_type"@.len() != "struct_type"@.len());
    assert("implicit_length_array_type"@.len() != "interface_type"@.len());
    assert("implicit_length_array_type"@.len() != "function_type"@.len());
    assert("implicit_length_array_type"@.len() != "generic_type"@.len());
    assert("..."@.len() != "slice_type"@.len());
    assert("..."@.len() != "map_type"@.len());
    assert("..."@.len() != "channel_type"@.len());
    assert("..."@.len() != "struct_type"@.len());
    assert("..."@.len() != "interface_type"@.len());
    assert("..."@.len() != "function_type"@.len());
    assert("..."@.len() != "generic_type"@.len());
    assert("slice_type"@.len() != "map_type"@.len());
    assert("slice_type"@.len() != "channel_type"@.len());
    assert("slice_type"@.len() != "struct_type"@.len());
    assert("slice_type"@.len() != "interface_type"@.len());
    assert("slice_type"@.len() != "function_type"@.len());
    assert("slice_type"@.len() != "generic_type"@.len());
    assert("map_type"@.len() != "channel_type"@.len());
    assert("map_type"@.len() != "struct_type"@.len());
    assert("map_type"@.len() != "interface_type"@.len());
    assert("map_type"@.len() != "function_type"@.len());
    assert("map_type"@.len() != "generic_type"@.len());
    assert("channel_type"@.len() != "struct_type"@.len());
    assert("channel_type"@.len() != "interface_type"@.len());
    assert("channel_type"@.len() != "function_type"@.len());
    assert("channel_type"@[0] != "generic_type"@[0]);
    assert("struct_type"@.len() != "interface_type"@.len());
    assert("struct_type"@.len() != "function_type"@.len());
    assert("struct_type"@.len() != "generic_type"@.len());
    assert("interface_type"@.len() != "function_type"@.len());
    assert("interface_type"@.len() != "generic_type"@.len());
    assert("function_type"@.len() != "generic_type"@.len());
}

/// The node kinds that `elem_ok` tells apart are distinct.
proof fn lemma_kinds_elem_ok()
    ensures
        "method_elem"@ != "type_elem"@,
{
    reveal_strlit("method_elem");
    reveal_strlit("type_elem");
    assert("method_elem"@.len() != "type_elem"@.len());
}

/// The node kinds that `elem_rel` tells apart are distinct.
proof fn lemma_kinds_elem_rel()
    ensures
        "method_elem"@ != "type_elem"@,
{
    reveal_strlit("method_elem");
    reveal_strlit("type_elem");
    assert("method_elem"@.len() != "type_elem"@.len());
}

/// The node kinds that `param_ok` tells apart are distinct.
proof fn lemma_kinds_param_ok()
    ensures
        "parameter_declaration"@ != "variadic_parameter_declaration"@,
{
    reveal_strlit("parameter_declaration");
    reveal_strlit("variadic_parameter_declaration");
    assert("parameter_declaration"@.len() != "variadic_parameter_declaration"@.len());
}

/// The node kinds that `expr_ok` tells apart are distinct.
proof fn lemma_kinds_expr_ok()
    ensures
        "identifier"@ != "int_literal"@,
        "identifier"@ != "float_literal"@,
        "identifier"@ != "imaginary_literal"@,
        "identifier"@ != "rune_literal"@,
        "identifier"@ != "interpreted_string_literal"@,
        "identifier"@ != "raw_string_literal"@,
        "identifier"@ != "true"@,
        "identifier"@ != "false"@,
        "identifier"@ != "nil"@,
        "identifier"@ != "iota"@,
        "identifier"@ != "parenthesized_expression"@,
        "identifier"@ != "selector_expression"@,
        "identifier"@ != "index_expression"@,
        "identifier"@ != "slice_expression"@,
        "identifier"@ != "call_expression"@,
        "identifier"@ != "type_conversion_expression"@,
        "identifier"@ != "type_assertion_expression"@,
        "identifier"@ != "type_instantiation_expression"@,
        "identifier"@ != "unary_expression"@,
        "identifier"@ != "binary_expression"@,
        "identifier"@ != "composite_literal"@,
        "identifier"@ != "func_literal"@,
        "int_literal"@ != "float_literal"@,
        "int_literal"@ != "imaginary_literal"@,
        "int_literal"@ != "rune_literal"@,
        "int_literal"@ != "interpreted_string_literal"@,
        "int_literal"@ != "raw_string_literal"@,
        "int_literal"@ != "true"@,
        "int_literal"@ != "false"@,
        "int_literal"@ != "nil"@,
        "int_literal"@ != "iota"@,
        "int_literal"@ != "parenthesized_expression"@,
        "int_literal"@ != "selector_expression"@,
        "int_literal"@ != "index_expression"@,
        "int_literal"@ != "slice_expression"@,
        "int_literal"@ != "call_expression"@,
        "int_literal"@ != "type_conversion_expression"@,
        "int_literal"@ != "type_assertion_expression"@,
        "int_literal"@ != "type_instantiation_expression"@,
        "int_literal"@ != "unary_expression"@,
        "int_literal"@ != "binary_expression"@,
        "int_literal"@ != "composite_literal"@,
        "int_literal"@ != "func_literal"@,
        "float_literal"@ != "imaginary_literal"@,
        "float_literal"@ != "rune_literal"@,
        "float_literal"@ != "interpreted_string_literal"@,
        "float_literal"@ != "raw_string_literal"@,
        "float_literal"@ != "true"@,
        "float_literal"@ != "false"@,
        "float_literal"@ != "nil"@,
        "float_literal"@ != "iota"@,
        "float_literal"@ != "parenthesized_expression"@,
        "float_literal"@ != "selector_expression"@,
        "float_literal"@ != "index_expression"@,
        "float_literal"@ != "slice_expression"@,
        "float_literal"@ != "call_expression"@,
        "float_literal"@ != "type_conversion_expression"@,
        "float_literal"@ != "type_assertion_expression"@,
        "float_literal"@ != "type_instantiation_expression"@,
        "float_literal"@ != "unary_expression"@,
        "float_literal"@ != "binary_expression"@,
        "float_literal"@ != "composite_literal"@,
        "float_literal"@ != "func_literal"@,
        "imaginary_literal"@ != "rune_literal"@,
        "imaginary_literal"@ != "interpreted_string_literal"@,
        "imaginary_literal"@ != "raw_string_literal"@,
        "imaginary_literal"@ != "true"@,
        "imaginary_literal"@ != "false"@,
        "imaginary_literal"@ != "nil"@,
        "imaginary_literal"@ != "iota"@,
        "imaginary_literal"@ != "parenthesized_expression"@,
        "imaginary_literal"@ != "selector_expression"@,
        "imaginary_literal"@ != "index_expression"@,
        "imaginary_literal"@ != "slice_expression"@,
        "imaginary_literal"@ != "call_expression"@,
        "imaginary_literal"@ != "type_conversion_expression"@,
        "imaginary_literal"@ != "type_assertion_expression"@,
        "imaginary_literal"@ != "type_instantiation_expression"@,
        "imaginary_literal"@ != "unary_expression"@,
        "imaginary_literal"@ != "binary_expression"@,
        "imaginary_literal"@ != "composite_literal"@,
        "imaginary_literal"@ != "func_literal"@,
        "rune_literal"@ != "interpreted_string_literal"@,
        "rune_literal"@ != "raw_string_literal"@,
        "rune_literal"@ != "true"@,
        "rune_literal"@ != "false"@,
        "rune_literal"@ != "nil"@,
        "rune_literal"@ != "iota"@,
        "rune_literal"@ != "parenthesized_expression"@,
        "rune_literal"@ != "selector_expression"@,
        "rune_literal"@ != "index_expression"@,
        "rune_literal"@ != "slice_expression"@,
        "rune_literal"@ != "call_expression"@,
        "rune_literal"@ != "type_conversion_expression"@,
        "rune_literal"@ != "type_assertion_expression"@,
        "rune_literal"@ != "type_instantiation_expression"@,
        "rune_literal"@ != "unary_expression"@,
        "rune_literal"@ != "binary_expression"@,
        "rune_literal"@ != "composite_literal"@,
        "rune_literal"@ != "func_literal"@,
        "interpreted_string_literal"@ != "raw_string_literal"@,
        "interpreted_string_literal"@ != "true"@,
        "interpreted_string_literal"@ != "false"@,
        "interpreted_string_literal"@ != "nil"@,
        "interpreted_string_literal"@ != "iota"@,
        "interpreted_string_literal"@ != "parenthesized_expression"@,
        "interpreted_string_literal"@ != "selector_expression"@,
        "interpreted_string_literal"@ != "index_expression"@,
        "interpreted_string_literal"@ != "slice_expression"@,
        "interpreted_string_literal"@ != "call_expression"@,
        "interpreted_string_literal"@ != "type_conversion_expression"@,
        "interpreted_string_literal"@ != "type_assertion_expression"@,
        "interpreted_string_literal"@ != "type_instantiation_expression"@,
        "interpreted_string_literal"@ != "unary_expression"@,
        "interpreted_string_literal"@ != "binary_expression"@,
        "interpreted_string_literal"@ != "composite_literal"@,
        "interpreted_string_literal"@ != "func_literal"@,
        "raw_string_literal"@ != "true"@,
        "raw_string_literal"@ != "false"@,
        "raw_string_literal"@ != "nil"@,
        "raw_string_literal"@ != "iota"@,
        "raw_string_literal"@ != "parenthesized_expression"@,
        "raw_string_literal"@ != "selector_expression"@,
        "raw_string_literal"@ != "index_expression"@,
        "raw_string_literal"@ != "slice_expression"@,
        "raw_string_literal"@ != "call_expression"@,
        "raw_string_literal"@ != "type_conversion_expression"@,
        "raw_string_literal"@ != "type_assertion_expression"@,
        "raw_string_literal"@ != "type_instantiation_expression"@,
        "raw_string_literal"@ != "unary_expression"@,
        "raw_string_literal"@ != "binary_expression"@,
        "raw_string_literal"@ != "composite_literal"@,
        "raw_string_literal"@ != "func_literal"@,
        "true"@ != "false"@,
        "true"@ != "nil"@,
        "true"@ != "iota"@,
        "true"@ != "parenthesized_expression"@,
        "true"@ != "selector_expression"@,
        "true"@ != "index_expression"@,
        "true"@ != "slice_expression"@,
        "true"@ != "call_expression"@,
        "true"@ != "type_conversion_expression"@,
        "true"@ != "type_assertion_expression"@,
        "true"@ != "type_instantiation_expression"@,
        "true"@ != "unary_expression"@,
        "true"@ != "binary_expression"@,
        "true"@ != "composite_literal"@,
        "true"@ != "func_literal"@,
        "false"@ != "nil"@,
        "false"@ != "iota"@,
        "false"@ != "parenthesized_expression"@,
        "false"@ != "selector_expression"@,
        "false"@ != "index_expression"@,
        "false"@ != "slice_expression"@,
        "false"@ != "call_expression"@,
        "false"@ != "type_conversion_expression"@,
        "false"@ != "type_assertion_expression"@,
        "false"@ != "type_instantiation_expression"@,
        "false"@ != "unary_expression"@,
        "false"@ != "binary_expression"@,
        "false"@ != "composite_literal"@,
        "false"@ != "func_literal"@,
        "nil"@ != "iota"@,
        "nil"@ != "parenthesized_expression"@,
        "nil"@ != "selector_expression"@,
        "nil"@ != "index_expression"@,
        "nil"@ != "slice_expression"@,
        "nil"@ != "call_expression"@,
        "nil"@ != "type_conversion_expression"@,
        "nil"@ != "type_assertion_expression"@,
        "nil"@ != "type_instantiation_expression"@,
        "nil"@ != "unary_expression"@,
        "nil"@ != "binary_expression"@,
        "nil"@ != "composite_literal"@,
        "nil"@ != "func_literal"@,
        "iota"@ != "parenthesized_expression"@,
        "iota"@ != "selector_expression"@,
        "iota"@ != "index_expression"@,
        "iota"@ != "slice_expression"@,
        "iota"@ != "call_expression"@,
        "iota"@ != "type_conversion_expression"@,
        "iota"@ != "type_assertion_expression"@,
        "iota"@ != "type_instantiation_expression"@,
        "iota"@ != "unary_expression"@,
        "iota"@ != "binary_expression"@,
        "iota"@ != "composite_literal"@,
        "iota"@ != "func_literal"@,
        "parenthesized_expression"@ != "selector_expression"@,
        "parenthesized_expression"@ != "index_expression"@,
        "parenthesized_expression"@ != "slice_expression"@,
        "parenthesized_expression"@ != "call_expression"@,
        "parenthesized_expression"@ != "type_conversion_expression"@,
        "parenthesized_expression"@ != "type_assertion_expression"@,
        "parenthesized_expression"@ != "type_instantiation_expression"@,
        "parenthesized_expression"@ != "unary_expression"@,
        "parenthesized_expression"@ != "binary_expression"@,
        "parenthesized_expression"@ != "composite_literal"@,
        "parenthesized_expression"@ != "func_literal"@,
        "selector_expression"@ != "index_expression"@,
        "selector_expression"@ != "slice_expression"@,
        "selector_expression"@ != "call_expression"@,
        "selector_expression"@ != "type_conversion_expression"@,
        "selector_expression"@ != "type_assertion_expression"@,
        "selector_expression"@ != "type_instantiation_expression"@,
        "selector_expression"@ != "unary_expression"@,
        "selector_expression"@ != "binary_expression"@,
        "selector_expression"@ != "composite_literal"@,
        "selector_expression"@ != "func_literal"@,
        "index_expression"@ != "slice_expression"@,
        "index_expression"@ != "call_expression"@,
        "index_expression"@ != "type_conversion_expression"@,
        "index_expression"@ != "type_assertion_expression"@,
        "index_expression"@ != "type_instantiation_expression"@,
        "index_expression"@ != "unary_expression"@,
        "index_expression"@ != "binary_expression"@,
        "index_expression"@ != "composite_literal"@,
        "index_expression"@ != "func_literal"@,
        "slice_expression"@ != "call_expression"@,
        "slice_expression"@ != "type_conversion_expression"@,
        "slice_expression"@ != "type_assertion_expression"@,
        "slice_expression"@ != "type_instantiation_expression"@,
        "slice_expression"@ != "unary_expression"@,
        "slice_expression"@ != "binary_expression"@,
        "slice_expression"@ != "composite_literal"@,
        "slice_expression"@ != "func_literal"@,
        "call_expression"@ != "type_conversion_expression"@,
        "call_expression"@ != "type_assertion_expression"@,
        "call_expression"@ != "type_instantiation_expression"@,
        "call_expression"@ != "unary_expression"@,
        "call_expression"@ != "binary_expression"@,
        "call_expression"@ != "composite_literal"@,
        "call_expression"@ != "func_literal"@,
        "type_conversion_expression"@ != "type_assertion_expression"@,
        "type_conversion_expression"@ != "type_instantiation_expression"@,
        "type_conversion_expression"@ != "unary_expression"@,
        "type_conversion_expression"@ != "binary_expression"@,
        "type_conversion_expression"@ != "composite_literal"@,
        "type_conversion_expression"@ != "func_literal"@,
        "type_assertion_expression"@ != "type_instantiation_expression"@,
        "type_assertion_expression"@ != "unary_expression"@,
        "type_assertion_expression"@ != "binary_expression"@,
        "type_assertion_expression"@ != "composite_literal"@,
        "type_assertion_expression"@ != "func_literal"@,
        "type_instantiation_expression"@ != "unary_expression"@,
        "type_instantiation_expression"@ != "binary_expression"@,
        "type_instantiation_expression"@ != "composite_literal"@,
        "type_instantiation_expression"@ != "func_literal"@,
        "unary_expression"@ != "binary_expression"@,
        "unary_expression"@ != "composite_literal"@,
        "unary_expression"@ != "func_literal"@,
        "binary_expression"@ != "composite_literal"@,
        "binary_expression"@ != "func_literal"@,
        "composite_literal"@ != "func_literal"@,
{
    reveal_strlit("identifier");
    reveal_strlit("int_literal");
    reveal_strlit("float_literal");
    reveal_strlit("imaginary_literal");
    reveal_strlit("rune_literal");
    reveal_strlit("interpreted_string_literal");
    reveal_strlit("raw_string_literal");
    reveal_strlit("true");
    reveal_strlit("false");
    reveal_strlit("nil");
    reveal_strlit("iota");
    reveal_strlit("parenthesized_expression");
    reveal_strlit("selector_expression");
    reveal_strlit("index_expression");
    reveal_strlit("slice_expression");
    reveal_strlit("call_expression");
    reveal_strlit("type_conversion_expression");
    reveal_strlit("type_assertion_expression");
    reveal_strlit("type_instantiation_expression");
    reveal_strlit("unary_expression");
    reveal_strlit("binary_expression");
    reveal_strlit("composite_literal");
    reveal_strlit("func_literal");
    assert("identifier"@.len() != "int_literal"@.len());
    assert("identifier"@.len() != "float_literal"@.len());
    assert("identifier"@.len() != "imaginary_literal"@.len());
    assert("identifier"@.len() != "rune_literal"@.len());
    assert("identifier"@.len() != "interpreted_string_literal"@.len());
    assert("identifier"@.len() != "raw_string_literal"@.len());
    assert("identifier"@.len() != "true"@.len());
    assert("identifier"@.len() != "false"@.len());
    assert("identifier"@.len() != "nil"@.len());
    assert("identifier"@.len() != "iota"@.len());
    assert("identifier"@.len() != "parenthesized_expression"@.len());
    assert("identifier"@.len() != "selector_expression"@.len());
    assert("identifier"@.len() != "index_expression"@.len());
    assert("identifier"@.len() != "slice_expression"@.len());
    assert("identifier"@.len() != "call_expression"@.len());
    assert("identifier"@.len() != "type_conversion_expression"@.len());
    assert("identifier"@.len() != "type_assertion_expression"@.len());
    assert("identifier"@.len() != "type_instantiation_expression"@.len());
    assert("identifier"@.len() != "unary_expression"@.len());
    assert("identifier"@.len() != "binary_expression"@.len());
    assert("identifier"@.len() != "composite_literal"@.len());
    assert("identifier"@.len() != "func_literal"@.len());
    assert("int_literal"@.len() != "float_literal"@.len());
    assert("int_literal"@.len() != "imaginary_literal"@.len());
    assert("int_literal"@.len() != "rune_literal"@.len());
    assert("int_literal"@.len() != "interpreted_string_literal"@.len());
    assert("int_literal"@.len() != "raw_string_literal"@.len());
    assert("int_literal"@.len() != "true"@.len());
    assert("int_literal"@.len() != "false"@.len());
    assert("int_literal"@.len() != "nil"@.len());
    assert("int_literal"@.len() != "iota"@.len());
    assert("int_literal"@.len() != "parenthesized_expression"@.len());
    assert("int_literal"@.len() != "selector_expression"@.len());
    assert("int_literal"@.len() != "index_expression"@.len());
    assert("int_literal"@.len() != "slice_expression"@.len());
    assert("int_literal"@.len() != "call_expression"@.len());
    assert("int_literal"@.len() != "type_conversion_expression"@.len());
    assert("int_literal"@.len() != "type_assertion_expression"@.len());
    assert("int_literal"@.len() != "type_instantiation_expression"@.len());
    assert("int_literal"@.len() != "unary_expression"@.len());
    assert("int_literal"@.len() != "binary_expression"@.len());
    assert("int_literal"@.len() != "composite_literal"@.len());
    assert("int_literal"@.len() != "func_literal"@.len());
    assert("float_literal"@.len() != "imaginary_literal"@.len());
    assert("float_literal"@.len() != "rune_literal"@.len());
    assert("float_literal"@.len() != "interpreted_string_literal"@.len());
    assert("float_literal"@.len() != "raw_string_literal"@.len());
    assert("float_literal"@.len() != "true"@.len());
    assert("float_literal"@.len() != "false"@.len());
    assert("float_literal"@.len() != "nil"@.len());
    assert("float_literal"@.len() != "iota"@.len());
    assert("float_literal"@.len() != "parenthesized_expression"@.len());
    assert("float_literal"@.len() != "selector_expression"@.len());
    assert("float_literal"@.len() != "index_expression"@.len());
    assert("float_literal"@.len() != "slice_expression"@.len());
    assert("float_literal"@.len() != "call_expression"@.len());
    assert("float_literal"@.len() != "type_conversion_expression"@.len());
    assert("float_literal"@.len() != "type_assertion_expression"@.len());
    assert("float_literal"@.len() != "type_instantiation_expression"@.len());
    assert("float_literal"@.len() != "unary_expression"@.len());
    assert("float_literal"@.len() != "binary_expression"@.len());
    assert("float_literal"@.len() != "composite_literal"@.len());
    assert("float_literal"@.len() != "func_literal"@.len());
    assert("imaginary_literal"@.len() != "rune_literal"@.len());
    assert("imaginary_literal"@.len() != "interpreted_string_literal"@.len());
    assert("imaginary_literal"@.len() != "raw_string_literal"@.len());
    assert("imaginary_literal"@.len() != "true"@.len());
    assert("imaginary_literal"@.len() != "false"@.len());
    assert("imaginary_literal"@.len() != "nil"@.len());
    assert("imaginary_literal"@.len() != "iota"@.len());
    assert("imaginary_literal"@.len() != "parenthesized_expression"@.len());
    assert("imaginary_literal"@.len() != "selector_expression"@.len());
    assert("imaginary_literal"@.len() != "index_expression"@.len());
    assert("imaginary_literal"@.len() != "slice_expression"@.len());
    assert("imaginary_literal"@.len() != "call_expression"@.len());
    assert("imaginary_literal"@.len() != "type_conversion_expression"@.len());
    assert("imaginary_literal"@.len() != "type_assertion_expression"@.len());
    assert("imaginary_literal"@.len() != "type_instantiation_expression"@.len());
    assert("imaginary_literal"@.len() != "unary_expression"@.len());
    assert("imaginary_literal"@[0] != "binary_expression"@[0]);
    assert("imaginary_literal"@[0] != "composite_literal"@[0]);
    assert("imaginary_literal"@.len() != "func_literal"@.len());
    assert("rune_literal"@.len() != "interpreted_string_literal"@.len());
    assert("rune_literal"@.len() != "raw_string_literal"@.len());
    assert("rune_literal"@.len() != "true"@.len());
    assert("rune_literal"@.len() != "false"@.len());
    assert("rune_literal"@.len() != "nil"@.len());
    assert("rune_literal"@.len() != "iota"@.len());
    assert("rune_literal"@.len() != "parenthesized_expression"@.len());
    assert("rune_literal"@.len() != "selector_expression"@.len());
    assert("rune_literal"@.len() != "index_expression"@.len());
    assert("rune_literal"@.len() != "slice_expression"@.len());
    assert("rune_literal"@.len() != "call_expression"@.len());
    assert("rune_literal"@.len() != "type_conversion_expression"@.len());
    assert("rune_literal"@.len() != "type_assertion_expression"@.len());
    assert("rune_literal"@.len() != "type_instantiation_expression"@.len());
    assert("rune_literal"@.len() != "unary_expression"@.len());
    assert("rune_literal"@.len() != "binary_expression"@.len());
    assert("rune_literal"@.len() != "composite_literal"@.len());
    assert("rune_literal"@[0] != "func_literal"@[0]);
    assert("interpreted_string_literal"@.len() != "raw_string_literal"@.len());
    assert("interpreted_string_literal"@.len() != "true"@.len());
    assert("interpreted_string_literal"@.len() != "false"@.len());
    assert("interpreted_string_literal"@.len() != "nil"@.len());
    assert("interpreted_string_literal"@.len() != "iota"@.len());
    assert("interpreted_string_literal"@.len() != "parenthesized_expression"@.len());
    assert("interpreted_string_literal"@.len() != "selector_expression"@.len());
    assert("interpreted_string_literal"@.len() != "index_expression"@.len());
    assert("interpreted_string_literal"@.len() != "slice_expression"@.len());
    assert("interpreted_string_literal"@.len() != "call_expression"@.len());
    assert("interpreted_string_literal"@[0] != "type_conversion_expression"@[0]);
    assert("interpreted_string_literal"@.len() != "type_assertion_expression"@.len());
    assert("interpreted_string_literal"@.len() != "type_instantiation_expression"@.len());
    assert("interpreted_string_literal"@.len() != "unary_expression"@.len());
    assert("interpreted_string_literal"@.len() != "binary_expression"@.len());
    assert("interpreted_string_literal"@.len() != "composite_literal"@.len());
    assert("interpreted_string_literal"@.len() != "func_literal"@.len());
    assert("raw_string_literal"@.len() != "true"@.len());
    assert("raw_string_literal"@.len() != "false"@.len());
    assert("raw_string_literal"@.len() != "nil"@.len());
    assert("raw_string_literal"@.len() != "iota"@.len());
    assert("raw_string_literal"@.len() != "parenthesized_expression"@.len());
    assert("raw_string_literal"@.len() != "selector_expression"@.len());
    assert("raw_string_literal"@.len() != "index_expression"@.len());
    assert("raw_string_literal"@.len() != "slice_expression"@.len());
    assert("raw_string_literal"@.len() != "call_expression"@.len());
    assert("raw_string_literal"@.len() != "type_conversion_expression"@.len());
    assert("raw_string_literal"@.len() != "type_assertion_expression"@.len());
    assert("raw_string_literal"@.len() != "type_instantiation_expression"@.len());
    assert("raw_string_literal"@.len() != "unary_expression"@.len());
    assert("raw_string_literal"@.len() != "binary_expression"@.len());
    assert("raw_string_literal"@.len() != "composite_literal"@.len());
    assert("raw_string_literal"@.len() != "func_literal"@.len());
    assert("true"@.len() != "false"@.len());
    assert("true"@.len() != "nil"@.len());
    assert("true"@[0] != "iota"@[0]);
    assert("true"@.len() != "parenthesized_expression"@.len());
    assert("true"@.len() != "selector_expression"@.len());
    assert("true"@.len() != "index_expression"@.len());
    assert("true"@.len() != "slice_expression"@.len());
    assert("true"@.len() != "call_expression"@.len());
    assert("true"@.len() != "type_conversion_expression"@.len());
    assert("true"@.len() != "type_assertion_expression"@.len());
    assert("true"@.len() != "type_instantiation_expression"@.len());
    assert("true"@.len() != "unary_expression"@.len());
    assert("true"@.len() != "binary_expression"@.len());
    assert("true"@.len() != "composite_literal"@.len());
    assert("true"@.len() != "func_literal"@.len());
    assert("false"@.len() != "nil"@.len());
    assert("false"@.len() != "iota"@.len());
    assert("false"@.len() != "parenthesized_expression"@.len());
    assert("false"@.len() != "selector_expression"@.len());
    assert("false"@.len() != "index_expression"@.len());
    assert("false"@.len() != "slice_expression"@.len());
    assert("false"@.len() != "call_expression"@.len());
    assert("false"@.len() != "type_conversion_expression"@.len());
    assert("false"@.len() != "type_assertion_expression"@.len());
    assert("false"@.len() != "type_instantiation_expression"@.len());
    assert("false"@.len() != "unary_expression"@.len());
    assert("false"@.len() != "binary_expression"@.len());
    assert("false"@.len() != "composite_literal"@.len());
    assert("false"@.len() != "func_literal"@.len());
    assert("nil"@.len() != "iota"@.len());
    assert("nil"@.len() != "parenthesized_expression"@.len());
    assert("nil"@.len() != "selector_expression"@.len());
    assert("nil"@.len() != "index_expression"@.len());
    assert("nil"@.len() != "slice_expression"@.len());
    assert("nil"@.len() != "call_expression"@.len());
    assert("nil"@.len() != "type_conversion_expression"@.len());
    assert("nil"@.len() != "type_assertion_expression"@.len());
    assert("nil"@.len() != "type_instantiation_expression"@.len());
    assert("nil"@.len() != "unary_expression"@.len());
    assert("nil"@.len() != "binary_expression"@.len());
    assert("nil"@.len() != "composite_literal"@.len());
    assert("nil"@.len() != "func_literal"@.len());
    assert("iota"@.len() != "parenthesized_expression"@.len());
    assert("iota"@.len() != "selector_expression"@.len());
    assert("iota"@.len() != "index_expression"@.len());
    assert("iota"@.len() != "slice_expression"@.len());
    assert("iota"@.len() != "call_expression"@.len());
    assert("iota"@.len() != "type_conversion_expression"@.len());
    assert("iota"@.len() != "type_assertion_expression"@.len());
    assert("iota"@.len() != "type_instantiation_expression"@.len());
    assert("iota"@.len() != "unary_expression"@.len());
    assert("iota"@.len() != "binary_expression"@.len());
    assert("iota"@.len() != "composite_literal"@.len());
    assert("iota"@.len() != "func_literal"@.len());
    assert("parenthesized_expression"@.len() != "selector_expression"@.len());
    assert("parenthesized_expression"@.len() != "index_expression"@.len());
    assert("parenthesized_expression"@.len() != "slice_expression"@.len());
    assert("parenthesized_expression"@.len() != "call_expression"@.len());
    assert("parenthesized_expression"@.len() != "type_conversion_expression"@.len());
    assert("parenthesized_expression"@.len() != "type_assertion_expression"@.len());
    assert("parenthesized_expression"@.len() != "type_instantiation_expression"@.len());
    assert("parenthesized_expression"@.len() != "unary_expression"@.len());
    assert("parenthesized_expression"@.len() != "binary_expression"@.len());
    assert("parenthesized_expression"@.len() != "composite_literal"@.len());
    assert("parenthesized_expression"@.len() != "func_literal"@.len());
    assert("selector_expression"@.len() != "index_expression"@.len());
    assert("selector_expression"@.len() != "slice_expression"@.len());
    assert("selector_expression"@.len() != "call_expression"@.len());
    assert("selector_expression"@.len() != "type_conversion_expression"@.len());
    assert("selector_expression"@.len() != "type_assertion_expression"@.len());
    assert("selector_expression"@.len() != "type_instantiation_expression"@.len());
    assert("selector_expression"@.len() != "unary_expression"@.len());
    assert("selector_expression"@.len() != "binary_expression"@.len());
    assert("selector_expression"@.len() != "composite_literal"@.len());
    assert("selector_expression"@.len() != "func_literal"@.len());
    assert("index_expression"@[0] != "slice_expression"@[0]);
    assert("index_expression"@.len() != "call_expression"@.len());
    assert("index_expression"@.len() != "type_conversion_expression"@.len());
    assert("index_expression"@.len() != "type_assertion_expression"@.len());
    assert("index_expression"@.len() != "type_instantiation_expression"@.len());
    assert("index_expression"@[0] != "unary_expression"@[0]);
    assert("index_expression"@.len() != "binary_expression"@.len());
    assert("index_expression"@.len() != "composite_literal"@.len());
    assert("index_expression"@.len() != "func_literal"@.len());
    assert("slice_expression"@.len() != "call_expression"@.len());
    assert("slice_expression"@.len() != "type_conversion_expression"@.len());
    assert("slice_expression"@.len() != "type_assertion_expression"@.len());
    assert("slice_expression"@.len() != "type_instantiation_expression"@.len());
    assert("slice_expression"@[0] != "unary_expression"@[0]);
    assert("slice_expression"@.len() != "binary_expression"@.len());
    assert("slice_expression"@.len() != "composite_literal"@.len());
    assert("slice_expression"@.len() != "func_literal"@.len());
    assert("call_expression"@.len() != "type_conversion_expression"@.len());
    assert("call_expression"@.len() != "type_assertion_expression"@.len());
    assert("call_expression"@.len() != "type_instantiation_expression"@.len());
    assert("call_expression"@.len() != "unary_expression"@.len());
    assert("call_expression"@.len() != "binary_expression"@.len());
    assert("call_expression"@.len() != "composite_literal"@.len());
    assert("call_expression"@.len() != "func_literal"@.len());
    assert("type_conversion_expression"@.len() != "type_assertion_expression"@.len());
    assert("type_conversion_expression"@.len() != "type_instantiation_expression"@.len());
    assert("type_conversion_expression"@.len() != "unary_expression"@.len());
    assert("type_conversion_expression"@.len() != "binary_expression"@.len());
    assert("type_conversion_expression"@.len() != "composite_literal"@.len());
    assert("type_conversion_expression"@.len() != "func_literal"@.len());
    assert("type_assertion_expression"@.len() != "type_instantiation_expression"@.len());
    assert("type_assertion_expression"@.len() != "unary_expression"@.len());
    assert("type_assertion_expression"@.len() != "binary_expression"@.len());
    assert("type_assertion_expression"@.len() != "composite_literal"@.len());
    assert("type_assertion_expression"@.len() != "func_literal"@.len());
    assert("type_instantiation_expression"@.len() != "unary_expression"@.len());
    assert("type_instantiation_expression"@.len() != "binary_expression"@.len());
    assert("type_instantiation_expression"@.len() != "composite_literal"@.len());
    assert("type_instantiation_expression"@.len() != "func_literal"@.len());
    assert("unary_expression"@.len() != "binary_expression"@.len());
    assert("unary_expression"@.len() != "composite_literal"@.len());
    assert("unary_expression"@.len() != "func_literal"@.len());
    assert("binary_expression"@[0] != "composite_literal"@[0]);
    assert("binary_expression"@.len() != "func_literal"@.len());
    assert("composite_literal"@.len() != "func_literal"@.len());
}

/// The node kinds that `expr_rel` tells apart are distinct.
proof fn lemma_kinds_expr_rel()
    ensures
        "identifier"@ != "int_literal"@,
        "identifier"@ != "float_literal"@,
        "identifier"@ != "imaginary_literal"@,
        "identifier"@ != "rune_literal"@,
        "identifier"@ != "interpreted_string_literal"@,
        "identifier"@ != "raw_string_literal"@,
        "identifier"@ != "true"@,
        "identifier"@ != "false"@,
        "identifier"@ != "nil"@,
        "identifier"@ != "iota"@,
        "identifier"@ != "parenthesized_expression"@,
        "identifier"@ != "selector_expression"@,
        "identifier"@ != "index_expression"@,
        "identifier"@ != "slice_expression"@,
        "identifier"@ != "call_expression"@,
        "identifier"@ != "type_conversion_expression"@,
        "identifier"@ != "type_assertion_expression"@,
        "identifier"@ != "type_instantiation_expression"@,
        "identifier"@ != "unary_expression"@,
        "identifier"@ != "binary_expression"@,
        "identifier"@ != "composite_literal"@,
        "identifier"@ != "func_literal"@,
        "int_literal"@ != "float_literal"@,
        "int_literal"@ != "imaginary_literal"@,
        "int_literal"@ != "rune_literal"@,
        "int_literal"@ != "interpreted_string_literal"@,
        "int_literal"@ != "raw_string_literal"@,
        "int_literal"@ != "true"@,
        "int_literal"@ != "false"@,
        "int_literal"@ != "nil"@,
        "int_literal"@ != "iota"@,
        "int_literal"@ != "parenthesized_expression"@,
        "int_literal"@ != "selector_expression"@,
        "int_literal"@ != "index_expression"@,
        "int_literal"@ != "slice_expression"@,
        "int_literal"@ != "call_expression"@,
        "int_literal"@ != "type_conversion_expression"@,
        "int_literal"@ != "type_assertion_expression"@,
        "int_literal"@ != "type_instantiation_expression"@,
        "int_literal"@ != "unary_expression"@,
        "int_literal"@ != "binary_expression"@,
        "int_literal"@ != "composite_literal"@,
        "int_literal"@ != "func_literal"@,
        "float_literal"@ != "imaginary_literal"@,
        "float_literal"@ != "rune_literal"@,
        "float_literal"@ != "interpreted_string_literal"@,
        "float_literal"@ != "raw_string_literal"@,
        "float_literal"@ != "true"@,
        "float_literal"@ != "false"@,
        "float_literal"@ != "nil"@,
        "float_literal"@ != "iota"@,
        "float_literal"@ != "parenthesized_expression"@,
        "float_literal"@ != "selector_expression"@,
        "float_literal"@ != "index_expression"@,
        "float_literal"@ != "slice_expression"@,
        "float_literal"@ != "call_expression"@,
        "float_literal"@ != "type_conversion_expression"@,
        "float_literal"@ != "type_assertion_expression"@,
        "float_literal"@ != "type_instantiation_expression"@,
        "float_literal"@ != "unary_expression"@,
        "float_literal"@ != "binary_expression"@,
        "float_literal"@ != "composite_literal"@,
        "float_literal"@ != "func_literal"@,
        "imaginary_literal"@ != "rune_literal"@,
        "imaginary_literal"@ != "interpreted_string_literal"@,
        "imaginary_literal"@ != "raw_string_literal"@,
        "imaginary_literal"@ != "true"@,
        "imaginary_literal"@ != "false"@,
        "imaginary_literal"@ != "nil"@,
        "imaginary_literal"@ != "iota"@,
        "imaginary_literal"@ != "parenthesized_expression"@,
        "imaginary_literal"@ != "selector_expression"@,
        "imaginary_literal"@ != "index_expression"@,
        "imaginary_literal"@ != "slice_expression"@,
        "imaginary_literal"@ != "call_expression"@,
        "imaginary_literal"@ != "type_conversion_expression"@,
        "imaginary_literal"@ != "type_assertion_expression"@,
        "imaginary_literal"@ != "type_instantiation_expression"@,
        "imaginary_literal"@ != "unary_expression"@,
        "imaginary_literal"@ != "binary_expression"@,
        "imaginary_literal"@ != "composite_literal"@,
        "imaginary_literal"@ != "func_literal"@,
        "rune_literal"@ != "interpreted_string_literal"@,
        "rune_literal"@ != "raw_string_literal"@,
        "rune_literal"@ != "true"@,
        "rune_literal"@ != "false"@,
        "rune_literal"@ != "nil"@,
        "rune_literal"@ != "iota"@,
        "rune_literal"@ != "parenthesized_expression"@,
        "rune_literal"@ != "selector_expression"@,
        "rune_literal"@ != "index_expression"@,
        "rune_literal"@ != "slice_expression"@,
        "rune_literal"@ != "call_expression"@,
        "rune_literal"@ != "type_conversion_expression"@,
        "rune_literal"@ != "type_assertion_expression"@,
        "rune_literal"@ != "type_instantiation_expression"@,
        "rune_literal"@ != "unary_expression"@,
        "rune_literal"@ != "binary_expression"@,
        "rune_literal"@ != "composite_literal"@,
        "rune_literal"@ != "func_literal"@,
        "interpreted_string_literal"@ != "raw_string_literal"@,
        "interpreted_string_literal"@ != "true"@,
        "interpreted_string_literal"@ != "false"@,
        "interpreted_string_literal"@ != "nil"@,
        "interpreted_string_literal"@ != "iota"@,
        "interpreted_string_literal"@ != "parenthesized_expression"@,
        "interpreted_string_literal"@ != "selector_expression"@,
        "interpreted_string_literal"@ != "index_expression"@,
        "interpreted_string_literal"@ != "slice_expression"@,
        "interpreted_string_literal"@ != "call_expression"@,
        "interpreted_string_literal"@ != "type_conversion_expression"@,
        "interpreted_string_literal"@ != "type_assertion_expression"@,
        "interpreted_string_literal"@ != "type_instantiation_expression"@,
        "interpreted_string_literal"@ != "unary_expression"@,
        "interpreted_string_literal"@ != "binary_expression"@,
        "interpreted_string_literal"@ != "composite_literal"@,
        "interpreted_string_literal"@ != "func_literal"@,
        "raw_string_literal"@ != "true"@,
        "raw_string_literal"@ != "false"@,
        "raw_string_literal"@ != "nil"@,
        "raw_string_literal"@ != "iota"@,
        "raw_string_literal"@ != "parenthesized_expression"@,
        "raw_string_literal"@ != "selector_expression"@,
        "raw_string_literal"@ != "index_expression"@,
        "raw_string_literal"@ != "slice_expression"@,
        "raw_string_literal"@ != "call_expression"@,
        "raw_string_literal"@ != "type_conversion_expression"@,
        "raw_string_literal"@ != "type_assertion_expression"@,
        "raw_string_literal"@ != "type_instantiation_expression"@,
        "raw_string_literal"@ != "unary_expression"@,
        "raw_string_literal"@ != "binary_expression"@,
        "raw_string_literal"@ != "composite_literal"@,
        "raw_string_literal"@ != "func_literal"@,
        "true"@ != "false"@,
        "true"@ != "nil"@,
        "true"@ != "iota"@,
        "true"@ != "parenthesized_expression"@,
        "true"@ != "selector_expression"@,
        "true"@ != "index_expression"@,
        "true"@ != "slice_expression"@,
        "true"@ != "call_expression"@,
        "true"@ != "type_conversion_expression"@,
        "true"@ != "type_assertion_expression"@,
        "true"@ != "type_instantiation_expression"@,
        "true"@ != "unary_expression"@,
        "true"@ != "binary_expression"@,
        "true"@ != "composite_literal"@,
        "true"@ != "func_literal"@,
        "false"@ != "nil"@,
        "false"@ != "iota"@,
        "false"@ != "parenthesized_expression"@,
        "false"@ != "selector_expression"@,
        "false"@ != "index_expression"@,
        "false"@ != "slice_expression"@,
        "false"@ != "call_expression"@,
        "false"@ != "type_conversion_expression"@,
        "false"@ != "type_assertion_expression"@,
        "false"@ != "type_instantiation_expression"@,
        "false"@ != "unary_expression"@,
        "false"@ != "binary_expression"@,
        "false"@ != "composite_literal"@,
        "false"@ != "func_literal"@,
        "nil"@ != "iota"@,
        "nil"@ != "parenthesized_expression"@,
        "nil"@ != "selector_expression"@,
        "nil"@ != "index_expression"@,
        "nil"@ != "slice_expression"@,
        "nil"@ != "call_expression"@,
        "nil"@ != "type_conversion_expression"@,
        "nil"@ != "type_assertion_expression"@,
        "nil"@ != "type_instantiation_expression"@,
        "nil"@ != "unary_expression"@,
        "nil"@ != "binary_expression"@,
        "nil"@ != "composite_literal"@,
        "nil"@ != "func_literal"@,
        "iota"@ != "parenthesized_expression"@,
        "iota"@ != "selector_expression"@,
        "iota"@ != "index_expression"@,
        "iota"@ != "slice_expression"@,
        "iota"@ != "call_expression"@,
        "iota"@ != "type_conversion_expression"@,
        "iota"@ != "type_assertion_expression"@,
        "iota"@ != "type_instantiation_expression"@,
        "iota"@ != "unary_expression"@,
        "iota"@ != "binary_expression"@,
        "iota"@ != "composite_literal"@,
        "iota"@ != "func_literal"@,
        "parenthesized_expression"@ != "selector_expression"@,
        "parenthesized_expression"@ != "index_expression"@,
        "parenthesized_expression"@ != "slice_expression"@,
        "parenthesized_expression"@ != "call_expression"@,
        "parenthesized_expression"@ != "type_conversion_expression"@,
        "parenthesized_expression"@ != "type_assertion_expression"@,
        "parenthesized_expression"@ != "type_instantiation_expression"@,
        "parenthesized_expression"@ != "unary_expression"@,
        "parenthesized_expression"@ != "binary_expression"@,
        "parenthesized_expression"@ != "composite_literal"@,
        "parenthesized_expression"@ != "func_literal"@,
        "selector_expression"@ != "index_expression"@,
        "selector_expression"@ != "slice_expression"@,
        "selector_expression"@ != "call_expression"@,
        "selector_expression"@ != "type_conversion_expression"@,
        "selector_expression"@ != "type_assertion_expression"@,
        "selector_expression"@ != "type_instantiation_expression"@,
        "selector_expression"@ != "unary_expression"@,
        "selector_expression"@ != "binary_expression"@,
        "selector_expression"@ != "composite_literal"@,
        "selector_expression"@ != "func_literal"@,
        "index_expression"@ != "slice_expression"@,
        "index_expression"@ != "call_expression"@,
        "index_expression"@ != "type_conversion_expression"@,
        "index_expression"@ != "type_assertion_expression"@,
        "index_expression"@ != "type_instantiation_expression"@,
        "index_expression"@ != "unary_expression"@,
        "index_expression"@ != "binary_expression"@,
        "index_expression"@ != "composite_literal"@,
        "index_expression"@ != "func_literal"@,
        "slice_expression"@ != "call_expression"@,
        "slice_expression"@ != "type_conversion_expression"@,
        "slice_expression"@ != "type_assertion_expression"@,
        "slice_expression"@ != "type_instantiation_expression"@,
        "slice_expression"@ != "unary_expression"@,
        "slice_expression"@ != "binary_expression"@,
        "slice_expression"@ != "composite_literal"@,
        "slice_expression"@ != "func_literal"@,
        "call_expression"@ != "type_conversion_expression"@,
        "call_expression"@ != "type_assertion_expression"@,
        "call_expression"@ != "type_instantiation_expression"@,
        "call_expression"@ != "unary_expression"@,
        "call_expression"@ != "binary_expression"@,
        "call_expression"@ != "composite_literal"@,
        "call_expression"@ != "func_literal"@,
        "type_conversion_expression"@ != "type_assertion_expression"@,
        "type_conversion_expression"@ != "type_instantiation_expression"@,
        "type_conversion_expression"@ != "unary_expression"@,
        "type_conversion_expression"@ != "binary_expression"@,
        "type_conversion_expression"@ != "composite_literal"@,
        "type_conversion_expression"@ != "func_literal"@,
        "type_assertion_expression"@ != "type_instantiation_expression"@,
        "type_assertion_expression"@ != "unary_expression"@,
        "type_assertion_expression"@ != "binary_expression"@,
        "type_assertion_expression"@ != "composite_literal"@,
        "type_assertion_expression"@ != "func_literal"@,
        "type_instantiation_expression"@ != "unary_expression"@,
        "type_instantiation_expression"@ != "binary_expression"@,
        "type_instantiation_expression"@ != "composite_literal"@,
        "type_instantiation_expression"@ != "func_literal"@,
        "unary_expression"@ != "binary_expression"@,
        "unary_expression"@ != "composite_literal"@,
        "unary_expression"@ != "func_literal"@,
        "binary_expression"@ != "composite_literal"@,
        "binary_expression"@ != "func_literal"@,
        "composite_literal"@ != "func_literal"@,
{
    reveal_strlit("identifier");
    reveal_strlit("int_literal");
    reveal_strlit("float_literal");
    reveal_strlit("imaginary_literal");
    reveal_strlit("rune_literal");
    reveal_strlit("interpreted_string_literal");
    reveal_strlit("raw_string_literal");
    reveal_strlit("true");
    reveal_strlit("false");
    reveal_strlit("nil");
    reveal_strlit("iota");
    reveal_strlit("parenthesized_expression");
    reveal_strlit("selector_expression");
    reveal_strlit("index_expression");
    reveal_strlit("slice_expression");
    reveal_strlit("call_expression");
    reveal_strlit("type_conversion_expression");
    reveal_strlit("type_assertion_expression");
    reveal_strlit("type_instantiation_expression");
    reveal_strlit("unary_expression");
    reveal_strlit("binary_expression");
    reveal_strlit("composite_literal");
    reveal_strlit("func_literal");
    assert("identifier"@.len() != "int_literal"@.len());
    assert("identifier"@.len() != "float_literal"@.len());
    assert("identifier"@.len() != "imaginary_literal"@.len());
    assert("identifier"@.len() != "rune_literal"@.len());
    assert("identifier"@.len() != "interpreted_string_literal"@.len());
    assert("identifier"@.len() != "raw_string_literal"@.len());
    assert("identifier"@.len() != "true"@.len());
    assert("identifier"@.len() != "false"@.len());
    assert("identifier"@.len() != "nil"@.len());
    assert("identifier"@.len() != "iota"@.len());
    assert("identifier"@.len() != "parenthesized_expression"@.len());
    assert("identifier"@.len() != "selector_expression"@.len());
    assert("identifier"@.len() != "index_expression"@.len());
    assert("identifier"@.len() != "slice_expression"@.len());
    assert("identifier"@.len() != "call_expression"@.len());
    assert("identifier"@.len() != "type_conversion_expression"@.len());
    assert("identifier"@.len() != "type_assertion_expression"@.len());
    assert("identifier"@.len() != "type_instantiation_expression"@.len());
    assert("identifier"@.len() != "unary_expression"@.len());
    assert("identifier"@.len() != "binary_expression"@.len());
    assert("identifier"@.len() != "composite_literal"@.len());
    assert("identifier"@.len() != "func_literal"@.len());
    assert("int_literal"@.len() != "float_literal"@.len());
    assert("int_literal"@.len() != "imaginary_literal"@.len());
    assert("int_literal"@.len() != "rune_literal"@.len());
    assert("int_literal"@.len() != "interpreted_string_literal"@.len());
    assert("int_literal"@.len() != "raw_string_literal"@.len());
    assert("int_literal"@.len() != "true"@.len());
    assert("int_literal"@.len() != "false"@.len());
    assert("int_literal"@.len() != "nil"@.len());
    assert("int_literal"@.len() != "iota"@.len());
    assert("int_literal"@.len() != "parenthesized_expression"@.len());
    assert("int_literal"@.len() != "selector_expression"@.len());
    assert("int_literal"@.len() != "index_expression"@.len());
    assert("int_literal"@.len() != "slice_expression"@.len());
    assert("int_literal"@.len() != "call_expression"@.len());
    assert("int_literal"@.len() != "type_conversion_expression"@.len());
    assert("int_literal"@.len() != "type_assertion_expression"@.len());
    assert("int_literal"@.len() != "type_instantiation_expression"@.len());
    assert("int_literal"@.len() != "unary_expression"@.len());
    assert("int_literal"@.len() != "binary_expression"@.len());
    assert("int_literal"@.len() != "composite_literal"@.len());
    assert("int_literal"@.len() != "func_literal"@.len());
    assert("float_literal"@.len() != "imaginary_literal"@.len());
    assert("float_literal"@.len() != "rune_literal"@.len());
    assert("float_literal"@.len() != "interpreted_string_literal"@.len());
    assert("float_literal"@.len() != "raw_string_literal"@.len());
    assert("float_literal"@.len() != "true"@.len());
    assert("float_literal"@.len() != "false"@.len());
    assert("float_literal"@.len() != "nil"@.len());
    assert("float_literal"@.len() != "iota"@.len());
    assert("float_literal"@.len() != "parenthesized_expression"@.len());
    assert("float_literal"@.len() != "selector_expression"@.len());
    assert("float_literal"@.len() != "index_expression"@.len());
    assert("float_literal"@.len() != "slice_expression"@.len());
    assert("float_literal"@.len() != "call_expression"@.len());
    assert("float_literal"@.len() != "type_conversion_expression"@.len());
    assert("float_literal"@.len() != "type_assertion_expression"@.len());
    assert("float_literal"@.len() != "type_instantiation_expression"@.len());
    assert("float_literal"@.len() != "unary_expression"@.len());
    assert("float_literal"@.len() != "binary_expression"@.len());
    assert("float_literal"@.len() != "composite_literal"@.len());
    assert("float_literal"@.len() != "func_literal"@.len());
    assert("imaginary_literal"@.len() != "rune_literal"@.len());
    assert("imaginary_literal"@.len() != "interpreted_string_literal"@.len());
    assert("imaginary_literal"@.len() != "raw_string_literal"@.len());
    assert("imaginary_literal"@.len() != "true"@.len());
    assert("imaginary_literal"@.len() != "false"@.len());
    assert("imaginary_literal"@.len() != "nil"@.len());
    assert("imaginary_literal"@.len() != "iota"@.len());
    assert("imaginary_literal"@.len() != "parenthesized_expression"@.len());
    assert("imaginary_literal"@.len() != "selector_expression"@.len());
    assert("imaginary_literal"@.len() != "index_expression"@.len());
    assert("imaginary_literal"@.len() != "slice_expression"@.len());
    assert("imaginary_literal"@.len() != "call_expression"@.len());
    assert("imaginary_literal"@.len() != "type_conversion_expression"@.len());
    assert("imaginary_literal"@.len() != "type_assertion_expression"@.len());
    assert("imaginary_literal"@.len() != "type_instantiation_expression"@.len());
    assert("imaginary_literal"@.len() != "unary_expression"@.len());
    assert("imaginary_literal"@[0] != "binary_expression"@[0]);
    assert("imaginary_literal"@[0] != "composite_literal"@[0]);
    assert("imaginary_literal"@.len() != "func_literal"@.len());
    assert("rune_literal"@.len() != "interpreted_string_literal"@.len());
    assert("rune_literal"@.len() != "raw_string_literal"@.len());
    assert("rune_literal"@.len() != "true"@.len());
    assert("rune_literal"@.len() != "false"@.len());
    assert("rune_literal"@.len() != "nil"@.len());
    assert("rune_literal"@.len() != "iota"@.len());
    assert("rune_literal"@.len() != "parenthesized_expression"@.len());
    assert("rune_literal"@.len() != "selector_expression"@.len());
    assert("rune_literal"@.len() != "index_expression"@.len());
    assert("rune_literal"@.len() != "slice_expression"@.len());
    assert("rune_literal"@.len() != "call_expression"@.len());
    assert("rune_literal"@.len() != "type_conversion_expression"@.len());
    assert("rune_literal"@.len() != "type_assertion_expression"@.len());
    assert("rune_literal"@.len() != "type_instantiation_expression"@.len());
    assert("rune_literal"@.len() != "unary_expression"@.len());
    assert("rune_literal"@.len() != "binary_expression"@.len());
    assert("rune_literal"@.len() != "composite_literal"@.len());
    assert("rune_literal"@[0] != "func_literal"@[0]);
    assert("interpreted_string_literal"@.len() != "raw_string_literal"@.len());
    assert("interpreted_string_literal"@.len() != "true"@.len());
    assert("interpreted_string_literal"@.len() != "false"@.len());
    assert("interpreted_string_literal"@.len() != "nil"@.len());
    assert("interpreted_string_literal"@.len() != "iota"@.len());
    assert("interpreted_string_literal"@.len() != "parenthesized_expression"@.len());
    assert("interpreted_string_literal"@.len() != "selector_expression"@.len());
    assert("interpreted_string_literal"@.len() != "index_expression"@.len());
    assert("interpreted_string_literal"@.len() != "slice_expression"@.len());
    assert("interpreted_string_literal"@.len() != "call_expression"@.len());
    assert("interpreted_string_literal"@[0] != "type_conversion_expression"@[0]);
    assert("interpreted_string_literal"@.len() != "type_assertion_expression"@.len());
    assert("interpreted_string_literal"@.len() != "type_instantiation_expression"@.len());
    assert("interpreted_string_literal"@.len() != "unary_expression"@.len());
    assert("interpreted_string_literal"@.len() != "binary_expression"@.len());
    assert("interpreted_string_literal"@.len() != "composite_literal"@.len());
    assert("interpreted_string_literal"@.len() != "func_literal"@.len());
    assert("raw_string_literal"@.len() != "true"@.len());
    assert("raw_string_literal"@.len() != "false"@.len());
    assert("raw_string_literal"@.len() != "nil"@.len());
    assert("raw_string_literal"@.len() != "iota"@.len());
    assert("raw_string_literal"@.len() != "parenthesized_expression"@.len());
    assert("raw_string_literal"@.len() != "selector_expression"@.len());
    assert("raw_string_literal"@.len() != "index_expression"@.len());
    assert("raw_string_literal"@.len() != "slice_expression"@.len());
    assert("raw_string_literal"@.len() != "call_expression"@.len());
    assert("raw_string_literal"@.len() != "type_conversion_expression"@.len());
    assert("raw_string_literal"@.len() != "type_assertion_expression"@.len());
    assert("raw_string_literal"@.len() != "type_instantiation_expression"@.len());
    assert("raw_string_literal"@.len() != "unary_expression"@.len());
    assert("raw_string_literal"@.len() != "binary_expression"@.len());
    assert("raw_string_literal"@.len() != "composite_literal"@.len());
    assert("raw_string_literal"@.len() != "func_literal"@.len());
    assert("true"@.len() != "false"@.len());
    assert("true"@.len() != "nil"@.len());
    assert("true"@[0] != "iota"@[0]);
    assert("true"@.len() != "parenthesized_expression"@.len());
    assert("true"@.len() != "selector_expression"@.len());
    assert("true"@.len() != "index_expression"@.len());
    assert("true"@.len() != "slice_expression"@.len());
    assert("true"@.len() != "call_expression"@.len());
    assert("true"@.len() != "type_conversion_expression"@.len());
    assert("true"@.len() != "type_assertion_expression"@.len());
    assert("true"@.len() != "type_instantiation_expression"@.len());
    assert("true"@.len() != "unary_expression"@.len());
    assert("true"@.len() != "binary_expression"@.len());
    assert("true"@.len() != "composite_literal"@.len());
    assert("true"@.len() != "func_literal"@.len());
    assert("false"@.len() != "nil"@.len());
    assert("false"@.len() != "iota"@.len());
    assert("false"@.len() != "parenthesized_expression"@.len());
    assert("false"@.len() != "selector_expression"@.len());
    assert("false"@.len() != "index_expression"@.len());
    assert("false"@.len() != "slice_expression"@.len());
    assert("false"@.len() != "call_expression"@.len());
    assert("false"@.len() != "type_conversion_expression"@.len());
    assert("false"@.len() != "type_assertion_expression"@.len());
    assert("false"@.len() != "type_instantiation_expression"@.len());
    assert("false"@.len() != "unary_expression"@.len());
    assert("false"@.len() != "binary_expression"@.len());
    assert("false"@.len() != "composite_literal"@.len());
    assert("false"@.len() != "func_literal"@.len());
    assert("nil"@.len() != "iota"@.len());
    assert("nil"@.len() != "parenthesized_expression"@.len());
    assert("nil"@.len() != "selector_expression"@.len());
    assert("nil"@.len() != "index_expression"@.len());
    assert("nil"@.len() != "slice_expression"@.len());
    assert("nil"@.len() != "call_expression"@.len());
    assert("nil"@.len() != "type_conversion_expression"@.len());
    assert("nil"@.len() != "type_assertion_expression"@.len());
    assert("nil"@.len() != "type_instantiation_expression"@.len());
    assert("nil"@.len() != "unary_expression"@.len());
    assert("nil"@.len() != "binary_expression"@.len());
    assert("nil"@.len() != "composite_literal"@.len());
    assert("nil"@.len() != "func_literal"@.len());
    assert("iota"@.len() != "parenthesized_expression"@.len());
    assert("iota"@.len() != "selector_expression"@.len());
    assert("iota"@.len() != "index_expression"@.len());
    assert("iota"@.len() != "slice_expression"@.len());
    assert("iota"@.len() != "call_expression"@.len());
    assert("iota"@.len() != "type_conversion_expression"@.len());
    assert("iota"@.len() != "type_assertion_expression"@.len());
    assert("iota"@.len() != "type_instantiation_expression"@.len());
    assert("iota"@.len() != "unary_expression"@.len());
    assert("iota"@.len() != "binary_expression"@.len());
    assert("iota"@.len() != "composite_literal"@.len());
    assert("iota"@.len() != "func_literal"@.len());
    assert("parenthesized_expression"@.len() != "selector_expression"@.len());
    assert("parenthesized_expression"@.len() != "index_expression"@.len());
    assert("parenthesized_expression"@.len() != "slice_expression"@.len());
    assert("parenthesized_expression"@.len() != "call_expression"@.len());
    assert("parenthesized_expression"@.len() != "type_conversion_expression"@.len());
    assert("parenthesized_expression"@.len() != "type_assertion_expression"@.len());
    assert("parenthesized_expression"@.len() != "type_instantiation_expression"@.len());
    assert("parenthesized_expression"@.len() != "unary_expression"@.len());
    assert("parenthesized_expression"@.len() != "binary_expression"@.len());
    assert("parenthesized_expression"@.len() != "composite_literal"@.len());
    assert("parenthesized_expression"@.len() != "func_literal"@.len());
    assert("selector_expression"@.len() != "index_expression"@.len());
    assert("selector_expression"@.len() != "slice_expression"@.len());
    assert("selector_expression"@.len() != "call_expression"@.len());
    assert("selector_expression"@.len() != "type_conversion_expression"@.len());
    assert("selector_expression"@.len() != "type_assertion_expression"@.len());
    assert("selector_expression"@.len() != "type_instantiation_expression"@.len());
    assert("selector_expression"@.len() != "unary_expression"@.len());
    assert("selector_expression"@.len() != "binary_expression"@.len());
    assert("selector_expression"@.len() != "composite_literal"@.len());
    assert("selector_expression"@.len() != "func_literal"@.len());
    assert("index_expression"@[0] != "slice_expression"@[0]);
    assert("index_expression"@.len() != "call_expression"@.len());
    assert("index_expression"@.len() != "type_conversion_expression"@.len());
    assert("index_expression"@.len() != "type_assertion_expression"@.len());
    assert("index_expression"@.len() != "type_instantiation_expression"@.len());
    assert("index_expression"@[0] != "unary_expression"@[0]);
    assert("index_expression"@.len() != "binary_expression"@.len());
    assert("index_expression"@.len() != "composite_literal"@.len());
    assert("index_expression"@.len() != "func_literal"@.len());
    assert("slice_expression"@.len() != "call_expression"@.len());
    assert("slice_expression"@.len() != "type_conversion_expression"@.len());
    assert("slice_expression"@.len() != "type_assertion_expression"@.len());
    assert("slice_expression"@.len() != "type_instantiation_expression"@.len());
    assert("slice_expression"@[0] != "unary_expression"@[0]);
    assert("slice_expression"@.len() != "binary_expression"@.len());
    assert("slice_expression"@.len() != "composite_literal"@.len());
    assert("slice_expression"@.len() != "func_literal"@.len());
    assert("call_expression"@.len() != "type_conversion_expression"@.len());
    assert("call_expression"@.len() != "type_assertion_expression"@.len());
    assert("call_expression"@.len() != "type_instantiation_expression"@.len());
    assert("call_expression"@.len() != "unary_expression"@.len());
    assert("call_expression"@.len() != "binary_expression"@.len());
    assert("call_expression"@.len() != "composite_literal"@.len());
    assert("call_expression"@.len() != "func_literal"@.len());
    assert("type_conversion_expression"@.len() != "type_assertion_expression"@.len());
    assert("type_conversion_expression"@.len() != "type_instantiation_expression"@.len());
    assert("type_conversion_expression"@.len() != "unary_expression"@.len());
    assert("type_conversion_expression"@.len() != "binary_expression"@.len());
    assert("type_conversion_expression"@.len() != "composite_literal"@.len());
    assert("type_conversion_expression"@.len() != "func_literal"@.len());
    assert("type_assertion_expression"@.len() != "type_instantiation_expression"@.len());
    assert("type_assertion_expression"@.len() != "unary_expression"@.len());
    assert("type_assertion_expression"@.len() != "binary_expression"@.len());
    assert("type_assertion_expression"@.len() != "composite_literal"@.len());
    assert("type_assertion_expression"@.len() != "func_literal"@.len());
    assert("type_instantiation_expression"@.len() != "unary_expression"@.len());
    assert("type_instantiation_expression"@.len() != "binary_expression"@.len());
    assert("type_instantiation_expression"@.len() != "composite_literal"@.len());
    assert("type_instantiation_expression"@.len() != "func_literal"@.len());
    assert("unary_expression"@.len() != "binary_expression"@.len());
    assert("unary_expression"@.len() != "composite_literal"@.len());
    assert("unary_expression"@.len() != "func_literal"@.len());
    assert("binary_expression"@[0] != "composite_literal"@[0]);
    assert("binary_expression"@.len() != "func_literal"@.len());
    assert("composite_literal"@.len() != "func_literal"@.len());
}

/// The node kinds that `keyed_ok` tells apart are distinct.
proof fn lemma_kinds_keyed_ok()
    ensures
        "keyed_element"@ != "literal_element"@,
{
    reveal_strlit("keyed_element");
    reveal_strlit("literal_element");
    assert("keyed_element"@.len() != "literal_element"@.len());
}

/// The node kinds that `stmt_ok` tells apart are distinct.
proof fn lemma_kinds_stmt_ok()
    ensures
        "assignment_statement"@ != "short_var_declaration"@,
        "assignment_statement"@ != "inc_statement"@,
        "assignment_statement"@ != "dec_statement"@,
        "assignment_statement"@ != "expression_statement"@,
        "assignment_statement"@ != "go_statement"@,
        "assignment_statement"@ != "defer_statement"@,
        "assignment_statement"@ != "send_statement"@,
        "assignment_statement"@ != "block"@,
        "assignment_statement"@ != "return_statement"@,
        "assignment_statement"@ != "if_statement"@,
        "assignment_statement"@ != "for_statement"@,
        "assignment_statement"@ != "expression_switch_statement"@,
        "assignment_statement"@ != "type_switch_statement"@,
        "assignment_statement"@ != "select_statement"@,
        "assignment_statement"@ != "break_statement"@,
        "assignment_statement"@ != "continue_statement"@,
        "assignment_statement"@ != "fallthrough_statement"@,
        "assignment_statement"@ != "empty_statement"@,
        "assignment_statement"@ != "goto_statement"@,
        "assignment_statement"@ != "labeled_statement"@,
        "assignment_statement"@ != "type_declaration"@,
        "assignment_statement"@ != "var_declaration"@,
        "assignment_statement"@ != "const_declaration"@,
        "short_var_declaration"@ != "inc_statement"@,
        "short_var_declaration"@ != "dec_statement"@,
        "short_var_declaration"@ != "expression_statement"@,
        "short_var_declaration"@ != "go_statement"@,
        "short_var_declaration"@ != "defer_statement"@,
        "short_var_declaration"@ != "send_statement"@,
        "short_var_declaration"@ != "block"@,
        "short_var_declaration"@ != "return_statement"@,
        "short_var_declaration"@ != "if_statement"@,
        "short_var_declaration"@ != "for_statement"@,
        "short_var_declaration"@ != "expression_switch_statement"@,
        "short_var_declaration"@ != "type_switch_statement"@,
        "short_var_declaration"@ != "select_statement"@,
        "short_var_declaration"@ != "break_statement"@,
        "short_var_declaration"@ != "continue_statement"@,
        "short_var_declaration"@ != "fallthrough_statement"@,
        "short_var_declaration"@ != "empty_statement"@,
        "short_var_declaration"@ != "goto_statement"@,
        "short_var_declaration"@ != "labeled_statement"@,
        "short_var_declaration"@ != "type_declaration"@,
        "short_var_declaration"@ != "var_declaration"@,
        "short_var_declaration"@ != "const_declaration"@,
        "inc_statement"@ != "dec_statement"@,
        "inc_statement"@ != "expression_statement"@,
        "inc_statement"@ != "go_statement"@,
        "inc_statement"@ != "defer_statement"@,
        "inc_statement"@ != "send_statement"@,
        "inc_statement"@ != "block"@,
        "inc_statement"@ != "return_statement"@,
        "inc_statement"@ != "if_statement"@,
        "inc_statement"@ != "for_statement"@,
        "inc_statement"@ != "expression_switch_statement"@,
        "inc_statement"@ != "type_switch_statement"@,
        "inc_statement"@ != "select_statement"@,
        "inc_statement"@ != "break_statement"@,
        "inc_statement"@ != "continue_statement"@,
        "inc_statement"@ != "fallthrough_statement"@,
        "inc_statement"@ != "empty_statement"@,
        "inc_statement"@ != "goto_statement"@,
        "inc_statement"@ != "labeled_statement"@,
        "inc_statement"@ != "type_declaration"@,
        "inc_statement"@ != "var_declaration"@,
        "inc_statement"@ != "const_declaration"@,
        "dec_statement"@ != "expression_statement"@,
        "dec_statement"@ != "go_statement"@,
        "dec_statement"@ != "defer_statement"@,
        "dec_statement"@ != "send_statement"@,
        "dec_statement"@ != "block"@,
        "dec_statement"@ != "return_statement"@,
        "dec_statement"@ != "if_statement"@,
        "dec_statement"@ != "for_statement"@,
        "dec_statement"@ != "expression_switch_statement"@,
        "dec_statement"@ != "type_switch_statement"@,
        "dec_statement"@ != "select_statement"@,
        "dec_statement"@ != "break_statement"@,
        "dec_statement"@ != "continue_statement"@,
        "dec_statement"@ != "fallthrough_statement"@,
        "dec_statement"@ != "empty_statement"@,
        "dec_statement"@ != "goto_statement"@,
        "dec_statement"@ != "labeled_statement"@,
        "dec_statement"@ != "type_declaration"@,
        "dec_statement"@ != "var_declaration"@,
        "dec_statement"@ != "const_declaration"@,
        "expression_statement"@ != "go_statement"@,
        "expression_statement"@ != "defer_statement"@,
        "expression_statement"@ != "send_statement"@,
        "expression_statement"@ != "block"@,
        "expression_statement"@ != "return_statement"@,
        "expression_statement"@ != "if_statement"@,
        "expression_statement"@ != "for_statement"@,
        "expression_statement"@ != "expression_switch_statement"@,
        "expression_statement"@ != "type_switch_statement"@,
        "expression_statement"@ != "select_statement"@,
        "expression_statement"@ != "break_statement"@,
        "expression_statement"@ != "continue_statement"@,
        "expression_statement"@ != "fallthrough_statement"@,
        "expression_statement"@ != "empty_statement"@,
        "expression_statement"@ != "goto_statement"@,
        "expression_statement"@ != "labeled_statement"@,
        "expression_statement"@ != "type_declaration"@,
        "expression_statement"@ != "var_declaration"@,
        "expression_statement"@ != "const_declaration"@,
        "go_statement"@ != "defer_statement"@,
        "go_statement"@ != "send_statement"@,
        "go_statement"@ != "block"@,
        "go_statement"@ != "return_statement"@,
        "go_statement"@ != "if_statement"@,
        "go_statement"@ != "for_statement"@,
        "go_statement"@ != "expression_switch_statement"@,
        "go_statement"@ != "type_switch_statement"@,
        "go_statement"@ != "select_statement"@,
        "go_statement"@ != "break_statement"@,
        "go_statement"@ != "continue_statement"@,
        "go_statement"@ != "fallthrough_statement"@,
        "go_statement"@ != "empty_statement"@,
        "go_statement"@ != "goto_statement"@,
        "go_statement"@ != "labeled_statement"@,
        "go_statement"@ != "type_declaration"@,
        "go_statement"@ != "var_declaration"@,
        "go_statement"@ != "const_declaration"@,
        "defer_statement"@ != "send_statement"@,
        "defer_statement"@ != "block"@,
        "defer_statement"@ != "return_statement"@,
        "defer_statement"@ != "if_statement"@,
        "defer_statement"@ != "for_statement"@,
        "defer_statement"@ != "expression_switch_statement"@,
        "defer_statement"@ != "type_switch_statement"@,
        "defer_statement"@ != "select_statement"@,
        "defer_statement"@ != "break_statement"@,
        "defer_statement"@ != "continue_statement"@,
        "defer_statement"@ != "fallthrough_statement"@,
        "defer_statement"@ != "empty_statement"@,
        "defer_statement"@ != "goto_statement"@,
        "defer_statement"@ != "labeled_statement"@,
        "defer_statement"@ != "type_declaration"@,
        "defer_statement"@ != "var_declaration"@,
        "defer_statement"@ != "const_declaration"@,
        "send_statement"@ != "block"@,
        "send_statement"@ != "return_statement"@,
        "send_statement"@ != "if_statement"@,
        "send_statement"@ != "for_statement"@,
        "send_statement"@ != "expression_switch_statement"@,
        "send_statement"@ != "type_switch_statement"@,
        "send_statement"@ != "select_statement"@,
        "send_statement"@ != "break_statement"@,
        "send_statement"@ != "continue_statement"@,
        "send_statement"@ != "fallthrough_statement"@,
        "send_statement"@ != "empty_statement"@,
        "send_statement"@ != "goto_statement"@,
        "send_statement"@ != "labeled_statement"@,
        "send_statement"@ != "type_declaration"@,
        "send_statement"@ != "var_declaration"@,
        "send_statement"@ != "const_declaration"@,
        "block"@ != "return_statement"@,
        "block"@ != "if_statement"@,
        "block"@ != "for_statement"@,
        "block"@ != "expression_switch_statement"@,
        "block"@ != "type_switch_statement"@,
        "block"@ != "select_statement"@,
        "block"@ != "break_statement"@,
        "block"@ != "continue_statement"@,
        "block"@ != "fallthrough_statement"@,
        "block"@ != "empty_statement"@,
        "block"@ != "goto_statement"@,
        "block"@ != "labeled_statement"@,
        "block"@ != "type_declaration"@,
        "block"@ != "var_declaration"@,
        "block"@ != "const_declaration"@,
        "return_statement"@ != "if_statement"@,
        "return_statement"@ != "for_statement"@,
        "return_statement"@ != "expression_switch_statement"@,
        "return_statement"@ != "type_switch_statement"@,
        "return_statement"@ != "select_statement"@,
        "return_statement"@ != "break_statement"@,
        "return_statement"@ != "continue_statement"@,
        "return_statement"@ != "fallthrough_statement"@,
        "return_statement"@ != "empty_statement"@,
        "return_statement"@ != "goto_statement"@,
        "return_statement"@ != "labeled_statement"@,
        "return_statement"@ != "type_declaration"@,
        "return_statement"@ != "var_declaration"@,
        "return_statement"@ != "const_declaration"@,
        "if_statement"@ != "for_statement"@,
        "if_statement"@ != "expression_switch_statement"@,
        "if_statement"@ != "type_switch_statement"@,
        "if_statement"@ != "select_statement"@,
        "if_statement"@ != "break_statement"@,
        "if_statement"@ != "continue_statement"@,
        "if_statement"@ != "fallthrough_statement"@,
        "if_statement"@ != "empty_statement"@,
        "if_statement"@ != "goto_statement"@,
        "if_statement"@ != "labeled_statement"@,
        "if_statement"@ != "type_declaration"@,
        "if_statement"@ != "var_declaration"@,
        "if_statement"@ != "const_declaration"@,
        "for_statement"@ != "expression_switch_statement"@,
        "for_statement"@ != "type_switch_statement"@,
        "for_statement"@ != "select_statement"@,
        "for_statement"@ != "break_statement"@,
        "for_statement"@ != "continue_statement"@,
        "for_statement"@ != "fallthrough_statement"@,
        "for_statement"@ != "empty_statement"@,
        "for_statement"@ != "goto_statement"@,
        "for_statement"@ != "labeled_statement"@,
        "for_statement"@ != "type_declaration"@,
        "for_statement"@ != "var_declaration"@,
        "for_statement"@ != "const_declaration"@,
        "expression_switch_statement"@ != "type_switch_statement"@,
        "expression_switch_statement"@ != "select_statement"@,
        "expression_switch_statement"@ != "break_statement"@,
        "expression_switch_statement"@ != "continue_statement"@,
        "expression_switch_statement"@ != "fallthrough_statement"@,
        "expression_switch_statement"@ != "empty_statement"@,
        "expression_switch_statement"@ != "goto_statement"@,
        "expression_switch_statement"@ != "labeled_statement"@,
        "expression_switch_statement"@ != "type_declaration"@,
        "expression_switch_statement"@ != "var_declaration"@,
        "expression_switch_statement"@ != "const_declaration"@,
        "type_switch_statement"@ != "select_statement"@,
        "type_switch_statement"@ != "break_statement"@,
        "type_switch_statement"@ != "continue_statement"@,
        "type_switch_statement"@ != "fallthrough_statement"@,
        "type_switch_statement"@ != "empty_statement"@,
        "type_switch_statement"@ != "goto_statement"@,
        "type_switch_statement"@ != "labeled_statement"@,
        "type_switch_statement"@ != "type_declaration"@,
        "type_switch_statement"@ != "var_declaration"@,
        "type_switch_statement"@ != "const_declaration"@,
        "select_statement"@ != "break_statement"@,
        "select_statement"@ != "continue_statement"@,
        "select_statement"@ != "fallthrough_statement"@,
        "select_statement"@ != "empty_statement"@,
        "select_statement"@ != "goto_statement"@,
        "select_statement"@ != "labeled_statement"@,
        "select_statement"@ != "type_declaration"@,
        "select_statement"@ != "var_declaration"@,
        "select_statement"@ != "const_declaration"@,
        "break_statement"@ != "continue_statement"@,
        "break_statement"@ != "fallthrough_statement"@,
        "break_statement"@ != "empty_statement"@,
        "break_statement"@ != "goto_statement"@,
        "break_statement"@ != "labeled_statement"@,
        "break_statement"@ != "type_declaration"@,
        "break_statement"@ != "var_declaration"@,
        "break_statement"@ != "const_declaration"@,
        "continue_statement"@ != "fallthrough_statement"@,
        "continue_statement"@ != "empty_statement"@,
        "continue_statement"@ != "goto_statement"@,
        "continue_statement"@ != "labeled_statement"@,
        "continue_statement"@ != "type_declaration"@,
        "continue_statement"@ != "var_declaration"@,
        "continue_statement"@ != "const_declaration"@,
        "fallthrough_statement"@ != "empty_statement"@,
        "fallthrough_statement"@ != "goto_statement"@,
        "fallthrough_statement"@ != "labeled_statement"@,
        "fallthrough_statement"@ != "type_declaration"@,
        "fallthrough_statement"@ != "var_declaration"@,
        "fallthrough_statement"@ != "const_declaration"@,
        "empty_statement"@ != "goto_statement"@,
        "empty_statement"@ != "labeled_statement"@,
        "empty_statement"@ != "type_declaration"@,
        "empty_statement"@ != "var_declaration"@,
        "empty_statement"@ != "const_declaration"@,
        "goto_statement"@ != "labeled_statement"@,
        "goto_statement"@ != "type_declaration"@,
        "goto_statement"@ != "var_declaration"@,
        "goto_statement"@ != "const_declaration"@,
        "labeled_statement"@ != "type_declaration"@,
        "labeled_statement"@ != "var_declaration"@,
        "labeled_statement"@ != "const_declaration"@,
        "type_declaration"@ != "var_declaration"@,
        "type_declaration"@ != "const_declaration"@,
        "var_declaration"@ != "const_declaration"@,
{
    reveal_strlit("assignment_statement");
    reveal_strlit("short_var_declaration");
    reveal_strlit("inc_statement");
    reveal_strlit("dec_statement");
    reveal_strlit("expression_statement");
    reveal_strlit("go_statement");
    reveal_strlit("defer_statement");
    reveal_strlit("send_statement");
    reveal_strlit("block");
    reveal_strlit("return_statement");
    reveal_strlit("if_statement");
    reveal_strlit("for_statement");
    reveal_strlit("expression_switch_statement");
    reveal_strlit("type_switch_statement");
    reveal_strlit("select_statement");
    reveal_strlit("break_statement");
    reveal_strlit("continue_statement");
    reveal_strlit("fallthrough_statement");
    reveal_strlit("empty_statement");
    reveal_strlit("goto_statement");
    reveal_strlit("labeled_statement");
    reveal_strlit("type_declaration");
    reveal_strlit("var_declaration");
    reveal_strlit("const_declaration");
    assert("assignment_statement"@.len() != "short_var_declaration"@.len());
    assert("assignment_statement"@.len() != "inc_statement"@.len());
    assert("assignment_statement"@.len() != "dec_statement"@.len());
    assert("assignment_statement"@[0] != "expression_statement"@[0]);
    assert("assignment_statement"@.len() != "go_statement"@.len());
    assert("assignment_statement"@.len() != "defer_statement"@.len());
    assert("assignment_statement"@.len() != "send_statement"@.len());
    assert("assignment_statement"@.len() != "block"@.len());
    assert("assignment_statement"@.len() != "return_statement"@.len());
    assert("assignment_statement"@.len() != "if_statement"@.len());
    assert("assignment_statement"@.len() != "for_statement"@.len());
    assert("assignment_statement"@.len() != "expression_switch_statement"@.len());
    assert("assignment_statement"@.len() != "type_switch_statement"@.len());
    assert("assignment_statement"@.len() != "select_statement"@.len());
    assert("assignment_statement"@.len() != "break_statement"@.len());
    assert("assignment_statement"@.len() != "continue_statement"@.len());
    assert("assignment_statement"@.len() != "fallthrough_statement"@.len());
    assert("assignment_statement"@.len() != "empty_statement"@.len());
    assert("assignment_statement"@.len() != "goto_statement"@.len());
    assert("assignment_statement"@.len() != "labeled_statement"@.len());
    assert("assignment_statement"@.len() != "type_declaration"@.len());
    assert("assignment_statement"@.len() != "var_declaration"@.len());
    assert("assignment_statement"@.len() != "const_declaration"@.len());
    assert("short_var_declaration"@.len() != "inc_statement"@.len());
    assert("short_var_declaration"@.len() != "dec_statement"@.len());
    assert("short_var_declaration"@.len() != "expression_statement"@.len());
    assert("short_var_declaration"@.len() != "go_statement"@.len());
    assert("short_var_declaration"@.len() != "defer_statement"@.len());
    assert("short_var_declaration"@.len() != "send_statement"@.len());
    assert("short_var_declaration"@.len() != "block"@.len());
    assert("short_var_declaration"@.len() != "return_statement"@.len());
    assert("short_var_declaration"@.len() != "if_statement"@.len());
    assert("short_var_declaration"@.len() != "for_statement"@.len());
    assert("short_var_declaration"@.len() != "expression_switch_statement"@.len());
    assert("short_var_declaration"@[0] != "type_switch_statement"@[0]);
    assert("short_var_declaration"@.len() != "select_statement"@.len());
    assert("short_var_declaration"@.len() != "break_statement"@.len());
    assert("short_var_declaration"@.len() != "continue_statement"@.len());
    assert("short_var_declaration"@[0] != "fallthrough_statement"@[0]);
    assert("short_var_declaration"@.len() != "empty_statement"@.len());
    assert("short_var_declaration"@.len() != "goto_statement"@.len());
    assert("short_var_declaration"@.len() != "labeled_statement"@.len());
    assert("short_var_declaration"@.len() != "type_declaration"@.len());
    assert("short_var_declaration"@.len() != "var_declaration"@.len());
    assert("short_var_declaration"@.len() != "const_declaration"@.len());
    assert("inc_statement"@[0] != "dec_statement"@[0]);
    assert("inc_statement"@.len() != "expression_statement"@.len());
    assert("inc_statement"@.len() != "go_statement"@.len());
    assert("inc_statement"@.len() != "defer_statement"@.len());
    assert("inc_statement"@.len() != "send_statement"@.len());
    assert("inc_statement"@.len() != "block"@.len());
    assert("inc_statement"@.len() != "return_statement"@.len());
    assert("inc_statement"@.len() != "if_statement"@.len());
    assert("inc_statement"@[0] != "for_statement"@[0]);
    assert("inc_statement"@.len() != "expression_switch_statement"@.len());
    assert("inc_statement"@.len() != "type_switch_statement"@.len());
    assert("inc_statement"@.len() != "select_statement"@.len());
    assert("inc_statement"@.len() != "break_statement"@.len());
    assert("inc_statement"@.len() != "continue_statement"@.len());
    assert("inc_statement"@.len() != "fallthrough_statement"@.len());
    assert("inc_statement"@.len() != "empty_statement"@.len());
    assert("inc_statement"@.len() != "goto_statement"@.len());
    assert("inc_statement"@.len() != "labeled_statement"@.len());
    assert("inc_statement"@.len() != "type_declaration"@.len());
    assert("inc_statement"@.len() != "var_declaration"@.len());
    assert("inc_statement"@.len() != "const_declaration"@.len());
    assert("dec_statement"@.len() != "expression_statement"@.len());
    assert("dec_statement"@.len() != "go_statement"@.len());
    assert("dec_statement"@.len() != "defer_statement"@.len());
    assert("dec_statement"@.len() != "send_statement"@.len());
    assert("dec_statement"@.len() != "block"@.len());
    assert("dec_statement"@.len() != "return_statement"@.len());
    assert("dec_statement"@.len() != "if_statement"@.len());
    assert("dec_statement"@[0] != "for_statement"@[0]);
    assert("dec_statement"@.len() != "expression_switch_statement"@.len());
    assert("dec_statement"@.len() != "type_switch_statement"@.len());
    assert("dec_statement"@.len() != "select_statement"@.len());
    assert("dec_statement"@.len() != "break_statement"@.len());
    assert("dec_statement"@.len() != "continue_statement"@.len());
    assert("dec_statement"@.len() != "fallthrough_statement"@.len());
    assert("dec_statement"@.len() != "empty_statement"@.len());
    assert("dec_statement"@.len() != "goto_statement"@.len());
    assert("dec_statement"@.len() != "labeled_statement"@.len());
    assert("dec_statement"@.len() != "type_declaration"@.len());
    assert("dec_statement"@.len() != "var_declaration"@.len());
    assert("dec_statement"@.len() != "const_declaration"@.len());
    assert("expression_statement"@.len() != "go_statement"@.len());
    assert("expression_statement"@.len() != "defer_statement"@.len());
    assert("expression_statement"@.len() != "send_statement"@.len());
    assert("expression_statement"@.len() != "block"@.len());
    assert("expression_statement"@.len() != "return_statement"@.len());
    assert("expression_statement"@.len() != "if_statement"@.len());
    assert("expression_statement"@.len() != "for_statement"@.len());
    assert("expression_statement"@.len() != "expression_switch_statement"@.len());
    assert("expression_statement"@.len() != "type_switch_statement"@.len());
    assert("expression_statement"@.len() != "select_statement"@.len());
    assert("expression_statement"@.len() != "break_statement"@.len());
    assert("expression_statement"@.len() != "continue_statement"@.len());
    assert("expression_statement"@.len() != "fallthrough_statement"@.len());
    assert("expression_statement"@.len() != "empty_statement"@.len());
    assert("expression_statement"@.len() != "goto_statement"@.len());
    assert("expression_statement"@.len() != "labeled_statement"@.len());
    assert("expression_statement"@.len() != "type_declaration"@.len());
    assert("expression_statement"@.len() != "var_declaration"@.len());
    assert("expression_statement"@.len() != "const_declaration"@.len());
    assert("go_statement"@.len() != "defer_statement"@.len());
    assert("go_statement"@.len() != "send_statement"@.len());
    assert("go_statement"@.len() != "block"@.len());
    assert("go_statement"@.len() != "return_statement"@.len());
    assert("go_statement"@[0] != "if_statement"@[0]);
    assert("go_statement"@.len() != "for_statement"@.len());
    assert("go_statement"@.len() != "expression_switch_statement"@.len());
    assert("go_statement"@.len() != "type_switch_statement"@.len());
    assert("go_statement"@.len() != "select_statement"@.len());
    assert("go_statement"@.len() != "break_statement"@.len());
    assert("go_statement"@.len() != "continue_statement"@.len());
    assert("go_statement"@.len() != "fallthrough_statement"@.len());
    assert("go_statement"@.len() != "empty_statement"@.len());
    assert("go_statement"@.len() != "goto_statement"@.len());
    assert("go_statement"@.len() != "labeled_statement"@.len());
    assert("go_statement"@.len() != "type_declaration"@.len());
    assert("go_statement"@.len() != "var_declaration"@.len());
    assert("go_statement"@.len() != "const_declaration"@.len());
    assert("defer_statement"@.len() != "send_statement"@.len());
    assert("defer_statement"@.len() != "block"@.len());
    assert("defer_statement"@.len() != "return_statement"@.len());
    assert("defer_statement"@.len() != "if_statement"@.len());
    assert("defer_statement"@.len() != "for_statement"@.len());
    assert("defer_statement"@.len() != "expression_switch_statement"@.len());
    assert("defer_statement"@.len() != "type_switch_statement"@.len());
    assert("defer_statement"@.len() != "select_statement"@.len());
    assert("defer_statement"@[0] != "break_statement"@[0]);
    assert("defer_statement"@.len() != "continue_statement"@.len());
    assert("defer_statement"@.len() != "fallthrough_statement"@.len());
    assert("defer_statement"@[0] != "empty_statement"@[0]);
    assert("defer_statement"@.len() != "goto_statement"@.len());
    assert("defer_statement"@.len() != "labeled_statement"@.len());
    assert("defer_statement"@.len() != "type_declaration"@.len());
    assert("defer_statement"@[0] != "var_declaration"@[0]);
    assert("defer_statement"@.len() != "const_declaration"@.len());
    assert("send_statement"@.len() != "block"@.len());
    assert("send_statement"@.len() != "return_statement"@.len());
    assert("send_statement"@.len() != "if_statement"@.len());
    assert("send_statement"@.len() != "for_statement"@.len());
    assert("send_statement"@.len() != "expression_switch_statement"@.len());
    assert("send_statement"@.len() != "type_switch_statement"@.len());
    assert("send_statement"@.len() != "select_statement"@.len());
    assert("send_statement"@.len() != "break_statement"@.len());
    assert("send_statement"@.len() != "continue_statement"@.len());
    assert("send_statement"@.len() != "fallthrough_statement"@.len());
    assert("send_statement"@.len() != "empty_statement"@.len());
    assert("send_statement"@[0] != "goto_statement"@[0]);
    assert("send_statement"@.len() != "labeled_statement"@.len());
    assert("send_statement"@.len() != "type_declaration"@.len());
    assert("send_statement"@.len() != "var_declaration"@.len());
    assert("send_statement"@.len() != "const_declaration"@.len());
    assert("block"@.len() != "return_statement"@.len());
    assert("block"@.len() != "if_statement"@.len());
    assert("block"@.len() != "for_statement"@.len());
    assert("block"@.len() != "expression_switch_statement"@.len());
    assert("block"@.len() != "type_switch_statement"@.len());
    assert("block"@.len() != "select_statement"@.len());
    assert("block"@.len() != "break_statement"@.len());
    assert("block"@.len() != "continue_statement"@.len());
    assert("block"@.len() != "fallthrough_statement"@.len());
    assert("block"@.len() != "empty_statement"@.len());
    assert("block"@.len() != "goto_statement"@.len());
    assert("block"@.len() != "labeled_statement"@.len());
    assert("block"@.len() != "type_declaration"@.len());
    assert("block"@.len() != "var_declaration"@.len());
    assert("block"@.len() != "const_declaration"@.len());
    assert("return_statement"@.len() != "if_statement"@.len());
    assert("return_statement"@.len() != "for_statement"@.len());
    assert("return_statement"@.len() != "expression_switch_statement"@.len());
    assert("return_statement"@.len() != "type_switch_statement"@.len());
    assert("return_statement"@[0] != "select_statement"@[0]);
    assert("return_statement"@.len() != "break_statement"@.len());
    assert("return_statement"@.len() != "continue_statement"@.len());
    assert("return_statement"@.len() != "fallthrough_statement"@.len());
    assert("return_statement"@.len() != "empty_statement"@.len());
    assert("return_statement"@.len() != "goto_statement"@.len());
    assert("return_statement"@.len() != "labeled_statement"@.len());
    assert("return_statement"@[0] != "type_declaration"@[0]);
    assert("return_statement"@.len() != "var_declaration"@.len());
    assert("return_statement"@.len() != "const_declaration"@.len());
    assert("if_statement"@.len() != "for_statement"@.len());
    assert("if_statement"@.len() != "expression_switch_statement"@.len());
    assert("if_statement"@.len() != "type_switch_statement"@.len());
    assert("if_statement"@.len() != "select_statement"@.len());
    assert("if_statement"@.len() != "break_statement"@.len());
    assert("if_statement"@.len() != "continue_statement"@.len());
    assert("if_statement"@.len() != "fallthrough_statement"@.len());
    assert("if_statement"@.len() != "empty_statement"@.len());
    assert("if_statement"@.len() != "goto_statement"@.len());
    assert("if_statement"@.len() != "labeled_statement"@.len());
    assert("if_statement"@.len() != "type_declaration"@.len());
    assert("if_statement"@.len() != "var_declaration"@.len());
    assert("if_statement"@.len() != "const_declaration"@.len());
    assert("for_statement"@.len() != "expression_switch_statement"@.len());
    assert("for_statement"@.len() != "type_switch_statement"@.len());
    assert("for_statement"@.len() != "select_statement"@.len());
    assert("for_statement"@.len() != "break_statement"@.len());
    assert("for_statement"@.len() != "continue_statement"@.len());
    assert("for_statement"@.len() != "fallthrough_statement"@.len());
    assert("for_statement"@.len() != "empty_statement"@.len());
    assert("for_statement"@.len() != "goto_statement"@.len());
    assert("for_statement"@.len() != "labeled_statement"@.len());
    assert("for_statement"@.len() != "type_declaration"@.len());
    assert("for_statement"@.len() != "var_declaration"@.len());
    assert("for_statement"@.len() != "const_declaration"@.len());
    assert("expression_switch_statement"@.len() != "type_switch_statement"@.len());
    assert("expression_switch_statement"@.len() != "select_statement"@.len());
    assert("expression_switch_statement"@.len() != "break_statement"@.len());
    assert("expression_switch_statement"@.len() != "continue_statement"@.len());
    assert("expression_switch_statement"@.len() != "fallthrough_statement"@.len());
    assert("expression_switch_statement"@.len() != "empty_statement"@.len());
    assert("expression_switch_statement"@.len() != "goto_statement"@.len());
    assert("expression_switch_statement"@.len() != "labeled_statement"@.len());
    assert("expression_switch_statement"@.len() != "type_declaration"@.len());
    assert("expression_switch_statement"@.len() != "var_declaration"@.len());
    assert("expression_switch_statement"@.len() != "const_declaration"@.len());
    assert("type_switch_statement"@.len() != "select_statement"@.len());
    assert("type_switch_statement"@.len() != "break_statement"@.len());
    assert("type_switch_statement"@.len() != "continue_statement"@.len());
    assert("type_switch_statement"@[0] != "fallthrough_statement"@[0]);
    assert("type_switch_statement"@.len() != "empty_statement"@.len());
    assert("type_switch_statement"@.len() != "goto_statement"@.len());
    assert("type_switch_statement"@.len() != "labeled_statement"@.len());
    assert("type_switch_statement"@.len() != "type_declaration"@.len());
    assert("type_switch_statement"@.len() != "var_declaration"@.len());
    assert("type_switch_statement"@.len() != "const_declaration"@.len());
    assert("select_statement"@.len() != "break_statement"@.len());
    assert("select_statement"@.len() != "continue_statement"@.len());
    assert("select_statement"@.len() != "fallthrough_statement"@.len());
    assert("select_statement"@.len() != "empty_statement"@.len());
    assert("select_statement"@.len() != "goto_statement"@.len());
    assert("select_statement"@.len() != "labeled_statement"@.len());
    assert("select_statement"@[0] != "type_declaration"@[0]);
    assert("select_statement"@.len() != "var_declaration"@.len());
    assert("select_statement"@.len() != "const_declaration"@.len());
    assert("break_statement"@.len() != "continue_statement"@.len());
    assert("break_statement"@.len() != "fallthrough_statement"@.len());
    assert("break_statement"@[0] != "empty_statement"@[0]);
    assert("break_statement"@.len() != "goto_statement"@.len());
    assert("break_statement"@.len() != "labeled_statement"@.len());
    assert("break_statement"@.len() != "type_declaration"@.len());
    assert("break_statement"@[0] != "var_declaration"@[0]);
    assert("break_statement"@.len() != "const_declaration"@.len());
    assert("continue_statement"@.len() != "fallthrough_statement"@.len());
    assert("continue_statement"@.len() != "empty_statement"@.len());
    assert("continue_statement"@.len() != "goto_statement"@.len());
    assert("continue_statement"@.len() != "labeled_statement"@.len());
    assert("continue_statement"@.len() != "type_declaration"@.len());
    assert("continue_statement"@.len() != "var_declaration"@.len());
    assert("continue_statement"@.len() != "const_declaration"@.len());
    assert("fallthrough_statement"@.len() != "empty_statement"@.len());
    assert("fallthrough_statement"@.len() != "goto_statement"@.len());
    assert("fallthrough_statement"@.len() != "labeled_statement"@.len());
    assert("fallthrough_statement"@.len() != "type_declaration"@.len());
    assert("fallthrough_statement"@.len() != "var_declaration"@.len());
    assert("fallthrough_statement"@.len() != "const_declaration"@.len());
    assert("empty_statement"@.len() != "goto_statement"@.len());
    assert("empty_statement"@.len() != "labeled_statement"@.len());
    assert("empty_statement"@.len() != "type_declaration"@.len());
    assert("empty_statement"@[0] != "var_declaration"@[0]);
    assert("empty_statement"@.len() != "const_declaration"@.len());
    assert("goto_statement"@.len() != "labeled_statement"@.len());
    assert("goto_statement"@.len() != "type_declaration"@.len());
    assert("goto_statement"@.len() != "var_declaration"@.len());
    assert("goto_statement"@.len() != "const_declaration"@.len());
    assert("labeled_statement"@.len() != "type_declaration"@.len());
    assert("labeled_statement"@.len() != "var_declaration"@.len());
    assert("labeled_statement"@[0] != "const_declaration"@[0]);
    assert("type_declaration"@.len() != "var_declaration"@.len());
    assert("type_declaration"@.len() != "const_declaration"@.len());
    assert("var_declaration"@.len() != "const_declaration"@.len());
}

/// The node kinds that `stmt_rel` tells apart are distinct.
proof fn lemma_kinds_stmt_rel()
    ensures
        "assignment_statement"@ != "short_var_declaration"@,
        "assignment_statement"@ != "inc_statement"@,
        "assignment_statement"@ != "dec_statement"@,
        "assignment_statement"@ != "expression_statement"@,
        "assignment_statement"@ != "go_statement"@,
        "assignment_statement"@ != "defer_statement"@,
        "assignment_statement"@ != "send_statement"@,
        "assignment_statement"@ != "block"@,
        "assignment_statement"@ != "return_statement"@,
        "assignment_statement"@ != "if_statement"@,
        "assignment_statement"@ != "for_statement"@,
        "assignment_statement"@ != "expression_switch_statement"@,
        "assignment_statement"@ != "type_switch_statement"@,
        "assignment_statement"@ != "select_statement"@,
        "assignment_statement"@ != "break_statement"@,
        "assignment_statement"@ != "continue_statement"@,
        "assignment_statement"@ != "goto_statement"@,
        "assignment_statement"@ != "fallthrough_statement"@,
        "assignment_statement"@ != "empty_statement"@,
        "assignment_statement"@ != "labeled_statement"@,
        "assignment_statement"@ != "type_declaration"@,
        "assignment_statement"@ != "var_declaration"@,
        "assignment_statement"@ != "const_declaration"@,
        "short_var_declaration"@ != "inc_statement"@,
        "short_var_declaration"@ != "dec_statement"@,
        "short_var_declaration"@ != "expression_statement"@,
        "short_var_declaration"@ != "go_statement"@,
        "short_var_declaration"@ != "defer_statement"@,
        "short_var_declaration"@ != "send_statement"@,
        "short_var_declaration"@ != "block"@,
        "short_var_declaration"@ != "return_statement"@,
        "short_var_declaration"@ != "if_statement"@,
        "short_var_declaration"@ != "for_statement"@,
        "short_var_declaration"@ != "expression_switch_statement"@,
        "short_var_declaration"@ != "type_switch_statement"@,
        "short_var_declaration"@ != "select_statement"@,
        "short_var_declaration"@ != "break_statement"@,
        "short_var_declaration"@ != "continue_statement"@,
        "short_var_declaration"@ != "goto_statement"@,
        "short_var_declaration"@ != "fallthrough_statement"@,
        "short_var_declaration"@ != "empty_statement"@,
        "short_var_declaration"@ != "labeled_statement"@,
        "short_var_declaration"@ != "type_declaration"@,
        "short_var_declaration"@ != "var_declaration"@,
        "short_var_declaration"@ != "const_declaration"@,
        "inc_statement"@ != "dec_statement"@,
        "inc_statement"@ != "expression_statement"@,
        "inc_statement"@ != "go_statement"@,
        "inc_statement"@ != "defer_statement"@,
        "inc_statement"@ != "send_statement"@,
        "inc_statement"@ != "block"@,
        "inc_statement"@ != "return_statement"@,
        "inc_statement"@ != "if_statement"@,
        "inc_statement"@ != "for_statement"@,
        "inc_statement"@ != "expression_switch_statement"@,
        "inc_statement"@ != "type_switch_statement"@,
        "inc_statement"@ != "select_statement"@,
        "inc_statement"@ != "break_statement"@,
        "inc_statement"@ != "continue_statement"@,
        "inc_statement"@ != "goto_statement"@,
        "inc_statement"@ != "fallthrough_statement"@,
        "inc_statement"@ != "empty_statement"@,
        "inc_statement"@ != "labeled_statement"@,
        "inc_statement"@ != "type_declaration"@,
        "inc_statement"@ != "var_declaration"@,
        "inc_statement"@ != "const_declaration"@,
        "dec_statement"@ != "expression_statement"@,
        "dec_statement"@ != "go_statement"@,
        "dec_statement"@ != "defer_statement"@,
        "dec_statement"@ != "send_statement"@,
        "dec_statement"@ != "block"@,
        "dec_statement"@ != "return_statement"@,
        "dec_statement"@ != "if_statement"@,
        "dec_statement"@ != "for_statement"@,
        "dec_statement"@ != "expression_switch_statement"@,
        "dec_statement"@ != "type_switch_statement"@,
        "dec_statement"@ != "select_statement"@,
        "dec_statement"@ != "break_statement"@,
        "dec_statement"@ != "continue_statement"@,
        "dec_statement"@ != "goto_statement"@,
        "dec_statement"@ != "fallthrough_statement"@,
        "dec_statement"@ != "empty_statement"@,
        "dec_statement"@ != "labeled_statement"@,
        "dec_statement"@ != "type_declaration"@,
        "dec_statement"@ != "var_declaration"@,
        "dec_statement"@ != "const_declaration"@,
        "expression_statement"@ != "go_statement"@,
        "expression_statement"@ != "defer_statement"@,
        "expression_statement"@ != "send_statement"@,
        "expression_statement"@ != "block"@,
        "expression_statement"@ != "return_statement"@,
        "expression_statement"@ != "if_statement"@,
        "expression_statement"@ != "for_statement"@,
        "expression_statement"@ != "expression_switch_statement"@,
        "expression_statement"@ != "type_switch_statement"@,
        "expression_statement"@ != "select_statement"@,
        "expression_statement"@ != "break_statement"@,
        "expression_statement"@ != "continue_statement"@,
        "expression_statement"@ != "goto_statement"@,
        "expression_statement"@ != "fallthrough_statement"@,
        "expression_statement"@ != "empty_statement"@,
        "expression_statement"@ != "labeled_statement"@,
        "expression_statement"@ != "type_declaration"@,
        "expression_statement"@ != "var_declaration"@,
        "expression_statement"@ != "const_declaration"@,
        "go_statement"@ != "defer_statement"@,
        "go_statement"@ != "send_statement"@,
        "go_statement"@ != "block"@,
        "go_statement"@ != "return_statement"@,
        "go_statement"@ != "if_statement"@,
        "go_statement"@ != "for_statement"@,
        "go_statement"@ != "expression_switch_statement"@,
        "go_statement"@ != "type_switch_statement"@,
        "go_statement"@ != "select_statement"@,
        "go_statement"@ != "break_statement"@,
        "go_statement"@ != "continue_statement"@,
        "go_statement"@ != "goto_statement"@,
        "go_statement"@ != "fallthrough_statement"@,
        "go_statement"@ != "empty_statement"@,
        "go_statement"@ != "labeled_statement"@,
        "go_statement"@ != "type_declaration"@,
        "go_statement"@ != "var_declaration"@,
        "go_statement"@ != "const_declaration"@,
        "defer_statement"@ != "send_statement"@,
        "defer_statement"@ != "block"@,
        "defer_statement"@ != "return_statement"@,
        "defer_statement"@ != "if_statement"@,
        "defer_statement"@ != "for_statement"@,
        "defer_statement"@ != "expression_switch_statement"@,
        "defer_statement"@ != "type_switch_statement"@,
        "defer_statement"@ != "select_statement"@,
        "defer_statement"@ != "break_statement"@,
        "defer_statement"@ != "continue_statement"@,
        "defer_statement"@ != "goto_statement"@,
        "defer_statement"@ != "fallthrough_statement"@,
        "defer_statement"@ != "empty_statement"@,
        "defer_statement"@ != "labeled_statement"@,
        "defer_statement"@ != "type_declaration"@,
        "defer_statement"@ != "var_declaration"@,
        "defer_statement"@ != "const_declaration"@,
        "send_statement"@ != "block"@,
        "send_statement"@ != "return_statement"@,
        "send_statement"@ != "if_statement"@,
        "send_statement"@ != "for_statement"@,
        "send_statement"@ != "expression_switch_statement"@,
        "send_statement"@ != "type_switch_statement"@,
        "send_statement"@ != "select_statement"@,
        "send_statement"@ != "break_statement"@,
        "send_statement"@ != "continue_statement"@,
        "send_statement"@ != "goto_statement"@,
        "send_statement"@ != "fallthrough_statement"@,
        "send_statement"@ != "empty_statement"@,
        "send_statement"@ != "labeled_statement"@,
        "send_statement"@ != "type_declaration"@,
        "send_statement"@ != "var_declaration"@,
        "send_statement"@ != "const_declaration"@,
        "block"@ != "return_statement"@,
        "block"@ != "if_statement"@,
        "block"@ != "for_statement"@,
        "block"@ != "expression_switch_statement"@,
        "block"@ != "type_switch_statement"@,
        "block"@ != "select_statement"@,
        "block"@ != "break_statement"@,
        "block"@ != "continue_statement"@,
        "block"@ != "goto_statement"@,
        "block"@ != "fallthrough_statement"@,
        "block"@ != "empty_statement"@,
        "block"@ != "labeled_statement"@,
        "block"@ != "type_declaration"@,
        "block"@ != "var_declaration"@,
        "block"@ != "const_declaration"@,
        "return_statement"@ != "if_statement"@,
        "return_statement"@ != "for_statement"@,
        "return_statement"@ != "expression_switch_statement"@,
        "return_statement"@ != "type_switch_statement"@,
        "return_statement"@ != "select_statement"@,
        "return_statement"@ != "break_statement"@,
        "return_statement"@ != "continue_statement"@,
        "return_statement"@ != "goto_statement"@,
        "return_statement"@ != "fallthrough_statement"@,
        "return_statement"@ != "empty_statement"@,
        "return_statement"@ != "labeled_statement"@,
        "return_statement"@ != "type_declaration"@,
        "return_statement"@ != "var_declaration"@,
        "return_statement"@ != "const_declaration"@,
        "if_statement"@ != "for_statement"@,
        "if_statement"@ != "expression_switch_statement"@,
        "if_statement"@ != "type_switch_statement"@,
        "if_statement"@ != "select_statement"@,
        "if_statement"@ != "break_statement"@,
        "if_statement"@ != "continue_statement"@,
        "if_statement"@ != "goto_statement"@,
        "if_statement"@ != "fallthrough_statement"@,
        "if_statement"@ != "empty_statement"@,
        "if_statement"@ != "labeled_statement"@,
        "if_statement"@ != "type_declaration"@,
        "if_statement"@ != "var_declaration"@,
        "if_statement"@ != "const_declaration"@,
        "for_statement"@ != "expression_switch_statement"@,
        "for_statement"@ != "type_switch_statement"@,
        "for_statement"@ != "select_statement"@,
        "for_statement"@ != "break_statement"@,
        "for_statement"@ != "continue_statement"@,
        "for_statement"@ != "goto_statement"@,
        "for_statement"@ != "fallthrough_statement"@,
        "for_statement"@ != "empty_statement"@,
        "for_statement"@ != "labeled_statement"@,
        "for_statement"@ != "type_declaration"@,
        "for_statement"@ != "var_declaration"@,
        "for_statement"@ != "const_declaration"@,
        "expression_switch_statement"@ != "type_switch_statement"@,
        "expression_switch_statement"@ != "select_statement"@,
        "expression_switch_statement"@ != "break_statement"@,
        "expression_switch_statement"@ != "continue_statement"@,
        "expression_switch_statement"@ != "goto_statement"@,
        "expression_switch_statement"@ != "fallthrough_statement"@,
        "expression_switch_statement"@ != "empty_statement"@,
        "expression_switch_statement"@ != "labeled_statement"@,
        "expression_switch_statement"@ != "type_declaration"@,
        "expression_switch_statement"@ != "var_declaration"@,
        "expression_switch_statement"@ != "const_declaration"@,
        "type_switch_statement"@ != "select_statement"@,
        "type_switch_statement"@ != "break_statement"@,
        "type_switch_statement"@ != "continue_statement"@,
        "type_switch_statement"@ != "goto_statement"@,
        "type_switch_statement"@ != "fallthrough_statement"@,
        "type_switch_statement"@ != "empty_statement"@,
        "type_switch_statement"@ != "labeled_statement"@,
        "type_switch_statement"@ != "type_declaration"@,
        "type_switch_statement"@ != "var_declaration"@,
        "type_switch_statement"@ != "const_declaration"@,
        "select_statement"@ != "break_statement"@,
        "select_statement"@ != "continue_statement"@,
        "select_statement"@ != "goto_statement"@,
        "select_statement"@ != "fallthrough_statement"@,
        "select_statement"@ != "empty_statement"@,
        "select_statement"@ != "labeled_statement"@,
        "select_statement"@ != "type_declaration"@,
        "select_statement"@ != "var_declaration"@,
        "select_statement"@ != "const_declaration"@,
        "break_statement"@ != "continue_statement"@,
        "break_statement"@ != "goto_statement"@,
        "break_statement"@ != "fallthrough_statement"@,
        "break_statement"@ != "empty_statement"@,
        "break_statement"@ != "labeled_statement"@,
        "break_statement"@ != "type_declaration"@,
        "break_statement"@ != "var_declaration"@,
        "break_statement"@ != "const_declaration"@,
        "continue_statement"@ != "goto_statement"@,
        "continue_statement"@ != "fallthrough_statement"@,
        "continue_statement"@ != "empty_statement"@,
        "continue_statement"@ != "labeled_statement"@,
        "continue_statement"@ != "type_declaration"@,
        "continue_statement"@ != "var_declaration"@,
        "continue_statement"@ != "const_declaration"@,
        "goto_statement"@ != "fallthrough_statement"@,
        "goto_statement"@ != "empty_statement"@,
        "goto_statement"@ != "labeled_statement"@,
        "goto_statement"@ != "type_declaration"@,
        "goto_statement"@ != "var_declaration"@,
        "goto_statement"@ != "const_declaration"@,
        "fallthrough_statement"@ != "empty_statement"@,
        "fallthrough_statement"@ != "labeled_statement"@,
        "fallthrough_statement"@ != "type_declaration"@,
        "fallthrough_statement"@ != "var_declaration"@,
        "fallthrough_statement"@ != "const_declaration"@,
        "empty_statement"@ != "labeled_statement"@,
        "empty_statement"@ != "type_declaration"@,
        "empty_statement"@ != "var_declaration"@,
        "empty_statement"@ != "const_declaration"@,
        "labeled_statement"@ != "type_declaration"@,
        "labeled_statement"@ != "var_declaration"@,
        "labeled_statement"@ != "const_declaration"@,
        "type_declaration"@ != "var_declaration"@,
        "type_declaration"@ != "const_declaration"@,
        "var_declaration"@ != "const_declaration"@,
{
    reveal_strlit("assignment_statement");
    reveal_strlit("short_var_declaration");
    reveal_strlit("inc_statement");
    reveal_strlit("dec_statement");
    reveal_strlit("expression_statement");
    reveal_strlit("go_statement");
    reveal_strlit("defer_statement");
    reveal_strlit("send_statement");
    reveal_strlit("block");
    reveal_strlit("return_statement");
    reveal_strlit("if_statement");
    reveal_strlit("for_statement");
    reveal_strlit("expression_switch_statement");
    reveal_strlit("type_switch_statement");
    reveal_strlit("select_statement");
    reveal_strlit("break_statement");
    reveal_strlit("continue_statement");
    reveal_strlit("goto_statement");
    reveal_strlit("fallthrough_statement");
    reveal_strlit("empty_statement");
    reveal_strlit("labeled_statement");
    reveal_strlit("type_declaration");
    reveal_strlit("var_declaration");
    reveal_strlit("const_declaration");
    assert("assignment_statement"@.len() != "short_var_declaration"@.len());
    assert("assignment_statement"@.len() != "inc_statement"@.len());
    assert("assignment_statement"@.len() != "dec_statement"@.len());
    assert("assignment_statement"@[0] != "expression_statement"@[0]);
    assert("assignment_statement"@.len() != "go_statement"@.len());
    assert("assignment_statement"@.len() != "defer_statement"@.len());
    assert("assignment_statement"@.len() != "send_statement"@.len());
    assert("assignment_statement"@.len() != "block"@.len());
    assert("assignment_statement"@.len() != "return_statement"@.len());
    assert("assignment_statement"@.len() != "if_statement"@.len());
    assert("assignment_statement"@.len() != "for_statement"@.len());
    assert("assignment_statement"@.len() != "expression_switch_statement"@.len());
    assert("assignment_statement"@.len() != "type_switch_statement"@.len());
    assert("assignment_statement"@.len() != "select_statement"@.len());
    assert("assignment_statement"@.len() != "break_statement"@.len());
    assert("assignment_statement"@.len() != "continue_statement"@.len());
    assert("assignment_statement"@.len() != "goto_statement"@.len());
    assert("assignment_statement"@.len() != "fallthrough_statement"@.len());
    assert("assignment_statement"@.len() != "empty_statement"@.len());
    assert("assignment_statement"@.len() != "labeled_statement"@.len());
    assert("assignment_statement"@.len() != "type_declaration"@.len());
    assert("assignment_statement"@.len() != "var_declaration"@.len());
    assert("assignment_statement"@.len() != "const_declaration"@.len());
    assert("short_var_declaration"@.len() != "inc_statement"@.len());
    assert("short_var_declaration"@.len() != "dec_statement"@.len());
    assert("short_var_declaration"@.len() != "expression_statement"@.len());
    assert("short_var_declaration"@.len() != "go_statement"@.len());
    assert("short_var_declaration"@.len() != "defer_statement"@.len());
    assert("short_var_declaration"@.len() != "send_statement"@.len());
    assert("short_var_declaration"@.len() != "block"@.len());
    assert("short_var_declaration"@.len() != "return_statement"@.len());
    assert("short_var_declaration"@.len() != "if_statement"@.len());
    assert("short_var_declaration"@.len() != "for_statement"@.len());
    assert("short_var_declaration"@.len() != "expression_switch_statement"@.len());
    assert("short_var_declaration"@[0] != "type_switch_statement"@[0]);
    assert("short_var_declaration"@.len() != "select_statement"@.len());
    assert("short_var_declaration"@.len() != "break_statement"@.len());
    assert("short_var_declaration"@.len() != "continue_statement"@.len());
    assert("short_var_declaration"@.len() != "goto_statement"@.len());
    assert("short_var_declaration"@[0] != "fallthrough_statement"@[0]);
    assert("short_var_declaration"@.len() != "empty_statement"@.len());
    assert("short_var_declaration"@.len() != "labeled_statement"@.len());
    assert("short_var_declaration"@.len() != "type_declaration"@.len());
    assert("short_var_declaration"@.len() != "var_declaration"@.len());
    assert("short_var_declaration"@.len() != "const_declaration"@.len());
    assert("inc_statement"@[0] != "dec_statement"@[0]);
    assert("inc_statement"@.len() != "expression_statement"@.len());
    assert("inc_statement"@.len() != "go_statement"@.len());
    assert("inc_statement"@.len() != "defer_statement"@.len());
    assert("inc_statement"@.len() != "send_statement"@.len());
    assert("inc_statement"@.len() != "block"@.len());
    assert("inc_statement"@.len() != "return_statement"@.len());
    assert("inc_statement"@.len() != "if_statement"@.len());
    assert("inc_statement"@[0] != "for_statement"@[0]);
    assert("inc_statement"@.len() != "expression_switch_statement"@.len());
    assert("inc_statement"@.len() != "type_switch_statement"@.len());
    assert("inc_statement"@.len() != "select_statement"@.len());
    assert("inc_statement"@.len() != "break_statement"@.len());
    assert("inc_statement"@.len() != "continue_statement"@.len());
    assert("inc_statement"@.len() != "goto_statement"@.len());
    assert("inc_statement"@.len() != "fallthrough_statement"@.len());
    assert("inc_statement"@.len() != "empty_statement"@.len());
    assert("inc_statement"@.len() != "labeled_statement"@.len());
    assert("inc_statement"@.len() != "type_declaration"@.len());
    assert("inc_statement"@.len() != "var_declaration"@.len());
    assert("inc_statement"@.len() != "const_declaration"@.len());
    assert("dec_statement"@.len() != "expression_statement"@.len());
    assert("dec_statement"@.len() != "go_statement"@.len());
    assert("dec_statement"@.len() != "defer_statement"@.len());
    assert("dec_statement"@.len() != "send_statement"@.len());
    assert("dec_statement"@.len() != "block"@.len());
    assert("dec_statement"@.len() != "return_statement"@.len());
    assert("dec_statement"@.len() != "if_statement"@.len());
    assert("dec_statement"@[0] != "for_statement"@[0]);
    assert("dec_statement"@.len() != "expression_switch_statement"@.len());
    assert("dec_statement"@.len() != "type_switch_statement"@.len());
    assert("dec_statement"@.len() != "select_statement"@.len());
    assert("dec_statement"@.len() != "break_statement"@.len());
    assert("dec_statement"@.len() != "continue_statement"@.len());
    assert("dec_statement"@.len() != "goto_statement"@.len());
    assert("dec_statement"@.len() != "fallthrough_statement"@.len());
    assert("dec_statement"@.len() != "empty_statement"@.len());
    assert("dec_statement"@.len() != "labeled_statement"@.len());
    assert("dec_statement"@.len() != "type_declaration"@.len());
    assert("dec_statement"@.len() != "var_declaration"@.len());
    assert("dec_statement"@.len() != "const_declaration"@.len());
    assert("expression_statement"@.len() != "go_statement"@.len());
    assert("expression_statement"@.len() != "defer_statement"@.len());
    assert("expression_statement"@.len() != "send_statement"@.len());
    assert("expression_statement"@.len() != "block"@.len());
    assert("expression_statement"@.len() != "return_statement"@.len());
    assert("expression_statement"@.len() != "if_statement"@.len());
    assert("expression_statement"@.len() != "for_statement"@.len());
    assert("expression_statement"@.len() != "expression_switch_statement"@.len());
    assert("expression_statement"@.len() != "type_switch_statement"@.len());
    assert("expression_statement"@.len() != "select_statement"@.len());
    assert("expression_statement"@.len() != "break_statement"@.len());
    assert("expression_statement"@.len() != "continue_statement"@.len());
    assert("expression_statement"@.len() != "goto_statement"@.len());
    assert("expression_statement"@.len() != "fallthrough_statement"@.len());
    assert("expression_statement"@.len() != "empty_statement"@.len());
    assert("expression_statement"@.len() != "labeled_statement"@.len());
    assert("expression_statement"@.len() != "type_declaration"@.len());
    assert("expression_statement"@.len() != "var_declaration"@.len());
    assert("expression_statement"@.len() != "const_declaration"@.len());
    assert("go_statement"@.len() != "defer_statement"@.len());
    assert("go_statement"@.len() != "send_statement"@.len());
    assert("go_statement"@.len() != "block"@.len());
    assert("go_statement"@.len() != "return_statement"@.len());
    assert("go_statement"@[0] != "if_statement"@[0]);
    assert("go_statement"@.len() != "for_statement"@.len());
    assert("go_statement"@.len() != "expression_switch_statement"@.len());
    assert("go_statement"@.len() != "type_switch_statement"@.len());
    assert("go_statement"@.len() != "select_statement"@.len());
    assert("go_statement"@.len() != "break_statement"@.len());
    assert("go_statement"@.len() != "continue_statement"@.len());
    assert("go_statement"@.len() != "goto_statement"@.len());
    assert("go_statement"@.len() != "fallthrough_statement"@.len());
    assert("go_statement"@.len() != "empty_statement"@.len());
    assert("go_statement"@.len() != "labeled_statement"@.len());
    assert("go_statement"@.len() != "type_declaration"@.len());
    assert("go_statement"@.len() != "var_declaration"@.len());
    assert("go_statement"@.len() != "const_declaration"@.len());
    assert("defer_statement"@.len() != "send_statement"@.len());
    assert("defer_statement"@.len() != "block"@.len());
    assert("defer_statement"@.len() != "return_statement"@.len());
    assert("defer_statement"@.len() != "if_statement"@.len());
    assert("defer_statement"@.len() != "for_statement"@.len());
    assert("defer_statement"@.len() != "expression_switch_statement"@.len());
    assert("defer_statement"@.len() != "type_switch_statement"@.len());
    assert("defer_statement"@.len() != "select_statement"@.len());
    assert("defer_statement"@[0] != "break_statement"@[0]);
    assert("defer_statement"@.len() != "continue_statement"@.len());
    assert("defer_statement"@.len() != "goto_statement"@.len());
    assert("defer_statement"@.len() != "fallthrough_statement"@.len());
    assert("defer_statement"@[0] != "empty_statement"@[0]);
    assert("defer_statement"@.len() != "labeled_statement"@.len());
    assert("defer_statement"@.len() != "type_declaration"@.len());
    assert("defer_statement"@[0] != "var_declaration"@[0]);
    assert("defer_statement"@.len() != "const_declaration"@.len());
    assert("send_statement"@.len() != "block"@.len());
    assert("send_statement"@.len() != "return_statement"@.len());
    assert("send_statement"@.len() != "if_statement"@.len());
    assert("send_statement"@.len() != "for_statement"@.len());
    assert("send_statement"@.len() != "expression_switch_statement"@.len());
    assert("send_statement"@.len() != "type_switch_statement"@.len());
    assert("send_statement"@.len() != "select_statement"@.len());
    assert("send_statement"@.len() != "break_statement"@.len());
    assert("send_statement"@.len() != "continue_statement"@.len());
    assert("send_statement"@[0] != "goto_statement"@[0]);
    assert("send_statement"@.len() != "fallthrough_statement"@.len());
    assert("send_statement"@.len() != "empty_statement"@.len());
    assert("send_statement"@.len() != "labeled_statement"@.len());
    assert("send_statement"@.len() != "type_declaration"@.len());
    assert("send_statement"@.len() != "var_declaration"@.len());
    assert("send_statement"@.len() != "const_declaration"@.len());
    assert("block"@.len() != "return_statement"@.len());
    assert("block"@.len() != "if_statement"@.len());
    assert("block"@.len() != "for_statement"@.len());
    assert("block"@.len() != "expression_switch_statement"@.len());
    assert("block"@.len() != "type_switch_statement"@.len());
    assert("block"@.len() != "select_statement"@.len());
    assert("block"@.len() != "break_statement"@.len());
    assert("block"@.len() != "continue_statement"@.len());
    assert("block"@.len() != "goto_statement"@.len());
    assert("block"@.len() != "fallthrough_statement"@.len());
    assert("block"@.len() != "empty_statement"@.len());
    assert("block"@.len() != "labeled_statement"@.len());
    assert("block"@.len() != "type_declaration"@.len());
    assert("block"@.len() != "var_declaration"@.len());
    assert("block"@.len() != "const_declaration"@.len());
    assert("return_statement"@.len() != "if_statement"@.len());
    assert("return_statement"@.len() != "for_statement"@.len());
    assert("return_statement"@.len() != "expression_switch_statement"@.len());
    assert("return_statement"@.len() != "type_switch_statement"@.len());
    assert("return_statement"@[0] != "select_statement"@[0]);
    assert("return_statement"@.len() != "break_statement"@.len());
    assert("return_statement"@.len() != "continue_statement"@.len());
    assert("return_statement"@.len() != "goto_statement"@.len());
    assert("return_statement"@.len() != "fallthrough_statement"@.len());
    assert("return_statement"@.len() != "empty_statement"@.len());
    assert("return_statement"@.len() != "labeled_statement"@.len());
    assert("return_statement"@[0] != "type_declaration"@[0]);
    assert("return_statement"@.len() != "var_declaration"@.len());
    assert("return_statement"@.len() != "const_declaration"@.len());
    assert("if_statement"@.len() != "for_statement"@.len());
    assert("if_statement"@.len() != "expression_switch_statement"@.len());
    assert("if_statement"@.len() != "type_switch_statement"@.len());
    assert("if_statement"@.len() != "select_statement"@.len());
    assert("if_statement"@.len() != "break_statement"@.len());
    assert("if_statement"@.len() != "continue_statement"@.len());
    assert("if_statement"@.len() != "goto_statement"@.len());
    assert("if_statement"@.len() != "fallthrough_statement"@.len());
    assert("if_statement"@.len() != "empty_statement"@.len());
    assert("if_statement"@.len() != "labeled_statement"@.len());
    assert("if_statement"@.len() != "type_declaration"@.len());
    assert("if_statement"@.len() != "var_declaration"@.len());
    assert("if_statement"@.len() != "const_declaration"@.len());
    assert("for_statement"@.len() != "expression_switch_statement"@.len());
    assert("for_statement"@.len() != "type_switch_statement"@.len());
    assert("for_statement"@.len() != "select_statement"@.len());
    assert("for_statement"@.len() != "break_statement"@.len());
    assert("for_statement"@.len() != "continue_statement"@.len());
    assert("for_statement"@.len() != "goto_statement"@.len());
    assert("for_statement"@.len() != "fallthrough_statement"@.len());
    assert("for_statement"@.len() != "empty_statement"@.len());
    assert("for_statement"@.len() != "labeled_statement"@.len());
    assert("for_statement"@.len() != "type_declaration"@.len());
    assert("for_statement"@.len() != "var_declaration"@.len());
    assert("for_statement"@.len() != "const_declaration"@.len());
    assert("expression_switch_statement"@.len() != "type_switch_statement"@.len());
    assert("expression_switch_statement"@.len() != "select_statement"@.len());
    assert("expression_switch_statement"@.len() != "break_statement"@.len());
    assert("expression_switch_statement"@.len() != "continue_statement"@.len());
    assert("expression_switch_statement"@.len() != "goto_statement"@.len());
    assert("expression_switch_statement"@.len() != "fallthrough_statement"@.len());
    assert("expression_switch_statement"@.len() != "empty_statement"@.len());
    assert("expression_switch_statement"@.len() != "labeled_statement"@.len());
    assert("expression_switch_statement"@.len() != "type_declaration"@.len());
    assert("expression_switch_statement"@.len() != "var_declaration"@.len());
    assert("expression_switch_statement"@.len() != "const_declaration"@.len());
    assert("type_switch_statement"@.len() != "select_statement"@.len());
    assert("type_switch_statement"@.len() != "break_statement"@.len());
    assert("type_switch_statement"@.len() != "continue_statement"@.len());
    assert("type_switch_statement"@.len() != "goto_statement"@.len());
    assert("type_switch_statement"@[0] != "fallthrough_statement"@[0]);
    assert("type_switch_statement"@.len() != "empty_statement"@.len());
    assert("type_switch_statement"@.len() != "labeled_statement"@.len());
    assert("type_switch_statement"@.len() != "type_declaration"@.len());
    assert("type_switch_statement"@.len() != "var_declaration"@.len());
    assert("type_switch_statement"@.len() != "const_declaration"@.len());
    assert("select_statement"@.len() != "break_statement"@.len());
    assert("select_statement"@.len() != "continue_statement"@.len());
    assert("select_statement"@.len() != "goto_statement"@.len());
    assert("select_statement"@.len() != "fallthrough_statement"@.len());
    assert("select_statement"@.len() != "empty_statement"@.len());
    assert("select_statement"@.len() != "labeled_statement"@.len());
    assert("select_statement"@[0] != "type_declaration"@[0]);
    assert("select_statement"@.len() != "var_declaration"@.len());
    assert("select_statement"@.len() != "const_declaration"@.len());
    assert("break_statement"@.len() != "continue_statement"@.len());
    assert("break_statement"@.len() != "goto_statement"@.len());
    assert("break_statement"@.len() != "fallthrough_statement"@.len());
    assert("break_statement"@[0] != "empty_statement"@[0]);
    assert("break_statement"@.len() != "labeled_statement"@.len());
    assert("break_statement"@.len() != "type_declaration"@.len());
    assert("break_statement"@[0] != "var_declaration"@[0]);
    assert("break_statement"@.len() != "const_declaration"@.len());
    assert("continue_statement"@.len() != "goto_statement"@.len());
    assert("continue_statement"@.len() != "fallthrough_statement"@.len());
    assert("continue_statement"@.len() != "empty_statement"@.len());
    assert("continue_statement"@.len() != "labeled_statement"@.len());
    assert("continue_statement"@.len() != "type_declaration"@.len());
    assert("continue_statement"@.len() != "var_declaration"@.len());
    assert("continue_statement"@.len() != "const_declaration"@.len());
    assert("goto_statement"@.len() != "fallthrough_statement"@.len());
    assert("goto_statement"@.len() != "empty_statement"@.len());
    assert("goto_statement"@.len() != "labeled_statement"@.len());
    assert("goto_statement"@.len() != "type_declaration"@.len());
    assert("goto_statement"@.len() != "var_declaration"@.len());
    assert("goto_statement"@.len() != "const_declaration"@.len());
    assert("fallthrough_statement"@.len() != "empty_statement"@.len());
    assert("fallthrough_statement"@.len() != "labeled_statement"@.len());
    assert("fallthrough_statement"@.len() != "type_declaration"@.len());
    assert("fallthrough_statement"@.len() != "var_declaration"@.len());
    assert("fallthrough_statement"@.len() != "const_declaration"@.len());
    assert("empty_statement"@.len() != "labeled_statement"@.len());
    assert("empty_statement"@.len() != "type_declaration"@.len());
    assert("empty_statement"@[0] != "var_declaration"@[0]);
    assert("empty_statement"@.len() != "const_declaration"@.len());
    assert("labeled_statement"@.len() != "type_declaration"@.len());
    assert("labeled_statement"@.len() != "var_declaration"@.len());
    assert("labeled_statement"@[0] != "const_declaration"@[0]);
    assert("type_declaration"@.len() != "var_declaration"@.len());
    assert("type_declaration"@.len() != "const_declaration"@.len());
    assert("var_declaration"@.len() != "const_declaration"@.len());
}

/// The node kinds that `clause_ok` tells apart are distinct.
proof fn lemma_kinds_clause_ok()
    ensures
        "for_clause"@ != "range_clause"@,
{
    reveal_strlit("for_clause");
    reveal_strlit("range_clause");
    assert("for_clause"@.len() != "range_clause"@.len());
}

/// The node kinds that `clause_rel` tells apart are distinct.
proof fn lemma_kinds_clause_rel()
    ensures
        "for_clause"@ != "range_clause"@,
{
    reveal_strlit("for_clause");
    reveal_strlit("range_clause");
    assert("for_clause"@.len() != "range_clause"@.len());
}

/// The node kinds that `ecase_ok` tells apart are distinct.
proof fn lemma_kinds_ecase_ok()
    ensures
        "expression_case"@ != "default_case"@,
{
    reveal_strlit("expression_case");
    reveal_strlit("default_case");
    assert("expression_case"@.len() != "default_case"@.len());
}

/// The node kinds that `tcase_ok` tells apart are distinct.
proof fn lemma_kinds_tcase_ok()
    ensures
        "type_case"@ != "default_case"@,
{
    reveal_strlit("type_case");
    reveal_strlit("default_case");
    assert("type_case"@.len() != "default_case"@.len());
}

/// The node kinds that `ccase_ok` tells apart are distinct.
proof fn lemma_kinds_ccase_ok()
    ensures
        "communication_case"@ != "send_statement"@,
        "communication_case"@ != "receive_statement"@,
        "communication_case"@ != "default_case"@,
        "send_statement"@ != "receive_statement"@,
        "send_statement"@ != "default_case"@,
        "receive_statement"@ != "default_case"@,
{
    reveal_strlit("communication_case");
    reveal_strlit("send_statement");
    reveal_strlit("receive_statement");
    reveal_strlit("default_case");
    assert("communication_case"@.len() != "send_statement"@.len());
    assert("communication_case"@.len() != "receive_statement"@.len());
    assert("communication_case"@.len() != "default_case"@.len());
    assert("send_statement"@.len() != "receive_statement"@.len());
    assert("send_statement"@.len() != "default_case"@.len());
    assert("receive_statement"@.len() != "default_case"@.len());
}

/// The node kinds that `ccase_rel` tells apart are distinct.
proof fn lemma_kinds_ccase_rel()
    ensures
        "communication_case"@ != "send_statement"@,
{
    reveal_strlit("communication_case");
    reveal_strlit("send_statement");
    assert("communication_case"@.len() != "send_statement"@.len());
}

/// The node kinds that `typespec_ok` tells apart are distinct.
proof fn lemma_kinds_typespec_ok()
    ensures
        "type_spec"@ != "type_alias"@,
{
    reveal_strlit("type_spec");
    reveal_strlit("type_alias");
    assert("type_spec"@.len() != "type_alias"@.len());
}

/// The node kinds that `var_decl_ok` tells apart are distinct.
proof fn lemma_kinds_var_decl_ok()
    ensures
        "var_spec"@ != "var_spec_list"@,
{
    reveal_strlit("var_spec");
    reveal_strlit("var_spec_list");
    assert("var_spec"@.len() != "var_spec_list"@.len());
}

/// The node kinds that `import_ok` tells apart are distinct.
proof fn lemma_kinds_import_ok()
    ensures
        "import_spec"@ != "dot"@,
        "import_spec"@ != "blank_identifier"@,
        "import_spec"@ != "package_identifier"@,
        "dot"@ != "blank_identifier"@,
        "dot"@ != "package_identifier"@,
        "blank_identifier"@ != "package_identifier"@,
{
    reveal_strlit("import_spec");
    reveal_strlit("dot");
    reveal_strlit("blank_identifier");
    reveal_strlit("package_identifier");
    assert("import_spec"@.len() != "dot"@.len());
    assert("import_spec"@.len() != "blank_identifier"@.len());
    assert("import_spec"@.len() != "package_identifier"@.len());
    assert("dot"@.len() != "blank_identifier"@.len());
    assert("dot"@.len() != "package_identifier"@.len());
    assert("blank_identifier"@.len() != "package_identifier"@.len());
}

/// The node kinds that `import_rel` tells apart are distinct.
proof fn lemma_kinds_import_rel()
    ensures
        "dot"@ != "blank_identifier"@,
{
    reveal_strlit("dot");
    reveal_strlit("blank_identifier");
    assert("dot"@.len() != "blank_identifier"@.len());
}

/// The node kinds that `receiver_err` tells apart are distinct.
proof fn lemma_kinds_receiver_err()
    ensures
        "variadic_parameter_declaration"@ != "parameter_declaration"@,
{
    reveal_strlit("variadic_parameter_declaration");
    reveal_strlit("parameter_declaration");
    assert("variadic_parameter_declaration"@.len() != "parameter_declaration"@.len());
}

/// The node kinds that `skipped_kind` tells apart are distinct.
proof fn lemma_kinds_skipped_kind()
    ensures
        "block"@ != "return_statement"@,
        "block"@ != "if_statement"@,
        "block"@ != "for_statement"@,
        "block"@ != "expression_switch_statement"@,
        "block"@ != "type_switch_statement"@,
        "block"@ != "select_statement"@,
        "block"@ != "go_statement"@,
        "block"@ != "defer_statement"@,
        "block"@ != "break_statement"@,
        "block"@ != "continue_statement"@,
        "block"@ != "goto_statement"@,
        "block"@ != "fallthrough_statement"@,
        "block"@ != "empty_statement"@,
        "block"@ != "labeled_statement"@,
        "return_statement"@ != "if_statement"@,
        "return_statement"@ != "for_statement"@,
        "return_statement"@ != "expression_switch_statement"@,
        "return_statement"@ != "type_switch_statement"@,
        "return_statement"@ != "select_statement"@,
        "return_statement"@ != "go_statement"@,
        "return_statement"@ != "defer_statement"@,
        "return_statement"@ != "break_statement"@,
        "return_statement"@ != "continue_statement"@,
        "return_statement"@ != "goto_statement"@,
        "return_statement"@ != "fallthrough_statement"@,
        "return_statement"@ != "empty_statement"@,
        "return_statement"@ != "labeled_statement"@,
        "if_statement"@ != "for_statement"@,
        "if_statement"@ != "expression_switch_statement"@,
        "if_statement"@ != "type_switch_statement"@,
        "if_statement"@ != "select_statement"@,
        "if_statement"@ != "go_statement"@,
        "if_statement"@ != "defer_statement"@,
        "if_statement"@ != "break_statement"@,
        "if_statement"@ != "continue_statement"@,
        "if_statement"@ != "goto_statement"@,
        "if_statement"@ != "fallthrough_statement"@,
        "if_statement"@ != "empty_statement"@,
        "if_statement"@ != "labeled_statement"@,
        "for_statement"@ != "expression_switch_statement"@,
        "for_statement"@ != "type_switch_statement"@,
        "for_statement"@ != "select_statement"@,
        "for_statement"@ != "go_statement"@,
        "for_statement"@ != "defer_statement"@,
        "for_statement"@ != "break_statement"@,
        "for_statement"@ != "continue_statement"@,
        "for_statement"@ != "goto_statement"@,
        "for_statement"@ != "fallthrough_statement"@,
        "for_statement"@ != "empty_statement"@,
        "for_statement"@ != "labeled_statement"@,
        "expression_switch_statement"@ != "type_switch_statement"@,
        "expression_switch_statement"@ != "select_statement"@,
        "expression_switch_statement"@ != "go_statement"@,
        "expression_switch_statement"@ != "defer_statement"@,
        "expression_switch_statement"@ != "break_statement"@,
        "expression_switch_statement"@ != "continue_statement"@,
        "expression_switch_statement"@ != "goto_statement"@,
        "expression_switch_statement"@ != "fallthrough_statement"@,
        "expression_switch_statement"@ != "empty_statement"@,
        "expression_switch_statement"@ != "labeled_statement"@,
        "type_switch_statement"@ != "select_statement"@,
        "type_switch_statement"@ != "go_statement"@,
        "type_switch_statement"@ != "defer_statement"@,
        "type_switch_statement"@ != "break_statement"@,
        "type_switch_statement"@ != "continue_statement"@,
        "type_switch_statement"@ != "goto_statement"@,
        "type_switch_statement"@ != "fallthrough_statement"@,
        "type_switch_statement"@ != "empty_statement"@,
        "type_switch_statement"@ != "labeled_statement"@,
        "select_statement"@ != "go_statement"@,
        "select_statement"@ != "defer_statement"@,
        "select_statement"@ != "break_statement"@,
        "select_statement"@ != "continue_statement"@,
        "select_statement"@ != "goto_statement"@,
        "select_statement"@ != "fallthrough_statement"@,
        "select_statement"@ != "empty_statement"@,
        "select_statement"@ != "labeled_statement"@,
        "go_statement"@ != "defer_statement"@,
        "go_statement"@ != "break_statement"@,
        "go_statement"@ != "continue_statement"@,
        "go_statement"@ != "goto_statement"@,
        "go_statement"@ != "fallthrough_statement"@,
        "go_statement"@ != "empty_statement"@,
        "go_statement"@ != "labeled_statement"@,
        "defer_statement"@ != "break_statement"@,
        "defer_statement"@ != "continue_statement"@,
        "defer_statement"@ != "goto_statement"@,
        "defer_statement"@ != "fallthrough_statement"@,
        "defer_statement"@ != "empty_statement"@,
        "defer_statement"@ != "labeled_statement"@,
        "break_statement"@ != "continue_statement"@,
        "break_statement"@ != "goto_statement"@,
        "break_statement"@ != "fallthrough_statement"@,
        "break_statement"@ != "empty_statement"@,
        "break_statement"@ != "labeled_statement"@,
        "continue_statement"@ != "goto_statement"@,
        "continue_statement"@ != "fallthrough_statement"@,
        "continue_statement"@ != "empty_statement"@,
        "continue_statement"@ != "labeled_statement"@,
        "goto_statement"@ != "fallthrough_statement"@,
        "goto_statement"@ != "empty_statement"@,
        "goto_statement"@ != "labeled_statement"@,
        "fallthrough_statement"@ != "empty_statement"@,
        "fallthrough_statement"@ != "labeled_statement"@,
        "empty_statement"@ != "labeled_statement"@,
{
    reveal_strlit("block");
    reveal_strlit("return_statement");
    reveal_strlit("if_statement");
    reveal_strlit("for_statement");
    reveal_strlit("expression_switch_statement");
    reveal_strlit("type_switch_statement");
    reveal_strlit("select_statement");
    reveal_strlit("go_statement");
    reveal_strlit("defer_statement");
    reveal_strlit("break_statement");
    reveal_strlit("continue_statement");
    reveal_strlit("goto_statement");
    reveal_strlit("fallthrough_statement");
    reveal_strlit("empty_statement");
    reveal_strlit("labeled_statement");
    assert("block"@.len() != "return_statement"@.len());
    assert("block"@.len() != "if_statement"@.len());
    assert("block"@.len() != "for_statement"@.len());
    assert("block"@.len() != "expression_switch_statement"@.len());
    assert("block"@.len() != "type_switch_statement"@.len());
    assert("block"@.len() != "select_statement"@.len());
    assert("block"@.len() != "go_statement"@.len());
    assert("block"@.len() != "defer_statement"@.len());
    assert("block"@.len() != "break_statement"@.len());
    assert("block"@.len() != "continue_statement"@.len());
    assert("block"@.len() != "goto_statement"@.len());
    assert("block"@.len() != "fallthrough_statement"@.len());
    assert("block"@.len() != "empty_statement"@.len());
    assert("block"@.len() != "labeled_statement"@.len());
    assert("return_statement"@.len() != "if_statement"@.len());
    assert("return_statement"@.len() != "for_statement"@.len());
    assert("return_statement"@.len() != "expression_switch_statement"@.len());
    assert("return_statement"@.len() != "type_switch_statement"@.len());
    assert("return_statement"@[0] != "select_statement"@[0]);
    assert("return_statement"@.len() != "go_statement"@.len());
    assert("return_statement"@.len() != "defer_statement"@.len());
    assert("return_statement"@.len() != "break_statement"@.len());
    assert("return_statement"@.len() != "continue_statement"@.len());
    assert("return_statement"@.len() != "goto_statement"@.len());
    assert("return_statement"@.len() != "fallthrough_statement"@.len());
    assert("return_statement"@.len() != "empty_statement"@.len());
    assert("return_statement"@.len() != "labeled_statement"@.len());
    assert("if_statement"@.len() != "for_statement"@.len());
    assert("if_statement"@.len() != "expression_switch_statement"@.len());
    assert("if_statement"@.len() != "type_switch_statement"@.len());
    assert("if_statement"@.len() != "select_statement"@.len());
    assert("if_statement"@[0] != "go_statement"@[0]);
    assert("if_statement"@.len() != "defer_statement"@.len());
    assert("if_statement"@.len() != "break_statement"@.len());
    assert("if_statement"@.len() != "continue_statement"@.len());
    assert("if_statement"@.len() != "goto_statement"@.len());
    assert("if_statement"@.len() != "fallthrough_statement"@.len());
    assert("if_statement"@.len() != "empty_statement"@.len());
    assert("if_statement"@.len() != "labeled_statement"@.len());
    assert("for_statement"@.len() != "expression_switch_statement"@.len());
    assert("for_statement"@.len() != "type_switch_statement"@.len());
    assert("for_statement"@.len() != "select_statement"@.len());
    assert("for_statement"@.len() != "go_statement"@.len());
    assert("for_statement"@.len() != "defer_statement"@.len());
    assert("for_statement"@.len() != "break_statement"@.len());
    assert("for_statement"@.len() != "continue_statement"@.len());
    assert("for_statement"@.len() != "goto_statement"@.len());
    assert("for_statement"@.len() != "fallthrough_statement"@.len());
    assert("for_statement"@.len() != "empty_statement"@.len());
    assert("for_statement"@.len() != "labeled_statement"@.len());
    assert("expression_switch_statement"@.len() != "type_switch_statement"@.len());
    assert("expression_switch_statement"@.len() != "select_statement"@.len());
    assert("expression_switch_statement"@.len() != "go_statement"@.len());
    assert("expression_switch_statement"@.len() != "defer_statement"@.len());
    assert("expression_switch_statement"@.len() != "break_statement"@.len());
    assert("expression_switch_statement"@.len() != "continue_statement"@.len());
    assert("expression_switch_statement"@.len() != "goto_statement"@.len());
    assert("expression_switch_statement"@.len() != "fallthrough_statement"@.len());
    assert("expression_switch_statement"@.len() != "empty_statement"@.len());
    assert("expression_switch_statement"@.len() != "labeled_statement"@.len());
    assert("type_switch_statement"@.len() != "select_statement"@.len());
    assert("type_switch_statement"@.len() != "go_statement"@.len());
    assert("type_switch_statement"@.len() != "defer_statement"@.len());
    assert("type_switch_statement"@.len() != "break_statement"@.len());
    assert("type_switch_statement"@.len() != "continue_statement"@.len());
    assert("type_switch_statement"@.len() != "goto_statement"@.len());
    assert("type_switch_statement"@[0] != "fallthrough_statement"@[0]);
    assert("type_switch_statement"@.len() != "empty_statement"@.len());
    assert("type_switch_statement"@.len() != "labeled_statement"@.len());
    assert("select_statement"@.len() != "go_statement"@.len());
    assert("select_statement"@.len() != "defer_statement"@.len());
    assert("select_statement"@.len() != "break_statement"@.len());
    assert("select_statement"@.len() != "continue_statement"@.len());
    assert("select_statement"@.len() != "goto_statement"@.len());
    assert("select_statement"@.len() != "fallthrough_statement"@.len());
    assert("select_statement"@.len() != "empty_statement"@.len());
    assert("select_statement"@.len() != "labeled_statement"@.len());
    assert("go_statement"@.len() != "defer_statement"@.len());
    assert("go_statement"@.len() != "break_statement"@.len());
    assert("go_statement"@.len() != "continue_statement"@.len());
    assert("go_statement"@.len() != "goto_statement"@.len());
    assert("go_statement"@.len() != "fallthrough_statement"@.len());
    assert("go_statement"@.len() != "empty_statement"@.len());
    assert("go_statement"@.len() != "labeled_statement"@.len());
    assert("defer_statement"@[0] != "break_statement"@[0]);
    assert("defer_statement"@.len() != "continue_statement"@.len());
    assert("defer_statement"@.len() != "goto_statement"@.len());
    assert("defer_statement"@.len() != "fallthrough_statement"@.len());
    assert("defer_statement"@[0] != "empty_statement"@[0]);
    assert("defer_statement"@.len() != "labeled_statement"@.len());
    assert("break_statement"@.len() != "continue_statement"@.len());
    assert("break_statement"@.len() != "goto_statement"@.len());
    assert("break_statement"@.len() != "fallthrough_statement"@.len());
    assert("break_statement"@[0] != "empty_statement"@[0]);
    assert("break_statement"@.len() != "labeled_statement"@.len());
    assert("continue_statement"@.len() != "goto_statement"@.len());
    assert("continue_statement"@.len() != "fallthrough_statement"@.len());
    assert("continue_statement"@.len() != "empty_statement"@.len());
    assert("continue_statement"@.len() != "labeled_statement"@.len());
    assert("goto_statement"@.len() != "fallthrough_statement"@.len());
    assert("goto_statement"@.len() != "empty_statement"@.len());
    assert("goto_statement"@.len() != "labeled_statement"@.len());
    assert("fallthrough_statement"@.len() != "empty_statement"@.len());
    assert("fallthrough_statement"@.len() != "labeled_statement"@.len());
    assert("empty_statement"@.len() != "labeled_statement"@.len());
}

/// The node kinds that `top_err` tells apart are distinct.
proof fn lemma_kinds_top_err()
    ensures
        "package_clause"@ != "import_declaration"@,
        "package_clause"@ != "function_declaration"@,
        "package_clause"@ != "method_declaration"@,
        "package_clause"@ != "type_declaration"@,
        "package_clause"@ != "var_declaration"@,
        "package_clause"@ != "const_declaration"@,
        "import_declaration"@ != "function_declaration"@,
        "import_declaration"@ != "method_declaration"@,
        "import_declaration"@ != "type_declaration"@,
        "import_declaration"@ != "var_declaration"@,
        "import_declaration"@ != "const_declaration"@,
        "function_declaration"@ != "method_declaration"@,
        "function_declaration"@ != "type_declaration"@,
        "function_declaration"@ != "var_declaration"@,
        "function_declaration"@ != "const_declaration"@,
        "method_declaration"@ != "type_declaration"@,
        "method_declaration"@ != "var_declaration"@,
        "method_declaration"@ != "const_declaration"@,
        "type_declaration"@ != "var_declaration"@,
        "type_declaration"@ != "const_declaration"@,
        "var_declaration"@ != "const_declaration"@,
{
    reveal_strlit("package_clause");
    reveal_strlit("import_declaration");
    reveal_strlit("function_declaration");
    reveal_strlit("method_declaration");
    reveal_strlit("type_declaration");
    reveal_strlit("var_declaration");
    reveal_strlit("const_declaration");
    assert("package_clause"@.len() != "import_declaration"@.len());
    assert("package_clause"@.len() != "function_declaration"@.len());
    assert("package_clause"@.len() != "method_declaration"@.len());
    assert("package_clause"@.len() != "type_declaration"@.len());
    assert("package_clause"@.len() != "var_declaration"@.len());
    assert("package_clause"@.len() != "const_declaration"@.len());
    assert("import_declaration"@.len() != "function_declaration"@.len());
    assert("import_declaration"@[0] != "method_declaration"@[0]);
    assert("import_declaration"@.len() != "type_declaration"@.len());
    assert("import_declaration"@.len() != "var_declaration"@.len());
    assert("import_declaration"@.len() != "const_declaration"@.len());
    assert("function_declaration"@.len() != "method_declaration"@.len());
    assert("function_declaration"@.len() != "type_declaration"@.len());
    assert("function_declaration"@.len() != "var_declaration"@.len());
    assert("function_declaration"@.len() != "const_declaration"@.len());
    assert("method_declaration"@.len() != "type_declaration"@.len());
    assert("method_declaration"@.len() != "var_declaration"@.len());
    assert("method_declaration"@.len() != "const_declaration"@.len());
    assert("type_declaration"@.len() != "var_declaration"@.len());
    assert("type_declaration"@.len() != "const_declaration"@.len());
    assert("var_declaration"@.len() != "const_declaration"@.len());
}

/// The node kinds that `is_decl_kind` tells apart are distinct.
proof fn lemma_kinds_is_decl_kind()
    ensures
        "function_declaration"@ != "method_declaration"@,
        "function_declaration"@ != "type_declaration"@,
        "function_declaration"@ != "var_declaration"@,
        "function_declaration"@ != "const_declaration"@,
        "method_declaration"@ != "type_declaration"@,
        "method_declaration"@ != "var_declaration"@,
        "method_declaration"@ != "const_declaration"@,
        "type_declaration"@ != "var_declaration"@,
        "type_declaration"@ != "const_declaration"@,
        "var_declaration"@ != "const_declaration"@,
{
    reveal_strlit("function_declaration");
    reveal_strlit("method_declaration");
    reveal_strlit("type_declaration");
    reveal_strlit("var_declaration");
    reveal_strlit("const_declaration");
    assert("function_declaration"@.len() != "method_declaration"@.len());
    assert("function_declaration"@.len() != "type_declaration"@.len());
    assert("function_declaration"@.len() != "var_declaration"@.len());
    assert("function_declaration"@.len() != "const_declaration"@.len());
    assert("method_declaration"@.len() != "type_declaration"@.len());
    assert("method_declaration"@.len() != "var_declaration"@.len());
    assert("method_declaration"@.len() != "const_declaration"@.len());
    assert("type_declaration"@.len() != "var_declaration"@.len());
    assert("type_declaration"@.len() != "const_declaration"@.len());
    assert("var_declaration"@.len() != "const_declaration"@.len());
}

/// The node kinds that `decl_rel` tells apart are distinct.
proof fn lemma_kinds_decl_rel()
    ensures
        "function_declaration"@ != "method_declaration"@,
        "function_declaration"@ != "type_declaration"@,
        "function_declaration"@ != "var_declaration"@,
        "method_declaration"@ != "type_declaration"@,
        "method_declaration"@ != "var_declaration"@,
        "type_declaration"@ != "var_declaration"@,
{
    reveal_strlit("function_declaration");
    reveal_strlit("method_declaration");
    reveal_strlit("type_declaration");
    reveal_strlit("var_declaration");
    assert("function_declaration"@.len() != "method_declaration"@.len());
    assert("function_declaration"@.len() != "type_declaration"@.len());
    assert("function_declaration"@.len() != "var_declaration"@.len());
    assert("method_declaration"@.len() != "type_declaration"@.len());
    assert("method_declaration"@.len() != "var_declaration"@.len());
    assert("type_declaration"@.len() != "var_declaration"@.len());
}


/// The source text of a file that holds `body` as the body of a function.
pub fn wrap_body(body: &str) -> (s: String)
    ensures
        s@ == "package p\nfunc _() {\n"@ + body@ + "\n}"@,
{
    let mut s = "package p\nfunc _() {\n".to_string();
    s.append(body);
    s.append("\n}");
    s
}

/// The body of the first function declaration that has one.
pub open spec fn first_body(ds: Seq<TopLevelDecl>) -> Option<Block>
    decreases ds.len(),
{
    if ds.len() == 0 {
        None
    } else {
        match ds[0] {
            TopLevelDecl::Func(f) => match f.body {
                Some(b) => Some(b),
                None => first_body(ds.drop_first()),
            },
            _ => first_body(ds.drop_first()),
        }
    }
}

/// The body of the first function of a file that has one, or why there is none.
pub fn first_func_body(sf: SourceFile) -> (r: Result<Block, String>)
    ensures
        match first_body(sf.decls@) {
            Some(b) => r == Ok::<Block, String>(b),
            None => r matches Err(m) && m@ == "could not extract block"@,
        },
{
    let mut decls = sf.decls;
    while decls.len() > 0
        invariant
            first_body(sf.decls@) == first_body(decls@),
        decreases decls.len(),
    {
        let ghost before = decls@;
        let d = decls.remove(0);
        proof {
            assert(decls@ =~= before.drop_first());
        }
        match d {
            TopLevelDecl::Func(f) => {
                let f = *f;
                match f.body {
                    Some(b) => {
                        return Ok(b);
                    },
                    None => {},
                }
            },
            _ => {},
        }
    }
    Err("could not extract block".to_string())
}

/// The text of a replacement body wrapped in a function declaration.
pub open spec fn wrapped_body(body: Seq<char>) -> Seq<char> {
    "package p\nfunc _() {\n"@ + body + "\n}"@
}

/// What parsing the wrapped body gives: the block of the first function with
/// a body, or the message of why there is none.
pub open spec fn block_outcome(r: Result<Block, String>, body: Seq<char>) -> bool {
    let src = encode_utf8(wrapped_body(body));
    match go_cst(src) {
        None => r matches Err(m) && m@ == "failed to parse body: "@ + walk_error_text(
            WalkErrorV::UnexpectedNode("parse returned None"@),
        ),
        Some(t) => match file_err(t) {
            Some(e) => r matches Err(m) && m@ == "failed to parse body: "@ + walk_error_text(e),
            None => exists|f: SourceFile|
                #[trigger] file_rel(f, t, src) && match first_body(f.decls@) {
                    Some(b) => r == Ok::<Block, String>(b),
                    None => r matches Err(m) && m@ == "could not extract block"@,
                },
        },
    }
}

/// Parses the statements of a replacement body as the body of a function:
/// the text is wrapped in `package p` and `func _() { .. }`, parsed, and the
/// body of the first function that has one is returned.
pub fn parse_go_block(body_src: &str) -> (r: Result<Block, String>)
    ensures
        block_outcome(r, body_src@),
{
    let wrapped = wrap_body(body_src);
    proof {
        assert(wrapped@ == wrapped_body(body_src@));
    }
    let bytes = wrapped.as_str().as_bytes();
    match parse_and_walk(bytes) {
        Err(e) => {
            let mut m = "failed to parse body: ".to_string();
            let t = e.message();
            m.append(t.as_str());
            Err(m)
        },
        Ok(sf) => {
            let r = first_func_body(sf);
            r
        },
    }
}


/// Whether parsing Go source text gives a tree with a syntax error in it (or
/// no tree at all).
pub fn parse_has_error(src: &[u8]) -> (b: bool)
    ensures
        b == match go_cst(src@) {
            None => true,
            Some(t) => has_error_node(t),
        },
{
    match parse_go_cst(src) {
        None => true,
        Some(t) => tree_has_error(&t),
    }
}


/// An assignment operator prints back as the token it was read from: every
/// token that names an operator is that operator's text.
pub proof fn law_assign_op_prints_its_token(k: Seq<char>)
    ensures
        assign_op(k) matches Some(op) ==> assign_op_text(op) == k,
{
}

/// Every assignment operator is read back from its own text.
pub proof fn law_assign_op_reads_its_text(op: AssignOp)
    ensures
        assign_op(assign_op_text(op)) == Some(op),
{
    lemma_kinds_assign_op();
    reveal_strlit("=");
    reveal_strlit("+=");
    reveal_strlit("-=");
    reveal_strlit("*=");
    reveal_strlit("/=");
    reveal_strlit("%=");
    reveal_strlit("&=");
    reveal_strlit("|=");
    reveal_strlit("^=");
    reveal_strlit("&^=");
    reveal_strlit("<<=");
    reveal_strlit(">>=");
}

/// A converted assignment statement keeps its operator: the operator of the
/// statement prints as the operator token of the parsed node.
pub proof fn law_assignment_keeps_operator(s: Stmt, n: CstNode, src: Seq<u8>)
    requires
        n.kind@ == "assignment_statement"@,
        stmt_rel(s, n, src),
    ensures
        s matches Stmt::Assign { op, .. } && has_child(n, field_at(n, "operator"@))
            && assign_op_text(op) == n.children@[field_at(n, "operator"@)].kind@,
{
    let k = n.children@[field_at(n, "operator"@)].kind@;
    law_assign_op_prints_its_token(k);
}


/// A unary operator prints back as the token it was read from.
pub proof fn law_unary_op_prints_its_token(k: Seq<char>)
    ensures
        unary_op(k) matches Some(op) ==> unary_op_text(op) == k,
{
}

/// Every unary operator is read back from its own text.
pub proof fn law_unary_op_reads_its_text(op: UnaryOp)
    ensures
        unary_op(unary_op_text(op)) == Some(op),
{
    lemma_kinds_unary_op();
    reveal_strlit("!");
    reveal_strlit("-");
    reveal_strlit("+");
    reveal_strlit("*");
    reveal_strlit("&");
    reveal_strlit("<-");
    reveal_strlit("^");
}

/// A binary operator prints back as the token it was read from.
pub proof fn law_binary_op_prints_its_token(k: Seq<char>)
    ensures
        binary_op(k) matches Some(op) ==> binary_op_text(op) == k,
{
}

/// Every binary operator is read back from its own text.
pub proof fn law_binary_op_reads_its_text(op: BinaryOp)
    ensures
        binary_op(binary_op_text(op)) == Some(op),
{
    lemma_kinds_binary_op();
    reveal_strlit("+");
    reveal_strlit("-");
    reveal_strlit("*");
    reveal_strlit("/");
    reveal_strlit("%");
    reveal_strlit("&");
    reveal_strlit("|");
    reveal_strlit("^");
    reveal_strlit("&^");
    reveal_strlit("<<");
    reveal_strlit(">>");
    reveal_strlit("&&");
    reveal_strlit("||");
    reveal_strlit("==");
    reveal_strlit("!=");
    reveal_strlit("<");
    reveal_strlit("<=");
    reveal_strlit(">");
    reveal_strlit(">=");
}


/// The direction of a channel type follows the arrow in its source text:
/// `<-chan` receives, `chan<-` and `chan <-` send, and a plain `chan` that
/// no arrow follows goes both ways.
pub proof fn law_channel_direction_follows_source(src: Seq<u8>, start: int)
    ensures
        starts_at(src, start, "<-chan"@) <==> chan_dir(src, start) == ChanDir::Recv,
        starts_at(src, start, "chan<-"@) ==> chan_dir(src, start) == ChanDir::Send,
        starts_at(src, start, "chan <-"@) ==> chan_dir(src, start) == ChanDir::Send,
        starts_at(src, start, "chan "@) && !starts_at(src, start, "chan <-"@) ==> chan_dir(src, start)
            == ChanDir::Both,
{
    reveal_strlit("<-chan");
    reveal_strlit("chan<-");
    reveal_strlit("chan <-");
    reveal_strlit("chan ");
    if starts_at(src, start, "chan"@) || starts_at(src, start, "chan<-"@) || starts_at(src, start, "chan <-"@)
        || starts_at(src, start, "chan "@) {
        if starts_at(src, start, "chan<-"@) {
            assert(src[start + 0] as u32 == "chan<-"@[0] as u32);
        }
        if starts_at(src, start, "chan <-"@) {
            assert(src[start + 0] as u32 == "chan <-"@[0] as u32);
        }
        if starts_at(src, start, "chan "@) {
            assert(src[start + 0] as u32 == "chan "@[0] as u32);
            if starts_at(src, start, "chan<-"@) {
                assert(src[start + 4] as u32 == "chan<-"@[4] as u32);
                assert(src[start + 4] as u32 == "chan "@[4] as u32);
            }
        }
    }
    if starts_at(src, start, "<-chan"@) {
        assert(src[start + 0] as u32 == "<-chan"@[0] as u32);
    }
}

} // verus!
