//! Call graph analysis: the symbol table of a repository, the references
//! between symbols, and reachability.

use vstd::prelude::*;

use crate::ast::{
    Block, CommCase, Expr, ExprCase, FieldDecl, FuncType, InterfaceElem, KeyedElem, ParamDecl,
    Stmt, TypeCase, TypeExpr, TypeParam, TypeTermElem,
};
use crate::ast::{AssignOp, BinaryOp, UnaryOp, ConstSpec, MethodDecl, SourceFile, TopLevelDecl, TypeSpec, VarSpec};
use crate::leaf::Ident;
use crate::leaf::spec_is_exported;
use crate::repo::{Repo, RepoFile, files_ok};
use crate::output::{decl_rows_ok, row_ok, spans_fit};
use crate::resolver::{AliasMap, alias_map_of, build_alias_map, imports_ok};
use crate::selection::{receiver_base, receiver_type_name};
use crate::span::Span;
use crate::text::{
    string_from_chars, before_last, before_last_of, chars_of, ends_with, last_segment, last_segment_of, push_char, seq_ends_with,
    str_eq,
};

verus! {

/// A symbol's view: the directory of its package, and its name.
pub type SymV = (Seq<char>, Seq<char>);

/// An edge's view: caller, then callee.
pub type EdgeV = (SymV, SymV);

/// Where references are being collected: the referring symbol, its package
/// directory, the file's import aliases, and the package directory of every
/// file of the repository.
pub struct RefEnv {
    pub caller: SymV,
    pub pkg: Seq<char>,
    pub aliases: Map<Seq<char>, Seq<char>>,
    pub dirs: Seq<Option<Seq<char>>>,
}

/// The part of a name before its first `[` (type arguments stripped).
pub open spec fn before_bracket(s: Seq<char>) -> Seq<char>
    decreases s.len(),
{
    if s.len() == 0 {
        s
    } else if s[0] == '[' {
        Seq::empty()
    } else {
        seq![s[0]] + before_bracket(s.drop_first())
    }
}

/// The parent directory of a file path: none for the empty path, the empty
/// directory for a bare file name, `/` for a file at the root.
pub open spec fn parent_dir(p: Seq<char>) -> Option<Seq<char>> {
    match before_last(p, '/') {
        Some(d) => Some(if d.len() == 0 { "/"@ } else { d }),
        None => if p.len() == 0 { None } else { Some(Seq::empty()) },
    }
}

/// The package directory of a file: its parent directory, or `.`.
pub open spec fn pkg_dir_of(p: Seq<char>) -> Seq<char> {
    match parent_dir(p) {
        Some(d) => d,
        None => "."@,
    }
}

/// Whether a directory stands for an import path: it ends with the path, or
/// with the path's last segment.
pub open spec fn dir_matches(d: Seq<char>, import: Seq<char>) -> bool {
    seq_ends_with(d, import) || seq_ends_with(d, last_segment(import, '/'))
}

/// The first directory among `dirs` that stands for `import`.
pub open spec fn find_dir(dirs: Seq<Option<Seq<char>>>, import: Seq<char>) -> Option<Seq<char>>
    decreases dirs.len(),
{
    if dirs.len() == 0 {
        None
    } else {
        match dirs[0] {
            Some(d) => if dir_matches(d, import) {
                Some(d)
            } else {
                find_dir(dirs.drop_first(), import)
            },
            None => find_dir(dirs.drop_first(), import),
        }
    }
}

/// The symbol `pkg.name` refers to: `pkg` through the import aliases to an
/// import path, the import path to a package directory of the repository.
pub open spec fn resolve_qualified(env: RefEnv, pkg: Seq<char>, name: Seq<char>) -> Option<SymV> {
    if env.aliases.dom().contains(pkg) {
        match find_dir(env.dirs, env.aliases[pkg]) {
            Some(d) => Some((d, name)),
            None => None,
        }
    } else {
        None
    }
}

/// The symbol a type names, for named and qualified types.
pub open spec fn type_target(t: TypeExpr, env: RefEnv) -> Option<SymV> {
    match t {
        TypeExpr::Named(id) => Some((env.pkg, id.name@)),
        TypeExpr::Qualified { package, name } => resolve_qualified(env, package.name@, name.name@),
        _ => None,
    }
}

/// The symbol a call's function expression names, when it is a name, a
/// qualified name, or a selector on a package name.
pub open spec fn call_target(f: Expr, env: RefEnv) -> Option<SymV> {
    match f {
        Expr::Ident(id) => Some((env.pkg, before_bracket(id.name@))),
        Expr::Qualified { package, name, .. } => resolve_qualified(env, package.name@, name.name@),
        Expr::Selector { operand, field, .. } => match *operand {
            Expr::Ident(p) => resolve_qualified(env, p.name@, field.name@),
            _ => None,
        },
        _ => None,
    }
}

/// An edge from the referring symbol to `target`, if there is a target.
pub open spec fn edge_to(env: RefEnv, target: Option<SymV>) -> Seq<EdgeV> {
    match target {
        Some(t) => seq![(env.caller, t)],
        None => Seq::empty(),
    }
}

/// The references a type expression makes to named types.
pub open spec fn type_refs(t: TypeExpr, env: RefEnv) -> Seq<EdgeV>
    decreases t, 0int,
{
    match t {
        TypeExpr::Named(id) => seq![(env.caller, (env.pkg, id.name@))],
        TypeExpr::Qualified { package, name } => edge_to(
            env,
            resolve_qualified(env, package.name@, name.name@),
        ),
        TypeExpr::Pointer(inner) => type_refs(*inner, env),
        TypeExpr::Slice(elem) => type_refs(*elem, env),
        TypeExpr::Array { elem, .. } => type_refs(*elem, env),
        TypeExpr::MapType { key, value } => type_refs(*key, env) + type_refs(*value, env),
        TypeExpr::Channel { elem, .. } => type_refs(*elem, env),
        TypeExpr::Func(ft) => functype_refs(ft, env),
        TypeExpr::Struct(st) => fields_refs(st.fields@, env),
        TypeExpr::Interface(it) => ielems_refs(it.elements@, env),
        TypeExpr::Generic { base, args } => type_refs(*base, env) + types_refs(args@, env),
    }
}

/// The references of several type expressions, in order.
pub open spec fn types_refs(ts: Seq<TypeExpr>, env: RefEnv) -> Seq<EdgeV>
    decreases ts, 0int,
{
    if ts.len() == 0 {
        Seq::empty()
    } else {
        types_refs(ts.drop_last(), env) + type_refs(ts.last(), env)
    }
}

/// The references of a signature: parameter types, result types, then type
/// parameter constraints.
pub open spec fn functype_refs(ft: FuncType, env: RefEnv) -> Seq<EdgeV>
    decreases ft, 0int,
{
    params_refs(ft.params@, env) + params_refs(ft.results@, env) + tparams_refs(ft.type_params@, env)
}

/// The references of the types of parameter declarations.
pub open spec fn params_refs(ps: Seq<ParamDecl>, env: RefEnv) -> Seq<EdgeV>
    decreases ps, 0int,
{
    if ps.len() == 0 {
        Seq::empty()
    } else {
        params_refs(ps.drop_last(), env) + type_refs(ps.last().ty, env)
    }
}

/// The references of the constraints of type parameters.
pub open spec fn tparams_refs(tps: Seq<TypeParam>, env: RefEnv) -> Seq<EdgeV>
    decreases tps, 0int,
{
    if tps.len() == 0 {
        Seq::empty()
    } else {
        tparams_refs(tps.drop_last(), env) + type_refs(tps.last().constraint, env)
    }
}

/// The references of the types of struct fields.
pub open spec fn fields_refs(fs: Seq<FieldDecl>, env: RefEnv) -> Seq<EdgeV>
    decreases fs, 0int,
{
    if fs.len() == 0 {
        Seq::empty()
    } else {
        fields_refs(fs.drop_last(), env) + match fs.last() {
            FieldDecl::Named { ty, .. } => type_refs(ty, env),
            FieldDecl::Embedded { ty, .. } => type_refs(ty, env),
        }
    }
}

/// The references of interface elements.
pub open spec fn ielems_refs(es: Seq<InterfaceElem>, env: RefEnv) -> Seq<EdgeV>
    decreases es, 0int,
{
    if es.len() == 0 {
        Seq::empty()
    } else {
        ielems_refs(es.drop_last(), env) + match es.last() {
            InterfaceElem::Method { ty, .. } => functype_refs(ty, env),
            InterfaceElem::Embedded(ty) => type_refs(ty, env),
            InterfaceElem::TypeTerm(tt) => terms_refs(tt.terms@, env),
        }
    }
}

/// The references of the types in a constraint union.
pub open spec fn terms_refs(ts: Seq<TypeTermElem>, env: RefEnv) -> Seq<EdgeV>
    decreases ts, 0int,
{
    if ts.len() == 0 {
        Seq::empty()
    } else {
        terms_refs(ts.drop_last(), env) + type_refs(ts.last().ty, env)
    }
}

/// The references an expression makes: calls, names, qualified names,
/// selectors (with a `*.Name` wildcard for the selected name), composite
/// literal types, and everything nested.
pub open spec fn expr_refs(e: Expr, env: RefEnv) -> Seq<EdgeV>
    decreases e, 0int,
{
    match e {
        Expr::Call { func, args, .. } => edge_to(env, call_target(*func, env)) + expr_refs(*func, env)
            + exprs_refs(args@, env),
        Expr::Ident(id) => seq![(env.caller, (env.pkg, before_bracket(id.name@)))],
        Expr::Qualified { package, name, .. } => edge_to(
            env,
            resolve_qualified(env, package.name@, name.name@),
        ),
        Expr::Selector { operand, field, .. } => expr_refs(*operand, env) + match *operand {
            Expr::Ident(p) => edge_to(env, resolve_qualified(env, p.name@, field.name@)),
            _ => Seq::empty(),
        } + seq![(env.caller, (env.pkg, "*."@ + field.name@))],
        Expr::Composite { ty, elems, .. } => edge_to(env, type_target(*ty, env)) + kelems_refs(
            elems@,
            env,
        ),
        Expr::FuncLit { body, .. } => block_refs(body, env),
        Expr::Binary { left, right, .. } => expr_refs(*left, env) + expr_refs(*right, env),
        Expr::Unary { operand, .. } => expr_refs(*operand, env),
        Expr::Paren(inner, _) => expr_refs(*inner, env),
        Expr::Index { operand, index, .. } => expr_refs(*operand, env) + expr_refs(*index, env),
        Expr::Slice { operand, low, high, max, .. } => expr_refs(*operand, env) + opt_expr_refs(low, env)
            + opt_expr_refs(high, env) + opt_expr_refs(max, env),
        Expr::TypeAssert { operand, .. } => expr_refs(*operand, env),
        _ => Seq::empty(),
    }
}

/// The references of an optional expression.
pub open spec fn opt_expr_refs(e: Option<Box<Expr>>, env: RefEnv) -> Seq<EdgeV>
    decreases e, 0int,
{
    match e {
        Some(x) => expr_refs(*x, env),
        None => Seq::empty(),
    }
}

/// The references of several expressions, in order.
pub open spec fn exprs_refs(es: Seq<Expr>, env: RefEnv) -> Seq<EdgeV>
    decreases es, 0int,
{
    if es.len() == 0 {
        Seq::empty()
    } else {
        exprs_refs(es.drop_last(), env) + expr_refs(es.last(), env)
    }
}

/// The references of the values of `var` specifications, in order.
pub open spec fn var_specs_refs(vs: Seq<VarSpec>, env: RefEnv) -> Seq<EdgeV>
    decreases vs, 0int,
{
    if vs.len() == 0 {
        Seq::empty()
    } else {
        var_specs_refs(vs.drop_last(), env) + exprs_refs(vs.last().values@, env)
    }
}

/// The references of the values of `const` specifications, in order.
pub open spec fn const_specs_refs(vs: Seq<ConstSpec>, env: RefEnv) -> Seq<EdgeV>
    decreases vs, 0int,
{
    if vs.len() == 0 {
        Seq::empty()
    } else {
        const_specs_refs(vs.drop_last(), env) + exprs_refs(vs.last().values@, env)
    }
}

/// The references of composite literal elements: key, then value.
pub open spec fn kelems_refs(ks: Seq<KeyedElem>, env: RefEnv) -> Seq<EdgeV>
    decreases ks, 0int,
{
    if ks.len() == 0 {
        Seq::empty()
    } else {
        kelems_refs(ks.drop_last(), env) + match ks.last().key {
            Some(k) => expr_refs(k, env),
            None => Seq::empty(),
        } + expr_refs(ks.last().value, env)
    }
}

/// The references a statement makes through the expressions it holds.
pub open spec fn stmt_refs(s: Stmt, env: RefEnv) -> Seq<EdgeV>
    decreases s, 0int,
{
    match s {
        Stmt::Expr(e, _) => expr_refs(e, env),
        Stmt::Go(e, _) => expr_refs(e, env),
        Stmt::Defer(e, _) => expr_refs(e, env),
        Stmt::Inc(e, _) => expr_refs(e, env),
        Stmt::Dec(e, _) => expr_refs(e, env),
        Stmt::Return { values, .. } => exprs_refs(values@, env),
        Stmt::Assign { lhs, rhs, .. } => exprs_refs(lhs@, env) + exprs_refs(rhs@, env),
        Stmt::ShortVarDecl { values, .. } => exprs_refs(values@, env),
        Stmt::Send { channel, value, .. } => expr_refs(channel, env) + expr_refs(value, env),
        Stmt::If { init, cond, body, else_, .. } => opt_stmt_refs(init, env) + expr_refs(cond, env)
            + block_refs(body, env) + opt_stmt_refs(else_, env),
        Stmt::For { init, cond, post, body, .. } => opt_stmt_refs(init, env) + match cond {
            Some(c) => expr_refs(c, env),
            None => Seq::empty(),
        } + opt_stmt_refs(post, env) + block_refs(body, env),
        Stmt::ForRange { iterable, body, .. } => expr_refs(*iterable, env) + block_refs(body, env),
        Stmt::Switch { init, tag, cases, .. } => opt_stmt_refs(init, env) + match tag {
            Some(t) => expr_refs(t, env),
            None => Seq::empty(),
        } + ecases_refs(cases@, env),
        Stmt::TypeSwitch { init, assign, cases, .. } => opt_stmt_refs(init, env) + expr_refs(
            assign.expr,
            env,
        ) + tcases_refs(cases@, env),
        Stmt::Select { cases, .. } => ccases_refs(cases@, env),
        Stmt::Block(b) => block_refs(b, env),
        Stmt::Labeled { body, .. } => stmt_refs(*body, env),
        Stmt::VarDecl(specs, _) => var_specs_refs(specs@, env),
        Stmt::ConstDecl(specs, _) => const_specs_refs(specs@, env),
        _ => Seq::empty(),
    }
}

/// The references of an optional statement.
pub open spec fn opt_stmt_refs(s: Option<Box<Stmt>>, env: RefEnv) -> Seq<EdgeV>
    decreases s, 0int,
{
    match s {
        Some(x) => stmt_refs(*x, env),
        None => Seq::empty(),
    }
}

/// The references of several statements, in order.
pub open spec fn stmts_refs(ss: Seq<Stmt>, env: RefEnv) -> Seq<EdgeV>
    decreases ss, 0int,
{
    if ss.len() == 0 {
        Seq::empty()
    } else {
        stmts_refs(ss.drop_last(), env) + stmt_refs(ss.last(), env)
    }
}

/// The references of a block's statements.
pub open spec fn block_refs(b: Block, env: RefEnv) -> Seq<EdgeV>
    decreases b, 0int,
{
    stmts_refs(b.stmts@, env)
}

/// The references of expression-switch cases: case expressions, then bodies.
pub open spec fn ecases_refs(cs: Seq<ExprCase>, env: RefEnv) -> Seq<EdgeV>
    decreases cs, 0int,
{
    if cs.len() == 0 {
        Seq::empty()
    } else {
        ecases_refs(cs.drop_last(), env) + exprs_refs(cs.last().exprs@, env) + stmts_refs(
            cs.last().body@,
            env,
        )
    }
}

/// The references of type-switch case bodies.
pub open spec fn tcases_refs(cs: Seq<TypeCase>, env: RefEnv) -> Seq<EdgeV>
    decreases cs, 0int,
{
    if cs.len() == 0 {
        Seq::empty()
    } else {
        tcases_refs(cs.drop_last(), env) + stmts_refs(cs.last().body@, env)
    }
}

/// The references of `select` cases.
pub open spec fn ccases_refs(cs: Seq<CommCase>, env: RefEnv) -> Seq<EdgeV>
    decreases cs, 0int,
{
    if cs.len() == 0 {
        Seq::empty()
    } else {
        ccases_refs(cs.drop_last(), env) + match cs.last() {
            CommCase::Send { stmt, body, .. } => stmt_refs(*stmt, env) + stmts_refs(body@, env),
            CommCase::Recv { stmt, recv_expr, body, .. } => opt_stmt_refs(stmt, env)
                + opt_expr_refs(recv_expr, env) + stmts_refs(body@, env),
            CommCase::Default { body, .. } => stmts_refs(body@, env),
        }
    }
}


/// A fully qualified symbol: the directory of its package, and its name.
#[derive(Debug)]
pub struct Symbol {
    /// Directory holding the package (the package's identity).
    pub pkg_dir: String,
    /// Name of the function, method (`Type.Method`), type, variable or constant.
    pub name: String,
}

impl View for Symbol {
    type V = SymV;

    open spec fn view(&self) -> SymV {
        (self.pkg_dir@, self.name@)
    }
}

impl Symbol {
    /// The text `pkg_dir/name`.
    pub fn display(&self) -> (s: String)
        ensures
            s@ == self.pkg_dir@ + "/"@ + self.name@,
    {
        let mut s = self.pkg_dir.clone();
        s.append("/");
        s.append(self.name.as_str());
        s
    }
}

/// A copy of a symbol.
pub fn copy_symbol(s: &Symbol) -> (r: Symbol)
    ensures
        r@ == s@,
{
    Symbol { pkg_dir: s.pkg_dir.clone(), name: s.name.clone() }
}

/// A directed reference from one symbol to another.
#[derive(Debug)]
pub struct CallEdge {
    pub caller: Symbol,
    pub callee: Symbol,
}

impl View for CallEdge {
    type V = EdgeV;

    open spec fn view(&self) -> EdgeV {
        (self.caller@, self.callee@)
    }
}

/// The views of a list of edges.
pub open spec fn call_edges_view(es: Seq<CallEdge>) -> Seq<EdgeV> {
    es.map_values(|e: CallEdge| e@)
}

/// The views of a list of optional directories.
pub open spec fn dirs_view(ds: Seq<Option<String>>) -> Seq<Option<Seq<char>>> {
    ds.map_values(|d: Option<String>| match d {
        Some(x) => Some(x@),
        None => None,
    })
}

/// Where references are collected, as executable values.
struct Env<'a> {
    caller: &'a Symbol,
    pkg: &'a str,
    aliases: &'a AliasMap,
    dirs: &'a Vec<Option<String>>,
}

/// The view of an environment.
spec fn env_of(env: &Env) -> RefEnv {
    RefEnv {
        caller: env.caller@,
        pkg: env.pkg@,
        aliases: env.aliases@,
        dirs: dirs_view(env.dirs@),
    }
}

/// The part of a name before its first `[`.
pub fn strip_type_args(name: &str) -> (r: String)
    ensures
        r@ == before_bracket(name@),
{
    let cs = chars_of(name);
    let mut r = String::new();
    let mut i: usize = 0;
    proof {
        assert(cs@.skip(0) =~= cs@);
    }
    while i < cs.len()
        invariant
            i <= cs@.len(),
            cs@ == name@,
            before_bracket(name@) == r@ + before_bracket(cs@.skip(i as int)),
        decreases cs@.len() - i,
    {
        proof {
            assert(cs@.skip(i as int)[0] == cs@[i as int]);
            assert(cs@.skip(i as int).drop_first() =~= cs@.skip(i + 1));
        }
        if cs[i] == '[' {
            proof {
                assert(r@ + Seq::<char>::empty() =~= r@);
            }
            return r;
        }
        let ghost before = r@;
        push_char(&mut r, cs[i]);
        proof {
            assert(r@ + before_bracket(cs@.skip(i + 1)) =~= before + (seq![cs@[i as int]] + before_bracket(
                cs@.skip(i + 1),
            )));
        }
        i = i + 1;
    }
    proof {
        assert(cs@.skip(i as int) =~= Seq::<char>::empty());
        assert(r@ + Seq::<char>::empty() =~= r@);
    }
    r
}

/// The first directory that stands for `import`.
fn find_dir_in(dirs: &Vec<Option<String>>, import: &str) -> (r: Option<String>)
    ensures
        match r {
            Some(d) => find_dir(dirs_view(dirs@), import@) == Some(d@),
            None => find_dir(dirs_view(dirs@), import@) is None,
        },
{
    let last = last_segment_of(import, '/');
    let ghost ds = dirs_view(dirs@);
    let mut k: usize = 0;
    proof {
        assert(ds.skip(0) =~= ds);
    }
    while k < dirs.len()
        invariant
            k <= dirs@.len(),
            ds == dirs_view(dirs@),
            last@ == last_segment(import@, '/'),
            find_dir(ds, import@) == find_dir(ds.skip(k as int), import@),
        decreases dirs@.len() - k,
    {
        proof {
            assert(ds.skip(k as int)[0] == ds[k as int]);
            assert(ds.skip(k as int).drop_first() =~= ds.skip(k + 1));
        }
        match &dirs[k] {
            Some(d) => {
                if ends_with(d.as_str(), import) || ends_with(d.as_str(), last.as_str()) {
                    return Some(d.clone());
                }
            },
            None => {},
        }
        k = k + 1;
    }
    proof {
        assert(ds.skip(k as int) =~= Seq::<Option<Seq<char>>>::empty());
    }
    None
}

/// The symbol `pkg.name` refers to.
fn resolve_in(env: &Env, pkg: &str, name: &str) -> (r: Option<Symbol>)
    requires
        env.aliases.wf(),
    ensures
        match r {
            Some(s) => resolve_qualified(env_of(env), pkg@, name@) == Some(s@),
            None => resolve_qualified(env_of(env), pkg@, name@) is None,
        },
{
    match env.aliases.get(pkg) {
        Some(import) => match find_dir_in(env.dirs, import.as_str()) {
            Some(d) => Some(Symbol { pkg_dir: d, name: name.to_string() }),
            None => None,
        },
        None => None,
    }
}

/// Records an edge from the referring symbol to `callee`, if any.
fn push_to(env: &Env, callee: Option<Symbol>, edges: &mut Vec<CallEdge>)
    ensures
        call_edges_view(final(edges)@) == call_edges_view(old(edges)@) + edge_to(
            env_of(env),
            match callee {
                Some(c) => Some(c@),
                None => None,
            },
        ),
{
    match callee {
        Some(c) => {
            edges.push(CallEdge { caller: copy_symbol(env.caller), callee: c });
            proof {
                assert(call_edges_view(edges@) =~= call_edges_view(old(edges)@).push(edges@.last()@));
            }
        },
        None => {
            proof {
                assert(call_edges_view(edges@) =~= call_edges_view(old(edges)@) + Seq::<EdgeV>::empty());
            }
        },
    }
}

/// Records an edge to `name` in the current package.
fn push_local(env: &Env, name: String, edges: &mut Vec<CallEdge>)
    ensures
        call_edges_view(final(edges)@) == call_edges_view(old(edges)@) + seq![
            (env_of(env).caller, (env_of(env).pkg, name@)),
        ],
{
    edges.push(CallEdge { caller: copy_symbol(env.caller), callee: Symbol { pkg_dir: env.pkg.to_string(), name } });
    proof {
        assert(call_edges_view(edges@) =~= call_edges_view(old(edges)@).push(edges@.last()@));
    }
}

/// The symbol a type names.
fn type_target_in(t: &TypeExpr, env: &Env) -> (r: Option<Symbol>)
    requires
        env.aliases.wf(),
    ensures
        match r {
            Some(s) => type_target(*t, env_of(env)) == Some(s@),
            None => type_target(*t, env_of(env)) is None,
        },
{
    match t {
        TypeExpr::Named(id) => Some(Symbol { pkg_dir: env.pkg.to_string(), name: id.name.clone() }),
        TypeExpr::Qualified { package, name } => resolve_in(env, package.name.as_str(), name.name.as_str()),
        _ => None,
    }
}

/// The symbol a call's function expression names.
fn call_target_in(f: &Expr, env: &Env) -> (r: Option<Symbol>)
    requires
        env.aliases.wf(),
    ensures
        match r {
            Some(s) => call_target(*f, env_of(env)) == Some(s@),
            None => call_target(*f, env_of(env)) is None,
        },
{
    match f {
        Expr::Ident(id) => Some(Symbol { pkg_dir: env.pkg.to_string(), name: strip_type_args(id.name.as_str()) }),
        Expr::Qualified { package, name, .. } => resolve_in(env, package.name.as_str(), name.name.as_str()),
        Expr::Selector { operand, field, .. } => match &**operand {
            Expr::Ident(p) => resolve_in(env, p.name.as_str(), field.name.as_str()),
            _ => None,
        },
        _ => None,
    }
}

/// Records the references of a type expression.
fn add_type_refs(t: &TypeExpr, env: &Env, edges: &mut Vec<CallEdge>)
    requires
        env.aliases.wf(),
    ensures
        call_edges_view(final(edges)@) == call_edges_view(old(edges)@) + type_refs(*t, env_of(env)),
    decreases t, 0int,
{
    let ghost ev = env_of(env);
    let ghost e0 = call_edges_view(edges@);
    match t {
        TypeExpr::Named(id) => {
            push_local(env, id.name.clone(), edges);
        },
        TypeExpr::Qualified { package, name } => {
            let c = resolve_in(env, package.name.as_str(), name.name.as_str());
            push_to(env, c, edges);
        },
        TypeExpr::Pointer(inner) => {
            add_type_refs(inner, env, edges);
        },
        TypeExpr::Slice(elem) => {
            add_type_refs(elem, env, edges);
        },
        TypeExpr::Array { elem, .. } => {
            add_type_refs(elem, env, edges);
        },
        TypeExpr::MapType { key, value } => {
            add_type_refs(key, env, edges);
            add_type_refs(value, env, edges);
            proof {
                assert(call_edges_view(edges@) =~= e0 + type_refs(*t, ev));
            }
        },
        TypeExpr::Channel { elem, .. } => {
            add_type_refs(elem, env, edges);
        },
        TypeExpr::Func(ft) => {
            add_functype_refs(ft, env, edges);
        },
        TypeExpr::Struct(st) => {
            add_fields_refs(&st.fields, env, edges);
        },
        TypeExpr::Interface(it) => {
            add_ielems_refs(&it.elements, env, edges);
        },
        TypeExpr::Generic { base, args } => {
            add_type_refs(base, env, edges);
            add_types_refs(args, env, edges);
            proof {
                assert(call_edges_view(edges@) =~= e0 + type_refs(*t, ev));
            }
        },
    }
}

/// Records the references of several type expressions.
fn add_types_refs(ts: &Vec<TypeExpr>, env: &Env, edges: &mut Vec<CallEdge>)
    requires
        env.aliases.wf(),
    ensures
        call_edges_view(final(edges)@) == call_edges_view(old(edges)@) + types_refs(ts@, env_of(env)),
    decreases ts, 0int,
{
    let ghost ev = env_of(env);
    let ghost e0 = call_edges_view(edges@);
    let mut i: usize = 0;
    while i < ts.len()
        invariant
            i <= ts@.len(),
            env.aliases.wf(),
            ev == env_of(env),
            call_edges_view(edges@) == e0 + types_refs(ts@.take(i as int), ev),
        decreases ts@.len() - i,
    {
        proof {
            assert(ts@.take(i + 1).drop_last() =~= ts@.take(i as int));
            assert(ts@.take(i + 1).last() == ts@[i as int]);
        }
        add_type_refs(&ts[i], env, edges);
        proof {
            assert(call_edges_view(edges@) =~= e0 + types_refs(ts@.take(i + 1), ev));
        }
        i = i + 1;
    }
    proof {
        assert(ts@.take(i as int) =~= ts@);
    }
}

/// Records the references of the types in a constraint union.
fn add_terms_refs(ts: &Vec<TypeTermElem>, env: &Env, edges: &mut Vec<CallEdge>)
    requires
        env.aliases.wf(),
    ensures
        call_edges_view(final(edges)@) == call_edges_view(old(edges)@) + terms_refs(ts@, env_of(env)),
    decreases ts, 0int,
{
    let ghost ev = env_of(env);
    let ghost e0 = call_edges_view(edges@);
    let mut i: usize = 0;
    while i < ts.len()
        invariant
            i <= ts@.len(),
            env.aliases.wf(),
            ev == env_of(env),
            call_edges_view(edges@) == e0 + terms_refs(ts@.take(i as int), ev),
        decreases ts@.len() - i,
    {
        proof {
            assert(ts@.take(i + 1).drop_last() =~= ts@.take(i as int));
            assert(ts@.take(i + 1).last() == ts@[i as int]);
        }
        add_type_refs(&ts[i].ty, env, edges);
        proof {
            assert(call_edges_view(edges@) =~= e0 + terms_refs(ts@.take(i + 1), ev));
        }
        i = i + 1;
    }
    proof {
        assert(ts@.take(i as int) =~= ts@);
    }
}

/// Records the references of the types of parameter declarations.
fn add_params_refs(ps: &Vec<ParamDecl>, env: &Env, edges: &mut Vec<CallEdge>)
    requires
        env.aliases.wf(),
    ensures
        call_edges_view(final(edges)@) == call_edges_view(old(edges)@) + params_refs(ps@, env_of(env)),
    decreases ps, 0int,
{
    let ghost ev = env_of(env);
    let ghost e0 = call_edges_view(edges@);
    let mut i: usize = 0;
    while i < ps.len()
        invariant
            i <= ps@.len(),
            env.aliases.wf(),
            ev == env_of(env),
            call_edges_view(edges@) == e0 + params_refs(ps@.take(i as int), ev),
        decreases ps@.len() - i,
    {
        proof {
            assert(ps@.take(i + 1).drop_last() =~= ps@.take(i as int));
            assert(ps@.take(i + 1).last() == ps@[i as int]);
        }
        add_type_refs(&ps[i].ty, env, edges);
        proof {
            assert(call_edges_view(edges@) =~= e0 + params_refs(ps@.take(i + 1), ev));
        }
        i = i + 1;
    }
    proof {
        assert(ps@.take(i as int) =~= ps@);
    }
}

/// Records the references of a signature.
fn add_functype_refs(ft: &FuncType, env: &Env, edges: &mut Vec<CallEdge>)
    requires
        env.aliases.wf(),
    ensures
        call_edges_view(final(edges)@) == call_edges_view(old(edges)@) + functype_refs(*ft, env_of(env)),
    decreases ft, 0int,
{
    let ghost ev = env_of(env);
    let ghost e0 = call_edges_view(edges@);
    add_params_refs(&ft.params, env, edges);
    add_params_refs(&ft.results, env, edges);
    let ghost e2 = call_edges_view(edges@);
    let mut i: usize = 0;
    while i < ft.type_params.len()
        invariant
            i <= ft.type_params@.len(),
            env.aliases.wf(),
            ev == env_of(env),
            call_edges_view(edges@) == e2 + tparams_refs(ft.type_params@.take(i as int), ev),
        decreases ft.type_params@.len() - i,
    {
        proof {
            assert(ft.type_params@.take(i + 1).drop_last() =~= ft.type_params@.take(i as int));
            assert(ft.type_params@.take(i + 1).last() == ft.type_params@[i as int]);
        }
        add_type_refs(&ft.type_params[i].constraint, env, edges);
        proof {
            assert(call_edges_view(edges@) =~= e2 + tparams_refs(ft.type_params@.take(i + 1), ev));
        }
        i = i + 1;
    }
    proof {
        assert(ft.type_params@.take(i as int) =~= ft.type_params@);
        assert(call_edges_view(edges@) =~= e0 + functype_refs(*ft, ev));
    }
}


/// Records the references of the types of struct fields.
fn add_fields_refs(fs: &Vec<FieldDecl>, env: &Env, edges: &mut Vec<CallEdge>)
    requires
        env.aliases.wf(),
    ensures
        call_edges_view(final(edges)@) == call_edges_view(old(edges)@) + fields_refs(fs@, env_of(env)),
    decreases fs, 0int,
{
    let ghost ev = env_of(env);
    let ghost e0 = call_edges_view(edges@);
    let mut i: usize = 0;
    while i < fs.len()
        invariant
            i <= fs@.len(),
            env.aliases.wf(),
            ev == env_of(env),
            call_edges_view(edges@) == e0 + fields_refs(fs@.take(i as int), ev),
        decreases fs@.len() - i,
    {
        proof {
            assert(fs@.take(i + 1).drop_last() =~= fs@.take(i as int));
            assert(fs@.take(i + 1).last() == fs@[i as int]);
        }
        match &fs[i] {
            FieldDecl::Named { ty, .. } => add_type_refs(ty, env, edges),
            FieldDecl::Embedded { ty, .. } => add_type_refs(ty, env, edges),
        }
        proof {
            assert(call_edges_view(edges@) =~= e0 + fields_refs(fs@.take(i + 1), ev));
        }
        i = i + 1;
    }
    proof {
        assert(fs@.take(i as int) =~= fs@);
    }
}

/// Records the references of interface elements.
fn add_ielems_refs(es: &Vec<InterfaceElem>, env: &Env, edges: &mut Vec<CallEdge>)
    requires
        env.aliases.wf(),
    ensures
        call_edges_view(final(edges)@) == call_edges_view(old(edges)@) + ielems_refs(es@, env_of(env)),
    decreases es, 0int,
{
    let ghost ev = env_of(env);
    let ghost e0 = call_edges_view(edges@);
    let mut i: usize = 0;
    while i < es.len()
        invariant
            i <= es@.len(),
            env.aliases.wf(),
            ev == env_of(env),
            call_edges_view(edges@) == e0 + ielems_refs(es@.take(i as int), ev),
        decreases es@.len() - i,
    {
        proof {
            assert(es@.take(i + 1).drop_last() =~= es@.take(i as int));
            assert(es@.take(i + 1).last() == es@[i as int]);
        }
        match &es[i] {
            InterfaceElem::Method { ty, .. } => add_functype_refs(ty, env, edges),
            InterfaceElem::Embedded(ty) => add_type_refs(ty, env, edges),
            InterfaceElem::TypeTerm(tt) => add_terms_refs(&tt.terms, env, edges),
        }
        proof {
            assert(call_edges_view(edges@) =~= e0 + ielems_refs(es@.take(i + 1), ev));
        }
        i = i + 1;
    }
    proof {
        assert(es@.take(i as int) =~= es@);
    }
}


/// Records the references of several expressions.
fn add_exprs_refs(xs: &Vec<Expr>, env: &Env, edges: &mut Vec<CallEdge>)
    requires
        env.aliases.wf(),
    ensures
        call_edges_view(final(edges)@) == call_edges_view(old(edges)@) + exprs_refs(xs@, env_of(env)),
    decreases xs, 0int,
{
    let ghost ev = env_of(env);
    let ghost e0 = call_edges_view(edges@);
    let mut i: usize = 0;
    while i < xs.len()
        invariant
            i <= xs@.len(),
            env.aliases.wf(),
            ev == env_of(env),
            call_edges_view(edges@) == e0 + exprs_refs(xs@.take(i as int), ev),
        decreases xs@.len() - i,
    {
        proof {
            assert(xs@.take(i + 1).drop_last() =~= xs@.take(i as int));
            assert(xs@.take(i + 1).last() == xs@[i as int]);
        }
        add_expr_refs(&xs[i], env, edges);
        proof {
            assert(call_edges_view(edges@) =~= e0 + exprs_refs(xs@.take(i + 1), ev));
        }
        i = i + 1;
    }
    proof {
        assert(xs@.take(i as int) =~= xs@);
    }
}

/// Records the references of the values of `var` specifications.
fn add_var_specs_refs(xs: &Vec<VarSpec>, env: &Env, edges: &mut Vec<CallEdge>)
    requires
        env.aliases.wf(),
    ensures
        call_edges_view(final(edges)@) == call_edges_view(old(edges)@) + var_specs_refs(xs@, env_of(env)),
    decreases xs, 0int,
{
    let ghost ev = env_of(env);
    let ghost e0 = call_edges_view(edges@);
    let mut i: usize = 0;
    while i < xs.len()
        invariant
            i <= xs@.len(),
            env.aliases.wf(),
            ev == env_of(env),
            call_edges_view(edges@) == e0 + var_specs_refs(xs@.take(i as int), ev),
        decreases xs@.len() - i,
    {
        proof {
            assert(xs@.take(i + 1).drop_last() =~= xs@.take(i as int));
            assert(xs@.take(i + 1).last() == xs@[i as int]);
        }
        add_exprs_refs(&xs[i].values, env, edges);
        proof {
            assert(call_edges_view(edges@) =~= e0 + var_specs_refs(xs@.take(i + 1), ev));
        }
        i = i + 1;
    }
    proof {
        assert(xs@.take(i as int) =~= xs@);
    }
}

/// Records the references of the values of `const` specifications.
fn add_const_specs_refs(xs: &Vec<ConstSpec>, env: &Env, edges: &mut Vec<CallEdge>)
    requires
        env.aliases.wf(),
    ensures
        call_edges_view(final(edges)@) == call_edges_view(old(edges)@) + const_specs_refs(xs@, env_of(env)),
    decreases xs, 0int,
{
    let ghost ev = env_of(env);
    let ghost e0 = call_edges_view(edges@);
    let mut i: usize = 0;
    while i < xs.len()
        invariant
            i <= xs@.len(),
            env.aliases.wf(),
            ev == env_of(env),
            call_edges_view(edges@) == e0 + const_specs_refs(xs@.take(i as int), ev),
        decreases xs@.len() - i,
    {
        proof {
            assert(xs@.take(i + 1).drop_last() =~= xs@.take(i as int));
            assert(xs@.take(i + 1).last() == xs@[i as int]);
        }
        add_exprs_refs(&xs[i].values, env, edges);
        proof {
            assert(call_edges_view(edges@) =~= e0 + const_specs_refs(xs@.take(i + 1), ev));
        }
        i = i + 1;
    }
    proof {
        assert(xs@.take(i as int) =~= xs@);
    }
}

/// Records the references of composite literal elements.
fn add_kelems_refs(xs: &Vec<KeyedElem>, env: &Env, edges: &mut Vec<CallEdge>)
    requires
        env.aliases.wf(),
    ensures
        call_edges_view(final(edges)@) == call_edges_view(old(edges)@) + kelems_refs(xs@, env_of(env)),
    decreases xs, 0int,
{
    let ghost ev = env_of(env);
    let ghost e0 = call_edges_view(edges@);
    let mut i: usize = 0;
    while i < xs.len()
        invariant
            i <= xs@.len(),
            env.aliases.wf(),
            ev == env_of(env),
            call_edges_view(edges@) == e0 + kelems_refs(xs@.take(i as int), ev),
        decreases xs@.len() - i,
    {
        proof {
            assert(xs@.take(i + 1).drop_last() =~= xs@.take(i as int));
            assert(xs@.take(i + 1).last() == xs@[i as int]);
        }
        match &xs[i].key {
            Some(k) => add_expr_refs(k, env, edges),
            None => {},
        }
        add_expr_refs(&xs[i].value, env, edges);
        proof {
            assert(call_edges_view(edges@) =~= e0 + kelems_refs(xs@.take(i + 1), ev));
        }
        i = i + 1;
    }
    proof {
        assert(xs@.take(i as int) =~= xs@);
    }
}

/// Records the references of several statements.
fn add_stmts_refs(xs: &Vec<Stmt>, env: &Env, edges: &mut Vec<CallEdge>)
    requires
        env.aliases.wf(),
    ensures
        call_edges_view(final(edges)@) == call_edges_view(old(edges)@) + stmts_refs(xs@, env_of(env)),
    decreases xs, 0int,
{
    let ghost ev = env_of(env);
    let ghost e0 = call_edges_view(edges@);
    let mut i: usize = 0;
    while i < xs.len()
        invariant
            i <= xs@.len(),
            env.aliases.wf(),
            ev == env_of(env),
            call_edges_view(edges@) == e0 + stmts_refs(xs@.take(i as int), ev),
        decreases xs@.len() - i,
    {
        proof {
            assert(xs@.take(i + 1).drop_last() =~= xs@.take(i as int));
            assert(xs@.take(i + 1).last() == xs@[i as int]);
        }
        add_stmt_refs(&xs[i], env, edges);
        proof {
            assert(call_edges_view(edges@) =~= e0 + stmts_refs(xs@.take(i + 1), ev));
        }
        i = i + 1;
    }
    proof {
        assert(xs@.take(i as int) =~= xs@);
    }
}

/// Records the references of expression-switch cases.
fn add_ecases_refs(xs: &Vec<ExprCase>, env: &Env, edges: &mut Vec<CallEdge>)
    requires
        env.aliases.wf(),
    ensures
        call_edges_view(final(edges)@) == call_edges_view(old(edges)@) + ecases_refs(xs@, env_of(env)),
    decreases xs, 0int,
{
    let ghost ev = env_of(env);
    let ghost e0 = call_edges_view(edges@);
    let mut i: usize = 0;
    while i < xs.len()
        invariant
            i <= xs@.len(),
            env.aliases.wf(),
            ev == env_of(env),
            call_edges_view(edges@) == e0 + ecases_refs(xs@.take(i as int), ev),
        decreases xs@.len() - i,
    {
        proof {
            assert(xs@.take(i + 1).drop_last() =~= xs@.take(i as int));
            assert(xs@.take(i + 1).last() == xs@[i as int]);
        }
        add_exprs_refs(&xs[i].exprs, env, edges);
        add_stmts_refs(&xs[i].body, env, edges);
        proof {
            assert(call_edges_view(edges@) =~= e0 + ecases_refs(xs@.take(i + 1), ev));
        }
        i = i + 1;
    }
    proof {
        assert(xs@.take(i as int) =~= xs@);
    }
}

/// Records the references of type-switch case bodies.
fn add_tcases_refs(xs: &Vec<TypeCase>, env: &Env, edges: &mut Vec<CallEdge>)
    requires
        env.aliases.wf(),
    ensures
        call_edges_view(final(edges)@) == call_edges_view(old(edges)@) + tcases_refs(xs@, env_of(env)),
    decreases xs, 0int,
{
    let ghost ev = env_of(env);
    let ghost e0 = call_edges_view(edges@);
    let mut i: usize = 0;
    while i < xs.len()
        invariant
            i <= xs@.len(),
            env.aliases.wf(),
            ev == env_of(env),
            call_edges_view(edges@) == e0 + tcases_refs(xs@.take(i as int), ev),
        decreases xs@.len() - i,
    {
        proof {
            assert(xs@.take(i + 1).drop_last() =~= xs@.take(i as int));
            assert(xs@.take(i + 1).last() == xs@[i as int]);
        }
        add_stmts_refs(&xs[i].body, env, edges);
        proof {
            assert(call_edges_view(edges@) =~= e0 + tcases_refs(xs@.take(i + 1), ev));
        }
        i = i + 1;
    }
    proof {
        assert(xs@.take(i as int) =~= xs@);
    }
}

/// Records the references of `select` cases.
fn add_ccases_refs(xs: &Vec<CommCase>, env: &Env, edges: &mut Vec<CallEdge>)
    requires
        env.aliases.wf(),
    ensures
        call_edges_view(final(edges)@) == call_edges_view(old(edges)@) + ccases_refs(xs@, env_of(env)),
    decreases xs, 0int,
{
    let ghost ev = env_of(env);
    let ghost e0 = call_edges_view(edges@);
    let mut i: usize = 0;
    while i < xs.len()
        invariant
            i <= xs@.len(),
            env.aliases.wf(),
            ev == env_of(env),
            call_edges_view(edges@) == e0 + ccases_refs(xs@.take(i as int), ev),
        decreases xs@.len() - i,
    {
        proof {
            assert(xs@.take(i + 1).drop_last() =~= xs@.take(i as int));
            assert(xs@.take(i + 1).last() == xs@[i as int]);
        }
        match &xs[i] {
            CommCase::Send { stmt, body, .. } => {
                add_stmt_refs(stmt, env, edges);
                add_stmts_refs(body, env, edges);
            },
            CommCase::Recv { stmt, recv_expr, body, .. } => {
                add_opt_stmt_refs(stmt, env, edges);
                add_opt_expr_refs(recv_expr, env, edges);
                add_stmts_refs(body, env, edges);
            },
            CommCase::Default { body, .. } => add_stmts_refs(body, env, edges),
        }
        proof {
            assert(call_edges_view(edges@) =~= e0 + ccases_refs(xs@.take(i + 1), ev));
        }
        i = i + 1;
    }
    proof {
        assert(xs@.take(i as int) =~= xs@);
    }
}

/// Records the references of an expression.
fn add_expr_refs(e: &Expr, env: &Env, edges: &mut Vec<CallEdge>)
    requires
        env.aliases.wf(),
    ensures
        call_edges_view(final(edges)@) == call_edges_view(old(edges)@) + expr_refs(*e, env_of(env)),
    decreases e, 0int,
{
    let ghost ev = env_of(env);
    let ghost e0 = call_edges_view(edges@);
    match e {
        Expr::Call { func, args, .. } => {
            let t = call_target_in(func, env);
            push_to(env, t, edges);
            add_expr_refs(func, env, edges);
            add_exprs_refs(args, env, edges);
        },
        Expr::Ident(id) => {
            push_local(env, strip_type_args(id.name.as_str()), edges);
        },
        Expr::Qualified { package, name, .. } => {
            let c = resolve_in(env, package.name.as_str(), name.name.as_str());
            push_to(env, c, edges);
        },
        Expr::Selector { operand, field, .. } => {
            add_expr_refs(operand, env, edges);
            let ghost e1 = call_edges_view(edges@);
            match &**operand {
                Expr::Ident(p) => {
                    let c = resolve_in(env, p.name.as_str(), field.name.as_str());
                    push_to(env, c, edges);
                },
                _ => {
                    proof {
                        assert(call_edges_view(edges@) =~= e1 + Seq::<EdgeV>::empty());
                    }
                },
            }
            let mut wild = String::new();
            wild.append("*.");
            wild.append(field.name.as_str());
            push_local(env, wild, edges);
        },
        Expr::Composite { ty, elems, .. } => {
            let c = type_target_in(ty, env);
            push_to(env, c, edges);
            add_kelems_refs(elems, env, edges);
        },
        Expr::FuncLit { body, .. } => {
            add_block_refs(body, env, edges);
        },
        Expr::Binary { left, right, .. } => {
            add_expr_refs(left, env, edges);
            add_expr_refs(right, env, edges);
        },
        Expr::Unary { operand, .. } => {
            add_expr_refs(operand, env, edges);
        },
        Expr::Paren(inner, _) => {
            add_expr_refs(inner, env, edges);
        },
        Expr::Index { operand, index, .. } => {
            add_expr_refs(operand, env, edges);
            add_expr_refs(index, env, edges);
        },
        Expr::Slice { operand, low, high, max, .. } => {
            add_expr_refs(operand, env, edges);
            add_opt_expr_refs(low, env, edges);
            add_opt_expr_refs(high, env, edges);
            add_opt_expr_refs(max, env, edges);
        },
        Expr::TypeAssert { operand, .. } => {
            add_expr_refs(operand, env, edges);
        },
        _ => {},
    }
    proof {
        assert(call_edges_view(edges@) =~= e0 + expr_refs(*e, ev));
    }
}

/// Records the references of an optional expression.
fn add_opt_expr_refs(e: &Option<Box<Expr>>, env: &Env, edges: &mut Vec<CallEdge>)
    requires
        env.aliases.wf(),
    ensures
        call_edges_view(final(edges)@) == call_edges_view(old(edges)@) + opt_expr_refs(*e, env_of(env)),
    decreases e, 0int,
{
    let ghost ev = env_of(env);
    let ghost e0 = call_edges_view(edges@);
    match e {
        Some(x) => add_expr_refs(x, env, edges),
        None => {},
    }
    proof {
        assert(call_edges_view(edges@) =~= e0 + opt_expr_refs(*e, ev));
    }
}

/// Records the references of an optional statement.
fn add_opt_stmt_refs(s: &Option<Box<Stmt>>, env: &Env, edges: &mut Vec<CallEdge>)
    requires
        env.aliases.wf(),
    ensures
        call_edges_view(final(edges)@) == call_edges_view(old(edges)@) + opt_stmt_refs(*s, env_of(env)),
    decreases s, 0int,
{
    let ghost ev = env_of(env);
    let ghost e0 = call_edges_view(edges@);
    match s {
        Some(x) => add_stmt_refs(x, env, edges),
        None => {},
    }
    proof {
        assert(call_edges_view(edges@) =~= e0 + opt_stmt_refs(*s, ev));
    }
}

/// Records the references of a block.
fn add_block_refs(b: &Block, env: &Env, edges: &mut Vec<CallEdge>)
    requires
        env.aliases.wf(),
    ensures
        call_edges_view(final(edges)@) == call_edges_view(old(edges)@) + block_refs(*b, env_of(env)),
    decreases b, 0int,
{
    let ghost ev = env_of(env);
    let ghost e0 = call_edges_view(edges@);
    add_stmts_refs(&b.stmts, env, edges);
    proof {
        assert(call_edges_view(edges@) =~= e0 + block_refs(*b, ev));
    }
}

/// Records the references of a statement.
fn add_stmt_refs(s: &Stmt, env: &Env, edges: &mut Vec<CallEdge>)
    requires
        env.aliases.wf(),
    ensures
        call_edges_view(final(edges)@) == call_edges_view(old(edges)@) + stmt_refs(*s, env_of(env)),
    decreases s, 0int,
{
    let ghost ev = env_of(env);
    let ghost e0 = call_edges_view(edges@);
    match s {
        Stmt::Expr(e, _) => add_expr_refs(e, env, edges),
        Stmt::Go(e, _) => add_expr_refs(e, env, edges),
        Stmt::Defer(e, _) => add_expr_refs(e, env, edges),
        Stmt::Inc(e, _) => add_expr_refs(e, env, edges),
        Stmt::Dec(e, _) => add_expr_refs(e, env, edges),
        Stmt::Return { values, .. } => add_exprs_refs(values, env, edges),
        Stmt::Assign { lhs, rhs, .. } => {
            add_exprs_refs(lhs, env, edges);
            add_exprs_refs(rhs, env, edges);
        },
        Stmt::ShortVarDecl { values, .. } => add_exprs_refs(values, env, edges),
        Stmt::Send { channel, value, .. } => {
            add_expr_refs(channel, env, edges);
            add_expr_refs(value, env, edges);
        },
        Stmt::If { init, cond, body, else_, .. } => {
            add_opt_stmt_refs(init, env, edges);
            add_expr_refs(cond, env, edges);
            add_block_refs(body, env, edges);
            add_opt_stmt_refs(else_, env, edges);
        },
        Stmt::For { init, cond, post, body, .. } => {
            add_opt_stmt_refs(init, env, edges);
            match cond {
                Some(c) => add_expr_refs(c, env, edges),
                None => {},
            }
            add_opt_stmt_refs(post, env, edges);
            add_block_refs(body, env, edges);
        },
        Stmt::ForRange { iterable, body, .. } => {
            add_expr_refs(iterable, env, edges);
            add_block_refs(body, env, edges);
        },
        Stmt::Switch { init, tag, cases, .. } => {
            add_opt_stmt_refs(init, env, edges);
            match tag {
                Some(t) => add_expr_refs(t, env, edges),
                None => {},
            }
            add_ecases_refs(cases, env, edges);
        },
        Stmt::TypeSwitch { init, assign, cases, .. } => {
            add_opt_stmt_refs(init, env, edges);
            add_expr_refs(&assign.expr, env, edges);
            add_tcases_refs(cases, env, edges);
        },
        Stmt::Select { cases, .. } => add_ccases_refs(cases, env, edges),
        Stmt::Block(b) => add_block_refs(b, env, edges),
        Stmt::Labeled { body, .. } => add_stmt_refs(body, env, edges),
        Stmt::VarDecl(specs, _) => add_var_specs_refs(specs, env, edges),
        Stmt::ConstDecl(specs, _) => add_const_specs_refs(specs, env, edges),
        _ => {},
    }
    proof {
        assert(call_edges_view(edges@) =~= e0 + stmt_refs(*s, ev));
    }
}


/// The view of a symbol's kind.
pub enum KindV {
    Func,
    Method(Seq<char>),
    Type,
    Var,
    Const,
}

/// The kind of a symbol.
#[derive(Debug)]
pub enum SymbolKind {
    Func,
    Method { receiver_type: String },
    Type,
    Var,
    Const,
}

impl View for SymbolKind {
    type V = KindV;

    open spec fn view(&self) -> KindV {
        match self {
            SymbolKind::Func => KindV::Func,
            SymbolKind::Method { receiver_type } => KindV::Method(receiver_type@),
            SymbolKind::Type => KindV::Type,
            SymbolKind::Var => KindV::Var,
            SymbolKind::Const => KindV::Const,
        }
    }
}

/// An entry's view: symbol, kind, span, file, and whether it is exported.
pub type EntryV = (SymV, KindV, Span, Seq<char>, bool);

/// An entry of the symbol table.
#[derive(Debug)]
pub struct SymbolEntry {
    pub symbol: Symbol,
    pub kind: SymbolKind,
    pub span: Span,
    pub file: String,
    pub exported: bool,
}

impl View for SymbolEntry {
    type V = EntryV;

    open spec fn view(&self) -> EntryV {
        (self.symbol@, self.kind@, self.span, self.file@, self.exported)
    }
}

/// The views of a list of entries.
pub open spec fn entries_view(es: Seq<SymbolEntry>) -> Seq<EntryV> {
    es.map_values(|e: SymbolEntry| e@)
}

/// The receiver type name of a method (empty when it has none).
pub open spec fn recv_name(m: MethodDecl) -> Seq<char> {
    match receiver_base(m.receiver.ty) {
        Some(n) => n,
        None => Seq::empty(),
    }
}

/// The symbol name of a method: `Type.Method`.
pub open spec fn method_symbol_name(m: MethodDecl) -> Seq<char> {
    recv_name(m) + "."@ + m.name.name@
}

/// One entry per name, all of one kind and span.
pub open spec fn names_entries(names: Seq<Ident>, pkg: Seq<char>, kind: KindV, span: Span, file: Seq<char>) -> Seq<EntryV>
    decreases names.len(),
{
    if names.len() == 0 {
        Seq::empty()
    } else {
        names_entries(names.drop_last(), pkg, kind, span, file).push(
            ((pkg, names.last().name@), kind, span, file, spec_is_exported(names.last().name@)),
        )
    }
}

/// The entries of `var` specifications.
pub open spec fn var_entries(specs: Seq<VarSpec>, pkg: Seq<char>, file: Seq<char>) -> Seq<EntryV>
    decreases specs.len(),
{
    if specs.len() == 0 {
        Seq::empty()
    } else {
        var_entries(specs.drop_last(), pkg, file) + names_entries(
            specs.last().names@,
            pkg,
            KindV::Var,
            specs.last().span,
            file,
        )
    }
}

/// The entries of `const` specifications.
pub open spec fn const_entries(specs: Seq<ConstSpec>, pkg: Seq<char>, file: Seq<char>) -> Seq<EntryV>
    decreases specs.len(),
{
    if specs.len() == 0 {
        Seq::empty()
    } else {
        const_entries(specs.drop_last(), pkg, file) + names_entries(
            specs.last().names@,
            pkg,
            KindV::Const,
            specs.last().span,
            file,
        )
    }
}

/// The entries of type specifications.
pub open spec fn type_entries(specs: Seq<TypeSpec>, pkg: Seq<char>, file: Seq<char>) -> Seq<EntryV>
    decreases specs.len(),
{
    if specs.len() == 0 {
        Seq::empty()
    } else {
        let t = specs.last();
        type_entries(specs.drop_last(), pkg, file).push(
            ((pkg, t.spec_name().name@), KindV::Type, t.spec_span(), file, spec_is_exported(t.spec_name().name@)),
        )
    }
}

/// The entries one top-level declaration registers.
pub open spec fn decl_entries(d: TopLevelDecl, pkg: Seq<char>, file: Seq<char>) -> Seq<EntryV> {
    match d {
        TopLevelDecl::Func(f) => seq![
            ((pkg, f.name.name@), KindV::Func, f.span, file, spec_is_exported(f.name.name@)),
        ],
        TopLevelDecl::Method(m) => seq![
            ((pkg, method_symbol_name(*m)), KindV::Method(recv_name(*m)), m.span, file, spec_is_exported(m.name.name@)),
        ],
        TopLevelDecl::Type(specs) => type_entries(specs@, pkg, file),
        TopLevelDecl::Var(specs) => var_entries(specs@, pkg, file),
        TopLevelDecl::Const(specs) => const_entries(specs@, pkg, file),
    }
}

/// The entries of a file's declarations, in order.
pub open spec fn decls_entries(ds: Seq<TopLevelDecl>, pkg: Seq<char>, file: Seq<char>) -> Seq<EntryV>
    decreases ds.len(),
{
    if ds.len() == 0 {
        Seq::empty()
    } else {
        decls_entries(ds.drop_last(), pkg, file) + decl_entries(ds.last(), pkg, file)
    }
}

/// Whether position `i` holds the first entry for symbol `s`.
pub open spec fn is_first_entry(t: Seq<EntryV>, s: SymV, i: int) -> bool {
    &&& 0 <= i < t.len()
    &&& t[i].0 == s
    &&& forall|j: int| 0 <= j < i ==> (#[trigger] t[j]).0 != s
}

/// The position of the first entry for symbol `s`.
pub open spec fn entry_index(t: Seq<EntryV>, s: SymV) -> Option<int> {
    if exists|i: int| is_first_entry(t, s, i) {
        Some(choose|i: int| is_first_entry(t, s, i))
    } else {
        None
    }
}

/// Registers an entry: it replaces the entry for its symbol, or comes last.
pub open spec fn put_entry(t: Seq<EntryV>, e: EntryV) -> Seq<EntryV> {
    match entry_index(t, e.0) {
        Some(i) => t.update(i, e),
        None => t.push(e),
    }
}

/// Registers several entries in order.
pub open spec fn put_all(t: Seq<EntryV>, es: Seq<EntryV>) -> Seq<EntryV>
    decreases es.len(),
{
    if es.len() == 0 {
        t
    } else {
        put_entry(put_all(t, es.drop_last()), es.last())
    }
}

/// Registering `a + b` is registering `a`, then `b`.
pub proof fn lemma_put_all_concat(t: Seq<EntryV>, a: Seq<EntryV>, b: Seq<EntryV>)
    ensures
        put_all(t, a + b) == put_all(put_all(t, a), b),
    decreases b.len(),
{
    if b.len() == 0 {
        assert(a + b =~= a);
    } else {
        lemma_put_all_concat(t, a, b.drop_last());
        assert((a + b).drop_last() =~= a + b.drop_last());
        assert((a + b).last() == b.last());
    }
}

/// The position of the first entry for `s`, if any.
fn find_entry(t: &Vec<SymbolEntry>, pkg: &str, name: &str) -> (r: Option<usize>)
    ensures
        match r {
            Some(i) => entry_index(entries_view(t@), (pkg@, name@)) == Some(i as int),
            None => entry_index(entries_view(t@), (pkg@, name@)) is None,
        },
{
    let ghost tv = entries_view(t@);
    let ghost s = (pkg@, name@);
    let mut i: usize = 0;
    while i < t.len()
        invariant
            i <= t@.len(),
            tv == entries_view(t@),
            s == (pkg@, name@),
            forall|j: int| 0 <= j < i ==> (#[trigger] tv[j]).0 != s,
        decreases t@.len() - i,
    {
        proof {
            assert(tv[i as int] == t@[i as int]@);
        }
        if str_eq(t[i].symbol.pkg_dir.as_str(), pkg) && str_eq(t[i].symbol.name.as_str(), name) {
            proof {
                assert(is_first_entry(tv, s, i as int));
                assert forall|i2: int| is_first_entry(tv, s, i2) implies i2 == i by {
                    if i2 < i {
                        assert(tv[i2].0 != s);
                    } else if i2 > i {
                        assert(tv[i as int].0 != s);
                    }
                }
            }
            return Some(i);
        }
        i = i + 1;
    }
    None
}

/// Registers an entry in the table.
fn put_entry_exec(t: &mut Vec<SymbolEntry>, e: SymbolEntry)
    ensures
        entries_view(final(t)@) == put_entry(entries_view(old(t)@), e@),
{
    let found = find_entry(t, e.symbol.pkg_dir.as_str(), e.symbol.name.as_str());
    match found {
        Some(i) => {
            t.remove(i);
            t.insert(i, e);
            proof {
                assert(entries_view(t@) =~= entries_view(old(t)@).update(i as int, e@));
            }
        },
        None => {
            t.push(e);
            proof {
                assert(entries_view(t@) =~= entries_view(old(t)@).push(e@));
            }
        },
    }
}

/// The receiver type name of a method (empty when it has none).
fn recv_name_exec(m: &MethodDecl) -> (r: String)
    ensures
        r@ == recv_name(*m),
{
    match receiver_type_name(&m.receiver.ty) {
        Some(n) => n.to_string(),
        None => String::new(),
    }
}

/// The symbol name of a method: `Type.Method`.
fn method_symbol_name_exec(m: &MethodDecl) -> (r: String)
    ensures
        r@ == method_symbol_name(*m),
{
    let mut r = recv_name_exec(m);
    r.append(".");
    r.append(m.name.name.as_str());
    r
}

/// Registers one entry per name.
fn register_names(
    names: &Vec<Ident>,
    pkg: &str,
    kind: &SymbolKind,
    span: Span,
    file: &str,
    t: &mut Vec<SymbolEntry>,
)
    requires
        !(kind@ is Method),
    ensures
        entries_view(final(t)@) == put_all(entries_view(old(t)@), names_entries(names@, pkg@, kind@, span, file@)),
{
    let ghost t0 = entries_view(t@);
    let mut i: usize = 0;
    while i < names.len()
        invariant
            i <= names@.len(),
            !(kind@ is Method),
            entries_view(t@) == put_all(t0, names_entries(names@.take(i as int), pkg@, kind@, span, file@)),
        decreases names@.len() - i,
    {
        proof {
            assert(names@.take(i + 1).drop_last() =~= names@.take(i as int));
            assert(names@.take(i + 1).last() == names@[i as int]);
        }
        let k = match kind {
            SymbolKind::Func => SymbolKind::Func,
            SymbolKind::Type => SymbolKind::Type,
            SymbolKind::Var => SymbolKind::Var,
            _ => SymbolKind::Const,
        };
        let e = SymbolEntry {
            symbol: Symbol { pkg_dir: pkg.to_string(), name: names[i].name.clone() },
            kind: k,
            span,
            file: file.to_string(),
            exported: names[i].is_exported(),
        };
        let ghost tb = entries_view(t@);
        put_entry_exec(t, e);
        proof {
            let ne = names_entries(names@.take(i as int), pkg@, kind@, span, file@);
            assert(k@ == kind@);
            assert(names_entries(names@.take(i + 1), pkg@, kind@, span, file@) == ne.push(e@));
            assert(ne.push(e@).drop_last() =~= ne);
        }
        i = i + 1;
    }
    proof {
        assert(names@.take(i as int) =~= names@);
    }
}

/// Registers the symbols a file declares.
fn register_symbols(sf: &SourceFile, pkg: &str, file: &str, t: &mut Vec<SymbolEntry>)
    ensures
        entries_view(final(t)@) == put_all(entries_view(old(t)@), decls_entries(sf.decls@, pkg@, file@)),
{
    let ghost t0 = entries_view(t@);
    let mut j: usize = 0;
    while j < sf.decls.len()
        invariant
            j <= sf.decls@.len(),
            entries_view(t@) == put_all(t0, decls_entries(sf.decls@.take(j as int), pkg@, file@)),
        decreases sf.decls@.len() - j,
    {
        let ghost before = entries_view(t@);
        proof {
            assert(sf.decls@.take(j + 1).drop_last() =~= sf.decls@.take(j as int));
            assert(sf.decls@.take(j + 1).last() == sf.decls@[j as int]);
            lemma_put_all_concat(
                t0,
                decls_entries(sf.decls@.take(j as int), pkg@, file@),
                decl_entries(sf.decls@[j as int], pkg@, file@),
            );
        }
        match &sf.decls[j] {
            TopLevelDecl::Func(f) => {
                let e = SymbolEntry {
                    symbol: Symbol { pkg_dir: pkg.to_string(), name: f.name.name.clone() },
                    kind: SymbolKind::Func,
                    span: f.span,
                    file: file.to_string(),
                    exported: f.name.is_exported(),
                };
                put_entry_exec(t, e);
                proof {
                    reveal_with_fuel(put_all, 2);
                    assert(seq![e@].drop_last() =~= Seq::<EntryV>::empty());
                }
            },
            TopLevelDecl::Method(m) => {
                let e = SymbolEntry {
                    symbol: Symbol { pkg_dir: pkg.to_string(), name: method_symbol_name_exec(m) },
                    kind: SymbolKind::Method { receiver_type: recv_name_exec(m) },
                    span: m.span,
                    file: file.to_string(),
                    exported: m.name.is_exported(),
                };
                put_entry_exec(t, e);
                proof {
                    reveal_with_fuel(put_all, 2);
                    assert(seq![e@].drop_last() =~= Seq::<EntryV>::empty());
                }
            },
            TopLevelDecl::Type(specs) => {
                let mut k: usize = 0;
                while k < specs.len()
                    invariant
                        k <= specs@.len(),
                        entries_view(t@) == put_all(before, type_entries(specs@.take(k as int), pkg@, file@)),
                    decreases specs@.len() - k,
                {
                    proof {
                        assert(specs@.take(k + 1).drop_last() =~= specs@.take(k as int));
                        assert(specs@.take(k + 1).last() == specs@[k as int]);
                    }
                    let e = SymbolEntry {
                        symbol: Symbol { pkg_dir: pkg.to_string(), name: specs[k].name().name.clone() },
                        kind: SymbolKind::Type,
                        span: specs[k].span(),
                        file: file.to_string(),
                        exported: specs[k].name().is_exported(),
                    };
                    put_entry_exec(t, e);
                    proof {
                        let te = type_entries(specs@.take(k as int), pkg@, file@);
                        assert(type_entries(specs@.take(k + 1), pkg@, file@) == te.push(e@));
                        assert(te.push(e@).drop_last() =~= te);
                    }
                    k = k + 1;
                }
                proof {
                    assert(specs@.take(k as int) =~= specs@);
                }
            },
            TopLevelDecl::Var(specs) => {
                let mut k: usize = 0;
                let kind = SymbolKind::Var;
                while k < specs.len()
                    invariant
                        k <= specs@.len(),
                        kind@ == KindV::Var,
                        entries_view(t@) == put_all(before, var_entries(specs@.take(k as int), pkg@, file@)),
                    decreases specs@.len() - k,
                {
                    proof {
                        assert(specs@.take(k + 1).drop_last() =~= specs@.take(k as int));
                        assert(specs@.take(k + 1).last() == specs@[k as int]);
                        lemma_put_all_concat(
                            before,
                            var_entries(specs@.take(k as int), pkg@, file@),
                            names_entries(specs@[k as int].names@, pkg@, KindV::Var, specs@[k as int].span, file@),
                        );
                    }
                    register_names(&specs[k].names, pkg, &kind, specs[k].span, file, t);
                    k = k + 1;
                }
                proof {
                    assert(specs@.take(k as int) =~= specs@);
                }
            },
            TopLevelDecl::Const(specs) => {
                let mut k: usize = 0;
                let kind = SymbolKind::Const;
                while k < specs.len()
                    invariant
                        k <= specs@.len(),
                        kind@ == KindV::Const,
                        entries_view(t@) == put_all(before, const_entries(specs@.take(k as int), pkg@, file@)),
                    decreases specs@.len() - k,
                {
                    proof {
                        assert(specs@.take(k + 1).drop_last() =~= specs@.take(k as int));
                        assert(specs@.take(k + 1).last() == specs@[k as int]);
                        lemma_put_all_concat(
                            before,
                            const_entries(specs@.take(k as int), pkg@, file@),
                            names_entries(specs@[k as int].names@, pkg@, KindV::Const, specs@[k as int].span, file@),
                        );
                    }
                    register_names(&specs[k].names, pkg, &kind, specs[k].span, file, t);
                    k = k + 1;
                }
                proof {
                    assert(specs@.take(k as int) =~= specs@);
                }
            },
        }
        j = j + 1;
    }
    proof {
        assert(sf.decls@.take(j as int) =~= sf.decls@);
    }
}


/// The environment of references made by `caller` in a file of package `pkg`.
pub open spec fn env_for(
    caller: SymV,
    pkg: Seq<char>,
    aliases: Map<Seq<char>, Seq<char>>,
    dirs: Seq<Option<Seq<char>>>,
) -> RefEnv {
    RefEnv { caller, pkg, aliases, dirs }
}

/// The references of type specifications, each made by its type's symbol.
pub open spec fn types_sig_refs(
    specs: Seq<TypeSpec>,
    pkg: Seq<char>,
    al: Map<Seq<char>, Seq<char>>,
    dirs: Seq<Option<Seq<char>>>,
) -> Seq<EdgeV>
    decreases specs.len(),
{
    if specs.len() == 0 {
        Seq::empty()
    } else {
        types_sig_refs(specs.drop_last(), pkg, al, dirs) + type_refs(
            specs.last().spec_ty(),
            env_for((pkg, specs.last().spec_name().name@), pkg, al, dirs),
        )
    }
}

/// The references of a declaration's signature or type.
pub open spec fn decl_sig_refs(
    d: TopLevelDecl,
    pkg: Seq<char>,
    al: Map<Seq<char>, Seq<char>>,
    dirs: Seq<Option<Seq<char>>>,
) -> Seq<EdgeV> {
    match d {
        TopLevelDecl::Func(f) => functype_refs(f.ty, env_for((pkg, f.name.name@), pkg, al, dirs)),
        TopLevelDecl::Method(m) => type_refs(
            m.receiver.ty,
            env_for((pkg, method_symbol_name(*m)), pkg, al, dirs),
        ) + functype_refs(m.ty, env_for((pkg, method_symbol_name(*m)), pkg, al, dirs)),
        TopLevelDecl::Type(specs) => types_sig_refs(specs@, pkg, al, dirs),
        _ => Seq::empty(),
    }
}

/// The references of the signatures and types of several declarations.
pub open spec fn decls_sig_refs(
    ds: Seq<TopLevelDecl>,
    pkg: Seq<char>,
    al: Map<Seq<char>, Seq<char>>,
    dirs: Seq<Option<Seq<char>>>,
) -> Seq<EdgeV>
    decreases ds.len(),
{
    if ds.len() == 0 {
        Seq::empty()
    } else {
        decls_sig_refs(ds.drop_last(), pkg, al, dirs) + decl_sig_refs(ds.last(), pkg, al, dirs)
    }
}

/// The references of a `var` specification's values and type, made by each
/// declared name.
pub open spec fn var_names_refs(
    names: Seq<Ident>,
    spec: VarSpec,
    pkg: Seq<char>,
    al: Map<Seq<char>, Seq<char>>,
    dirs: Seq<Option<Seq<char>>>,
) -> Seq<EdgeV>
    decreases names.len(),
{
    if names.len() == 0 {
        Seq::empty()
    } else {
        let env = env_for((pkg, names.last().name@), pkg, al, dirs);
        var_names_refs(names.drop_last(), spec, pkg, al, dirs) + exprs_refs(spec.values@, env) + match spec.ty {
            Some(t) => type_refs(t, env),
            None => Seq::empty(),
        }
    }
}

/// The references of `var` specifications.
pub open spec fn vars_refs(
    specs: Seq<VarSpec>,
    pkg: Seq<char>,
    al: Map<Seq<char>, Seq<char>>,
    dirs: Seq<Option<Seq<char>>>,
) -> Seq<EdgeV>
    decreases specs.len(),
{
    if specs.len() == 0 {
        Seq::empty()
    } else {
        vars_refs(specs.drop_last(), pkg, al, dirs) + var_names_refs(specs.last().names@, specs.last(), pkg, al, dirs)
    }
}

/// The references of a `const` specification's values, made by each declared name.
pub open spec fn const_names_refs(
    names: Seq<Ident>,
    spec: ConstSpec,
    pkg: Seq<char>,
    al: Map<Seq<char>, Seq<char>>,
    dirs: Seq<Option<Seq<char>>>,
) -> Seq<EdgeV>
    decreases names.len(),
{
    if names.len() == 0 {
        Seq::empty()
    } else {
        const_names_refs(names.drop_last(), spec, pkg, al, dirs) + exprs_refs(
            spec.values@,
            env_for((pkg, names.last().name@), pkg, al, dirs),
        )
    }
}

/// The references of `const` specifications.
pub open spec fn consts_refs(
    specs: Seq<ConstSpec>,
    pkg: Seq<char>,
    al: Map<Seq<char>, Seq<char>>,
    dirs: Seq<Option<Seq<char>>>,
) -> Seq<EdgeV>
    decreases specs.len(),
{
    if specs.len() == 0 {
        Seq::empty()
    } else {
        consts_refs(specs.drop_last(), pkg, al, dirs) + const_names_refs(
            specs.last().names@,
            specs.last(),
            pkg,
            al,
            dirs,
        )
    }
}

/// The references of a declaration's body or initial values.
pub open spec fn decl_body_refs(
    d: TopLevelDecl,
    pkg: Seq<char>,
    al: Map<Seq<char>, Seq<char>>,
    dirs: Seq<Option<Seq<char>>>,
) -> Seq<EdgeV> {
    match d {
        TopLevelDecl::Func(f) => match f.body {
            Some(b) => block_refs(b, env_for((pkg, f.name.name@), pkg, al, dirs)),
            None => Seq::empty(),
        },
        TopLevelDecl::Method(m) => match m.body {
            Some(b) => block_refs(b, env_for((pkg, method_symbol_name(*m)), pkg, al, dirs)),
            None => Seq::empty(),
        },
        TopLevelDecl::Var(specs) => vars_refs(specs@, pkg, al, dirs),
        TopLevelDecl::Const(specs) => consts_refs(specs@, pkg, al, dirs),
        _ => Seq::empty(),
    }
}

/// The references of the bodies and initial values of several declarations.
pub open spec fn decls_body_refs(
    ds: Seq<TopLevelDecl>,
    pkg: Seq<char>,
    al: Map<Seq<char>, Seq<char>>,
    dirs: Seq<Option<Seq<char>>>,
) -> Seq<EdgeV>
    decreases ds.len(),
{
    if ds.len() == 0 {
        Seq::empty()
    } else {
        decls_body_refs(ds.drop_last(), pkg, al, dirs) + decl_body_refs(ds.last(), pkg, al, dirs)
    }
}

/// The references of one file: signatures and types first, then bodies and values.
pub open spec fn file_edges(f: RepoFile, dirs: Seq<Option<Seq<char>>>) -> Seq<EdgeV> {
    let pkg = pkg_dir_of(f.path@);
    let al = alias_map_of(f.ast.imports@);
    decls_sig_refs(f.ast.decls@, pkg, al, dirs) + decls_body_refs(f.ast.decls@, pkg, al, dirs)
}

/// The references of several files, file by file.
pub open spec fn files_edges(fs: Seq<RepoFile>, dirs: Seq<Option<Seq<char>>>) -> Seq<EdgeV>
    decreases fs.len(),
{
    if fs.len() == 0 {
        Seq::empty()
    } else {
        files_edges(fs.drop_last(), dirs) + file_edges(fs.last(), dirs)
    }
}

/// The parent directory of every file of a repository.
pub open spec fn repo_dirs(fs: Seq<RepoFile>) -> Seq<Option<Seq<char>>> {
    fs.map_values(|f: RepoFile| parent_dir(f.path@))
}

/// The entries every file of a repository registers, file by file.
pub open spec fn repo_entries(fs: Seq<RepoFile>) -> Seq<EntryV>
    decreases fs.len(),
{
    if fs.len() == 0 {
        Seq::empty()
    } else {
        repo_entries(fs.drop_last()) + decls_entries(fs.last().ast.decls@, pkg_dir_of(fs.last().path@), fs.last().path@)
    }
}

/// Whether a name is a `*.Name` wildcard for a selected name.
pub open spec fn is_wild(n: Seq<char>) -> bool {
    n.len() >= 2 && n[0] == '*' && n[1] == '.'
}

/// The edges a wildcard edge stands for: to every symbol of the callee's
/// package named `T.Name` (a method) or `Name`, in table order.
pub open spec fn wild_for(e: EdgeV, t: Seq<EntryV>) -> Seq<EdgeV>
    decreases t.len(),
{
    if t.len() == 0 {
        Seq::empty()
    } else {
        let s = t.last().0;
        let m = e.1.1.skip(2);
        wild_for(e, t.drop_last()) + (if s.0 == e.1.0 && seq_ends_with(s.1, "."@ + m) {
            seq![(e.0, s)]
        } else {
            Seq::empty()
        }) + (if s.0 == e.1.0 && s.1 == m {
            seq![(e.0, s)]
        } else {
            Seq::empty()
        })
    }
}

/// The edges all wildcard edges stand for, in edge order.
pub open spec fn expansion(es: Seq<EdgeV>, t: Seq<EntryV>) -> Seq<EdgeV>
    decreases es.len(),
{
    if es.len() == 0 {
        Seq::empty()
    } else {
        expansion(es.drop_last(), t) + if is_wild(es.last().1.1) {
            wild_for(es.last(), t)
        } else {
            Seq::empty()
        }
    }
}

/// The symbol table of a repository: every registered entry, the last one
/// registered for a symbol in the place of the first.
pub open spec fn graph_table(fs: Seq<RepoFile>) -> Seq<EntryV> {
    put_all(Seq::empty(), repo_entries(fs))
}

/// The edges of a repository's call graph: the references of every file,
/// then the edges the wildcards stand for.
pub open spec fn graph_edges(fs: Seq<RepoFile>) -> Seq<EdgeV> {
    let base = files_edges(fs, repo_dirs(fs));
    base + expansion(base, graph_table(fs))
}

/// The call graph of a repository: its symbol table and the references
/// between symbols.
#[derive(Debug)]
pub struct CallGraph {
    pub symbols: Vec<SymbolEntry>,
    pub edges: Vec<CallEdge>,
}

/// The parent directory of a file path.
fn parent_dir_exec(p: &str) -> (r: Option<String>)
    ensures
        match r {
            Some(d) => parent_dir(p@) == Some(d@),
            None => parent_dir(p@) is None,
        },
{
    match before_last_of(p, '/') {
        Some(d) => {
            if d.as_str().is_empty() {
                Some("/".to_string())
            } else {
                Some(d)
            }
        },
        None => {
            if p.is_empty() {
                None
            } else {
                Some(String::new())
            }
        },
    }
}

/// The package directory of a file.
fn pkg_dir_exec(p: &str) -> (r: String)
    ensures
        r@ == pkg_dir_of(p@),
{
    match parent_dir_exec(p) {
        Some(d) => d,
        None => ".".to_string(),
    }
}

/// Records the references of a declaration's signature or type.
fn add_decl_sig_refs(
    d: &TopLevelDecl,
    pkg: &str,
    aliases: &AliasMap,
    dirs: &Vec<Option<String>>,
    edges: &mut Vec<CallEdge>,
)
    requires
        aliases.wf(),
    ensures
        call_edges_view(final(edges)@) == call_edges_view(old(edges)@) + decl_sig_refs(
            *d,
            pkg@,
            aliases@,
            dirs_view(dirs@),
        ),
{
    let ghost dv = dirs_view(dirs@);
    let ghost e0 = call_edges_view(edges@);
    match d {
        TopLevelDecl::Func(f) => {
            let caller = Symbol { pkg_dir: pkg.to_string(), name: f.name.name.clone() };
            let env = Env { caller: &caller, pkg, aliases, dirs };
            add_functype_refs(&f.ty, &env, edges);
        },
        TopLevelDecl::Method(m) => {
            let caller = Symbol { pkg_dir: pkg.to_string(), name: method_symbol_name_exec(m) };
            let env = Env { caller: &caller, pkg, aliases, dirs };
            add_type_refs(&m.receiver.ty, &env, edges);
            add_functype_refs(&m.ty, &env, edges);
            proof {
                assert(call_edges_view(edges@) =~= e0 + decl_sig_refs(*d, pkg@, aliases@, dv));
            }
        },
        TopLevelDecl::Type(specs) => {
            let mut k: usize = 0;
            while k < specs.len()
                invariant
                    k <= specs@.len(),
                    aliases.wf(),
                    dv == dirs_view(dirs@),
                    call_edges_view(edges@) == e0 + types_sig_refs(specs@.take(k as int), pkg@, aliases@, dv),
                decreases specs@.len() - k,
            {
                proof {
                    assert(specs@.take(k + 1).drop_last() =~= specs@.take(k as int));
                    assert(specs@.take(k + 1).last() == specs@[k as int]);
                }
                let caller = Symbol { pkg_dir: pkg.to_string(), name: specs[k].name().name.clone() };
                let env = Env { caller: &caller, pkg, aliases, dirs };
                add_type_refs(specs[k].ty(), &env, edges);
                proof {
                    assert(call_edges_view(edges@) =~= e0 + types_sig_refs(specs@.take(k + 1), pkg@, aliases@, dv));
                }
                k = k + 1;
            }
            proof {
                assert(specs@.take(k as int) =~= specs@);
            }
        },
        _ => {
            proof {
                assert(call_edges_view(edges@) =~= e0 + Seq::<EdgeV>::empty());
            }
        },
    }
}

/// Records the references of a `var` specification for each declared name.
fn add_var_refs(
    spec: &VarSpec,
    pkg: &str,
    aliases: &AliasMap,
    dirs: &Vec<Option<String>>,
    edges: &mut Vec<CallEdge>,
)
    requires
        aliases.wf(),
    ensures
        call_edges_view(final(edges)@) == call_edges_view(old(edges)@) + var_names_refs(
            spec.names@,
            *spec,
            pkg@,
            aliases@,
            dirs_view(dirs@),
        ),
{
    let ghost dv = dirs_view(dirs@);
    let ghost e0 = call_edges_view(edges@);
    let mut k: usize = 0;
    while k < spec.names.len()
        invariant
            k <= spec.names@.len(),
            aliases.wf(),
            dv == dirs_view(dirs@),
            call_edges_view(edges@) == e0 + var_names_refs(spec.names@.take(k as int), *spec, pkg@, aliases@, dv),
        decreases spec.names@.len() - k,
    {
        proof {
            assert(spec.names@.take(k + 1).drop_last() =~= spec.names@.take(k as int));
            assert(spec.names@.take(k + 1).last() == spec.names@[k as int]);
        }
        let caller = Symbol { pkg_dir: pkg.to_string(), name: spec.names[k].name.clone() };
        let env = Env { caller: &caller, pkg, aliases, dirs };
        add_exprs_refs(&spec.values, &env, edges);
        let ghost e1 = call_edges_view(edges@);
        match &spec.ty {
            Some(t) => add_type_refs(t, &env, edges),
            None => {
                proof {
                    assert(call_edges_view(edges@) =~= e1 + Seq::<EdgeV>::empty());
                }
            },
        }
        proof {
            assert(call_edges_view(edges@) =~= e0 + var_names_refs(spec.names@.take(k + 1), *spec, pkg@, aliases@, dv));
        }
        k = k + 1;
    }
    proof {
        assert(spec.names@.take(k as int) =~= spec.names@);
    }
}

/// Records the references of a `const` specification for each declared name.
fn add_const_refs(
    spec: &ConstSpec,
    pkg: &str,
    aliases: &AliasMap,
    dirs: &Vec<Option<String>>,
    edges: &mut Vec<CallEdge>,
)
    requires
        aliases.wf(),
    ensures
        call_edges_view(final(edges)@) == call_edges_view(old(edges)@) + const_names_refs(
            spec.names@,
            *spec,
            pkg@,
            aliases@,
            dirs_view(dirs@),
        ),
{
    let ghost dv = dirs_view(dirs@);
    let ghost e0 = call_edges_view(edges@);
    let mut k: usize = 0;
    while k < spec.names.len()
        invariant
            k <= spec.names@.len(),
            aliases.wf(),
            dv == dirs_view(dirs@),
            call_edges_view(edges@) == e0 + const_names_refs(spec.names@.take(k as int), *spec, pkg@, aliases@, dv),
        decreases spec.names@.len() - k,
    {
        proof {
            assert(spec.names@.take(k + 1).drop_last() =~= spec.names@.take(k as int));
            assert(spec.names@.take(k + 1).last() == spec.names@[k as int]);
        }
        let caller = Symbol { pkg_dir: pkg.to_string(), name: spec.names[k].name.clone() };
        let env = Env { caller: &caller, pkg, aliases, dirs };
        add_exprs_refs(&spec.values, &env, edges);
        proof {
            assert(call_edges_view(edges@) =~= e0 + const_names_refs(spec.names@.take(k + 1), *spec, pkg@, aliases@, dv));
        }
        k = k + 1;
    }
    proof {
        assert(spec.names@.take(k as int) =~= spec.names@);
    }
}

/// Records the references of a declaration's body or initial values.
fn add_decl_body_refs(
    d: &TopLevelDecl,
    pkg: &str,
    aliases: &AliasMap,
    dirs: &Vec<Option<String>>,
    edges: &mut Vec<CallEdge>,
)
    requires
        aliases.wf(),
    ensures
        call_edges_view(final(edges)@) == call_edges_view(old(edges)@) + decl_body_refs(
            *d,
            pkg@,
            aliases@,
            dirs_view(dirs@),
        ),
{
    let ghost dv = dirs_view(dirs@);
    let ghost e0 = call_edges_view(edges@);
    match d {
        TopLevelDecl::Func(f) => {
            match &f.body {
                Some(b) => {
                    let caller = Symbol { pkg_dir: pkg.to_string(), name: f.name.name.clone() };
                    let env = Env { caller: &caller, pkg, aliases, dirs };
                    add_block_refs(b, &env, edges);
                },
                None => {
                    proof {
                        assert(call_edges_view(edges@) =~= e0 + Seq::<EdgeV>::empty());
                    }
                },
            }
        },
        TopLevelDecl::Method(m) => {
            match &m.body {
                Some(b) => {
                    let caller = Symbol { pkg_dir: pkg.to_string(), name: method_symbol_name_exec(m) };
                    let env = Env { caller: &caller, pkg, aliases, dirs };
                    add_block_refs(b, &env, edges);
                },
                None => {
                    proof {
                        assert(call_edges_view(edges@) =~= e0 + Seq::<EdgeV>::empty());
                    }
                },
            }
        },
        TopLevelDecl::Var(specs) => {
            let mut k: usize = 0;
            while k < specs.len()
                invariant
                    k <= specs@.len(),
                    aliases.wf(),
                    dv == dirs_view(dirs@),
                    call_edges_view(edges@) == e0 + vars_refs(specs@.take(k as int), pkg@, aliases@, dv),
                decreases specs@.len() - k,
            {
                proof {
                    assert(specs@.take(k + 1).drop_last() =~= specs@.take(k as int));
                    assert(specs@.take(k + 1).last() == specs@[k as int]);
                }
                add_var_refs(&specs[k], pkg, aliases, dirs, edges);
                proof {
                    assert(call_edges_view(edges@) =~= e0 + vars_refs(specs@.take(k + 1), pkg@, aliases@, dv));
                }
                k = k + 1;
            }
            proof {
                assert(specs@.take(k as int) =~= specs@);
            }
        },
        TopLevelDecl::Const(specs) => {
            let mut k: usize = 0;
            while k < specs.len()
                invariant
                    k <= specs@.len(),
                    aliases.wf(),
                    dv == dirs_view(dirs@),
                    call_edges_view(edges@) == e0 + consts_refs(specs@.take(k as int), pkg@, aliases@, dv),
                decreases specs@.len() - k,
            {
                proof {
                    assert(specs@.take(k + 1).drop_last() =~= specs@.take(k as int));
                    assert(specs@.take(k + 1).last() == specs@[k as int]);
                }
                add_const_refs(&specs[k], pkg, aliases, dirs, edges);
                proof {
                    assert(call_edges_view(edges@) =~= e0 + consts_refs(specs@.take(k + 1), pkg@, aliases@, dv));
                }
                k = k + 1;
            }
            proof {
                assert(specs@.take(k as int) =~= specs@);
            }
        },
        _ => {
            proof {
                assert(call_edges_view(edges@) =~= e0 + Seq::<EdgeV>::empty());
            }
        },
    }
}

/// Records the references of one file.
fn add_file_edges(f: &RepoFile, dirs: &Vec<Option<String>>, edges: &mut Vec<CallEdge>)
    requires
        imports_ok(f.ast),
    ensures
        call_edges_view(final(edges)@) == call_edges_view(old(edges)@) + file_edges(*f, dirs_view(dirs@)),
{
    let ghost dv = dirs_view(dirs@);
    let ghost e0 = call_edges_view(edges@);
    let pkg = pkg_dir_exec(f.path.as_str());
    let aliases = build_alias_map(&f.ast);
    let ds = &f.ast.decls;
    let mut j: usize = 0;
    while j < ds.len()
        invariant
            j <= ds@.len(),
            aliases.wf(),
            aliases@ == alias_map_of(f.ast.imports@),
            pkg@ == pkg_dir_of(f.path@),
            dv == dirs_view(dirs@),
            *ds == f.ast.decls,
            call_edges_view(edges@) == e0 + decls_sig_refs(ds@.take(j as int), pkg@, aliases@, dv),
        decreases ds@.len() - j,
    {
        proof {
            assert(ds@.take(j + 1).drop_last() =~= ds@.take(j as int));
            assert(ds@.take(j + 1).last() == ds@[j as int]);
        }
        add_decl_sig_refs(&ds[j], pkg.as_str(), &aliases, dirs, edges);
        proof {
            assert(call_edges_view(edges@) =~= e0 + decls_sig_refs(ds@.take(j + 1), pkg@, aliases@, dv));
        }
        j = j + 1;
    }
    proof {
        assert(ds@.take(j as int) =~= ds@);
    }
    let ghost e1 = call_edges_view(edges@);
    let mut j: usize = 0;
    while j < ds.len()
        invariant
            j <= ds@.len(),
            aliases.wf(),
            dv == dirs_view(dirs@),
            call_edges_view(edges@) == e1 + decls_body_refs(ds@.take(j as int), pkg@, aliases@, dv),
        decreases ds@.len() - j,
    {
        proof {
            assert(ds@.take(j + 1).drop_last() =~= ds@.take(j as int));
            assert(ds@.take(j + 1).last() == ds@[j as int]);
        }
        add_decl_body_refs(&ds[j], pkg.as_str(), &aliases, dirs, edges);
        proof {
            assert(call_edges_view(edges@) =~= e1 + decls_body_refs(ds@.take(j + 1), pkg@, aliases@, dv));
        }
        j = j + 1;
    }
    proof {
        assert(ds@.take(j as int) =~= ds@);
        assert(call_edges_view(edges@) =~= e0 + file_edges(*f, dv));
    }
}


/// Records the edges a wildcard edge stands for.
fn add_wild_for(e: &CallEdge, m: &str, t: &Vec<SymbolEntry>, out: &mut Vec<CallEdge>)
    requires
        m@ == e.callee.name@.skip(2),
    ensures
        call_edges_view(final(out)@) == call_edges_view(old(out)@) + wild_for(e@, entries_view(t@)),
{
    let ghost tv = entries_view(t@);
    let ghost o0 = call_edges_view(out@);
    let mut dot_m = String::new();
    dot_m.append(".");
    dot_m.append(m);
    let mut k: usize = 0;
    while k < t.len()
        invariant
            k <= t@.len(),
            tv == entries_view(t@),
            m@ == e.callee.name@.skip(2),
            dot_m@ == "."@ + m@,
            call_edges_view(out@) == o0 + wild_for(e@, tv.take(k as int)),
        decreases t@.len() - k,
    {
        proof {
            assert(tv.take(k + 1).drop_last() =~= tv.take(k as int));
            assert(tv.take(k + 1).last() == t@[k as int]@);
        }
        let ghost before = call_edges_view(out@);
        let s = &t[k].symbol;
        let same_pkg = str_eq(s.pkg_dir.as_str(), e.callee.pkg_dir.as_str());
        if same_pkg && ends_with(s.name.as_str(), dot_m.as_str()) {
            out.push(CallEdge { caller: copy_symbol(&e.caller), callee: copy_symbol(s) });
        }
        let ghost mid = call_edges_view(out@);
        if same_pkg && str_eq(s.name.as_str(), m) {
            out.push(CallEdge { caller: copy_symbol(&e.caller), callee: copy_symbol(s) });
        }
        proof {
            let a = if s@.0 == e@.1.0 && seq_ends_with(s@.1, "."@ + m@) {
                seq![(e@.0, s@)]
            } else {
                Seq::<EdgeV>::empty()
            };
            let b = if s@.0 == e@.1.0 && s@.1 == m@ {
                seq![(e@.0, s@)]
            } else {
                Seq::<EdgeV>::empty()
            };
            assert(mid =~= before + a);
            assert(call_edges_view(out@) =~= mid + b);
            assert(call_edges_view(out@) =~= o0 + wild_for(e@, tv.take(k + 1)));
        }
        k = k + 1;
    }
    proof {
        assert(tv.take(k as int) =~= tv);
    }
}

/// Records the edges all wildcard edges stand for.
fn add_expansion(es: &Vec<CallEdge>, t: &Vec<SymbolEntry>, out: &mut Vec<CallEdge>)
    ensures
        call_edges_view(final(out)@) == call_edges_view(old(out)@) + expansion(
            call_edges_view(es@),
            entries_view(t@),
        ),
{
    let ghost ev = call_edges_view(es@);
    let ghost o0 = call_edges_view(out@);
    let mut i: usize = 0;
    while i < es.len()
        invariant
            i <= es@.len(),
            ev == call_edges_view(es@),
            call_edges_view(out@) == o0 + expansion(ev.take(i as int), entries_view(t@)),
        decreases es@.len() - i,
    {
        proof {
            assert(ev.take(i + 1).drop_last() =~= ev.take(i as int));
            assert(ev.take(i + 1).last() == es@[i as int]@);
        }
        let cs = chars_of(es[i].callee.name.as_str());
        if cs.len() >= 2 && cs[0] == '*' && cs[1] == '.' {
            let m = string_from_chars(&cs, 2, cs.len());
            proof {
                assert(cs@.subrange(2, cs@.len() as int) =~= es@[i as int].callee.name@.skip(2));
            }
            add_wild_for(&es[i], m.as_str(), t, out);
        } else {
            proof {
                assert(call_edges_view(out@) =~= call_edges_view(out@) + Seq::<EdgeV>::empty());
            }
        }
        proof {
            assert(call_edges_view(out@) =~= o0 + expansion(ev.take(i + 1), entries_view(t@)));
        }
        i = i + 1;
    }
    proof {
        assert(ev.take(i as int) =~= ev);
    }
}

impl CallGraph {
    /// Builds the call graph of a repository: the symbol table of every file,
    /// the references of signatures, types, bodies and initial values, and
    /// for each `x.Name` selector an edge to every method `T.Name` and
    /// function `Name` of the same package.
    pub fn build(repo: &Repo) -> (g: CallGraph)
        ensures
            entries_view(g.symbols@) == graph_table(repo.spec_files()),
            call_edges_view(g.edges@) == graph_edges(repo.spec_files()),
    {
        let files = repo.files();
        let ghost fs = files@;
        let mut dirs: Vec<Option<String>> = Vec::new();
        let mut i: usize = 0;
        while i < files.len()
            invariant
                i <= files@.len(),
                dirs_view(dirs@) == repo_dirs(files@.take(i as int)),
            decreases files@.len() - i,
        {
            let d = parent_dir_exec(files[i].path.as_str());
            let ghost before = dirs@;
            dirs.push(d);
            proof {
                assert(dirs_view(before) == repo_dirs(files@.take(i as int)));
                assert forall|j: int| 0 <= j < i + 1 implies dirs_view(dirs@)[j] == repo_dirs(files@.take(i + 1))[j] by {
                    if j < i {
                        assert(dirs_view(dirs@)[j] == dirs_view(before)[j]);
                        assert(repo_dirs(files@.take(i + 1))[j] == repo_dirs(files@.take(i as int))[j]);
                    } else {
                        assert(dirs@[j] == d);
                    }
                }
                assert(dirs_view(dirs@) =~= repo_dirs(files@.take(i + 1)));
            }
            i = i + 1;
        }
        proof {
            assert(files@.take(i as int) =~= files@);
        }
        let ghost dv = dirs_view(dirs@);
        let mut table: Vec<SymbolEntry> = Vec::new();
        let mut edges: Vec<CallEdge> = Vec::new();
        let mut i: usize = 0;
        while i < files.len()
            invariant
                i <= files@.len(),
                fs == files@,
                files_ok(fs),
                dv == dirs_view(dirs@),
                dv == repo_dirs(fs),
                entries_view(table@) == put_all(Seq::empty(), repo_entries(fs.take(i as int))),
                call_edges_view(edges@) == files_edges(fs.take(i as int), dv),
            decreases files@.len() - i,
        {
            proof {
                assert(fs.take(i + 1).drop_last() =~= fs.take(i as int));
                assert(fs.take(i + 1).last() == fs[i as int]);
                lemma_put_all_concat(
                    Seq::empty(),
                    repo_entries(fs.take(i as int)),
                    decls_entries(fs[i as int].ast.decls@, pkg_dir_of(fs[i as int].path@), fs[i as int].path@),
                );
                assert(imports_ok(fs[i as int].ast));
            }
            let f = &files[i];
            let pkg = pkg_dir_exec(f.path.as_str());
            register_symbols(&f.ast, pkg.as_str(), f.path.as_str(), &mut table);
            add_file_edges(f, &dirs, &mut edges);
            i = i + 1;
        }
        proof {
            assert(fs.take(i as int) =~= fs);
        }
        let mut extra: Vec<CallEdge> = Vec::new();
        add_expansion(&edges, &table, &mut extra);
        let ghost base = call_edges_view(edges@);
        proof {
            assert(call_edges_view(extra@) =~= Seq::<EdgeV>::empty() + expansion(base, entries_view(table@)));
        }
        edges.append(&mut extra);
        proof {
            assert(call_edges_view(edges@) =~= graph_edges(fs));
        }
        CallGraph { symbols: table, edges }
    }
}


/// The views of a list of symbols.
pub open spec fn syms_view(s: Seq<Symbol>) -> Seq<SymV> {
    s.map_values(|x: Symbol| x@)
}

/// The receiver type symbol of a method symbol, from the symbol table.
pub open spec fn method_type(t: Seq<EntryV>, s: SymV) -> Option<SymV> {
    match entry_index(t, s) {
        Some(i) => match t[i].1 {
            KindV::Method(r) => Some((s.0, r)),
            _ => None,
        },
        None => None,
    }
}

/// One step of reachability: an edge, or from a method to its receiver type.
pub open spec fn step(es: Seq<EdgeV>, t: Seq<EntryV>, a: SymV, b: SymV) -> bool {
    es.contains((a, b)) || method_type(t, a) == Some(b)
}

/// Whether a set of symbols is closed under steps.
pub open spec fn closed_under(s: Set<SymV>, es: Seq<EdgeV>, t: Seq<EntryV>) -> bool {
    forall|a: SymV, b: SymV| #![trigger s.contains(a), step(es, t, a, b)] s.contains(a) && step(es, t, a, b) ==> s.contains(b)
}

/// Whether every symbol of `vs` is an entry point or one step from an earlier one.
pub open spec fn derived(vs: Seq<SymV>, entries: Set<SymV>, es: Seq<EdgeV>, t: Seq<EntryV>) -> bool {
    forall|i: int|
        0 <= i < vs.len() ==> entries.contains(#[trigger] vs[i]) || exists|j: int|
            0 <= j < i && step(es, t, vs[j], vs[i])
}

/// The symbol a table entry leads to by a receiver step (its own symbol for
/// other kinds).
pub open spec fn entry_target(x: EntryV) -> SymV {
    match x.1 {
        KindV::Method(r) => (x.0.0, r),
        _ => x.0,
    }
}

/// Every derived symbol lies in every closed set holding the entry points.
pub proof fn lemma_derived_within(
    vs: Seq<SymV>,
    entries: Set<SymV>,
    es: Seq<EdgeV>,
    t: Seq<EntryV>,
    s: Set<SymV>,
    i: int,
)
    requires
        derived(vs, entries, es, t),
        entries.subset_of(s),
        closed_under(s, es, t),
        0 <= i < vs.len(),
    ensures
        s.contains(vs[i]),
    decreases i,
{
    if !entries.contains(vs[i]) {
        let j = choose|j: int| 0 <= j < i && step(es, t, vs[j], vs[i]);
        lemma_derived_within(vs, entries, es, t, s, j);
    }
}

/// A list without duplicates, all of whose elements lie in `u`, is no longer than `u`.
pub proof fn lemma_distinct_within<A>(v: Seq<A>, u: Seq<A>)
    requires
        v.no_duplicates(),
        forall|i: int| 0 <= i < v.len() ==> u.contains(#[trigger] v[i]),
    ensures
        v.len() <= u.len(),
{
    broadcast use vstd::seq_lib::seq_to_set_is_finite;
    v.unique_seq_to_set();
    u.lemma_cardinality_of_set();
    assert(v.to_set().subset_of(u.to_set())) by {
        assert forall|x: A| v.to_set().contains(x) implies u.to_set().contains(x) by {
            let i = choose|i: int| 0 <= i < v.len() && v[i] == x;
            assert(u.contains(v[i]));
        }
    }
    vstd::set_lib::lemma_len_subset(v.to_set(), u.to_set());
}

/// The position of a symbol in a list, if any.
pub(crate) fn sym_pos(vs: &Vec<Symbol>, s: &Symbol) -> (r: Option<usize>)
    ensures
        match r {
            Some(i) => i < vs@.len() && vs@[i as int]@ == s@,
            None => !syms_view(vs@).contains(s@),
        },
{
    let mut i: usize = 0;
    while i < vs.len()
        invariant
            i <= vs@.len(),
            forall|j: int| 0 <= j < i ==> (#[trigger] vs@[j])@ != s@,
        decreases vs@.len() - i,
    {
        if str_eq(vs[i].pkg_dir.as_str(), s.pkg_dir.as_str()) && str_eq(vs[i].name.as_str(), s.name.as_str()) {
            return Some(i);
        }
        i = i + 1;
    }
    proof {
        if syms_view(vs@).contains(s@) {
            let j = choose|j: int| 0 <= j < syms_view(vs@).len() && syms_view(vs@)[j] == s@;
            assert(vs@[j]@ == s@);
        }
    }
    None
}

/// Appending keeps every element and adds the new one.
proof fn lemma_push_contains(v: Seq<SymV>, x: SymV)
    ensures
        v.push(x).contains(x),
        forall|b: SymV| v.contains(b) ==> #[trigger] v.push(x).contains(b),
{
    assert(v.push(x)[v.len() as int] == x);
    assert forall|b: SymV| v.contains(b) implies #[trigger] v.push(x).contains(b) by {
        let j = choose|j: int| 0 <= j < v.len() && v[j] == b;
        assert(v.push(x)[j] == b);
    }
}

/// Appending a symbol that is an entry point, or one step from an element,
/// keeps a list derived.
proof fn lemma_push_derived(v0: Seq<SymV>, x: SymV, ents: Set<SymV>, es: Seq<EdgeV>, t: Seq<EntryV>, h: int)
    requires
        derived(v0, ents, es, t),
        ents.contains(x) || (0 <= h < v0.len() && step(es, t, v0[h], x)),
    ensures
        derived(v0.push(x), ents, es, t),
{
    let v = v0.push(x);
    assert forall|j: int| 0 <= j < v.len() implies ents.contains(#[trigger] v[j]) || exists|j2: int|
        0 <= j2 < j && step(es, t, v[j2], v[j]) by {
        if j < v0.len() {
            assert(v[j] == v0[j]);
            if !ents.contains(v0[j]) {
                let j2 = choose|j2: int| 0 <= j2 < j && step(es, t, v0[j2], v0[j]);
                assert(v[j2] == v0[j2]);
            }
        } else if !ents.contains(x) {
            assert(v[h] == v0[h]);
        }
    }
}

/// Adds `x` to the visited list unless it is there; either way it is there
/// afterwards, and the list only grows at its end.
fn visit(visited: &mut Vec<Symbol>, x: Symbol)
    ensures
        syms_view(final(visited)@).contains(x@),
        syms_view(old(visited)@).contains(x@) ==> final(visited)@ == old(visited)@,
        !syms_view(old(visited)@).contains(x@) ==> syms_view(final(visited)@) == syms_view(old(visited)@).push(x@),
{
    match sym_pos(visited, &x) {
        Some(p) => {
            proof {
                assert(syms_view(visited@)[p as int] == x@);
            }
        },
        None => {
            let ghost v0 = syms_view(visited@);
            let ghost xv = x@;
            visited.push(x);
            proof {
                assert(syms_view(visited@) =~= v0.push(xv));
                lemma_push_contains(v0, xv);
            }
        },
    }
}

/// What the search keeps true.
pub open spec fn search_ok(vs: Seq<SymV>, ents: Set<SymV>, es: Seq<EdgeV>, t: Seq<EntryV>, uni: Seq<SymV>) -> bool {
    &&& vs.no_duplicates()
    &&& derived(vs, ents, es, t)
    &&& forall|j: int| 0 <= j < vs.len() ==> uni.contains(#[trigger] vs[j])
}

/// Visiting keeps the search invariant when the new symbol is an entry point
/// or one step from a visited one, and lies in the universe.
proof fn lemma_visit_ok(
    v0: Seq<SymV>,
    v1: Seq<SymV>,
    x: SymV,
    ents: Set<SymV>,
    es: Seq<EdgeV>,
    t: Seq<EntryV>,
    uni: Seq<SymV>,
    h: int,
)
    requires
        search_ok(v0, ents, es, t, uni),
        uni.contains(x),
        ents.contains(x) || (0 <= h < v0.len() && step(es, t, v0[h], x)),
        v0.contains(x) ==> v1 == v0,
        !v0.contains(x) ==> v1 == v0.push(x),
    ensures
        search_ok(v1, ents, es, t, uni),
        v1.len() >= v0.len(),
        forall|j: int| 0 <= j < v0.len() ==> v1[j] == v0[j],
{
    if !v0.contains(x) {
        lemma_push_derived(v0, x, ents, es, t, h);
        assert forall|j: int| 0 <= j < v1.len() implies uni.contains(#[trigger] v1[j]) by {
            if j < v0.len() {
                assert(v1[j] == v0[j]);
            }
        }
        assert forall|a: int, b: int| 0 <= a < b < v1.len() implies v1[a] != v1[b] by {
            if b == v0.len() {
                assert(v1[a] == v0[a]);
            } else {
                assert(v1[a] == v0[a]);
                assert(v1[b] == v0[b]);
            }
        }
    }
}

/// A list closed under steps at each of its elements is a closed set.
proof fn lemma_list_closed(vv: Seq<SymV>, es: Seq<EdgeV>, t: Seq<EntryV>)
    requires
        forall|j: int, b: SymV| 0 <= j < vv.len() && #[trigger] step(es, t, vv[j], b) ==> vv.contains(b),
    ensures
        closed_under(vv.to_set(), es, t),
{
    assert forall|a: SymV, b: SymV| vv.to_set().contains(a) && step(es, t, a, b) implies vv.to_set().contains(b) by {
        let j = choose|j: int| 0 <= j < vv.len() && vv[j] == a;
        assert(step(es, t, vv[j], b));
    }
}

/// A derived list lies in every closed set that holds the entry points.
proof fn lemma_list_minimal(vv: Seq<SymV>, ents: Set<SymV>, es: Seq<EdgeV>, t: Seq<EntryV>)
    requires
        derived(vv, ents, es, t),
    ensures
        forall|s: Set<SymV>| ents.subset_of(s) && closed_under(s, es, t) ==> #[trigger] vv.to_set().subset_of(s),
{
    assert forall|s: Set<SymV>| ents.subset_of(s) && closed_under(s, es, t) implies #[trigger] vv.to_set().subset_of(s) by {
        assert forall|x: SymV| vv.to_set().contains(x) implies s.contains(x) by {
            let j = choose|j: int| 0 <= j < vv.len() && vv[j] == x;
            lemma_derived_within(vv, ents, es, t, s, j);
        }
    }
}

/// A derived list, closed under steps and holding the entry points, is the
/// reachable set, and lies in every closed set that holds the entry points.
proof fn lemma_search_result(vv: Seq<SymV>, entries: Seq<SymV>, es: Seq<EdgeV>, t: Seq<EntryV>)
    requires
        derived(vv, entries.to_set(), es, t),
        forall|j: int| 0 <= j < entries.len() ==> vv.contains(#[trigger] entries[j]),
        forall|j: int, b: SymV| 0 <= j < vv.len() && #[trigger] step(es, t, vv[j], b) ==> vv.contains(b),
    ensures
        closed_under(vv.to_set(), es, t),
        forall|s: Set<SymV>|
            entries.to_set().subset_of(s) && closed_under(s, es, t) ==> #[trigger] vv.to_set().subset_of(s),
        vv.to_set() == reach_set(entries.to_set(), es, t),
{
    let ents = entries.to_set();
    lemma_list_closed(vv, es, t);
    lemma_list_minimal(vv, ents, es, t);
    assert(ents.subset_of(vv.to_set())) by {
        assert forall|x: SymV| ents.contains(x) implies vv.to_set().contains(x) by {
            let j = choose|j: int| 0 <= j < entries.len() && entries[j] == x;
        }
    }
    let rs = reach_set(ents, es, t);
    assert forall|x: SymV| vv.to_set().contains(x) <==> rs.contains(x) by {
        if rs.contains(x) {
            assert(ents.subset_of(vv.to_set()) && closed_under(vv.to_set(), es, t) ==> vv.to_set().contains(x));
        }
        if vv.to_set().contains(x) {
            assert forall|s: Set<SymV>| ents.subset_of(s) && closed_under(s, es, t) implies #[trigger] s.contains(x) by {
                assert(vv.to_set().subset_of(s));
            }
        }
    }
    assert(vv.to_set() =~= rs);
}

/// After a visit, the list holds what it held and the visited symbol.
proof fn lemma_visit_set(v0: Seq<SymV>, v1: Seq<SymV>, x: SymV)
    requires
        v0.contains(x) ==> v1 == v0,
        !v0.contains(x) ==> v1 == v0.push(x),
    ensures
        forall|b: SymV| #[trigger] v1.contains(b) <==> (v0.contains(b) || b == x),
{
    if !v0.contains(x) {
        lemma_push_contains(v0, x);
        assert forall|b: SymV| #[trigger] v1.contains(b) implies (v0.contains(b) || b == x) by {
            let w = choose|w: int| 0 <= w < v1.len() && v1[w] == b;
            if w < v0.len() {
                assert(v0[w] == b);
            }
        }
    }
}

/// The distinct callees of `s` among the edges, in order of first appearance.
pub open spec fn callees_list(es: Seq<EdgeV>, s: SymV) -> Seq<SymV>
    decreases es.len(),
{
    if es.len() == 0 {
        Seq::empty()
    } else {
        let acc = callees_list(es.drop_last(), s);
        if es.last().0 == s && !acc.contains(es.last().1) {
            acc.push(es.last().1)
        } else {
            acc
        }
    }
}

/// The distinct callers of `s` among the edges, in order of first appearance.
pub open spec fn callers_list(es: Seq<EdgeV>, s: SymV) -> Seq<SymV>
    decreases es.len(),
{
    if es.len() == 0 {
        Seq::empty()
    } else {
        let acc = callers_list(es.drop_last(), s);
        if es.last().1 == s && !acc.contains(es.last().0) {
            acc.push(es.last().0)
        } else {
            acc
        }
    }
}

/// The symbols reachable from `ents`: those in every step-closed set that
/// holds the entry points.
pub open spec fn reach_set(ents: Set<SymV>, es: Seq<EdgeV>, t: Seq<EntryV>) -> Set<SymV> {
    Set::new(|x: SymV| forall|s: Set<SymV>| ents.subset_of(s) && closed_under(s, es, t) ==> #[trigger] s.contains(x))
}

impl CallGraph {
    /// Every symbol reachable from the entry points: through edges, and from
    /// each method to its receiver type. Each symbol appears once, in the
    /// order a breadth-first search meets it.
    pub fn reachable_from(&self, entries: &[Symbol]) -> (r: Vec<Symbol>)
        ensures
            syms_view(r@).no_duplicates(),
            forall|i: int| 0 <= i < entries@.len() ==> syms_view(r@).contains(#[trigger] entries@[i]@),
            closed_under(syms_view(r@).to_set(), call_edges_view(self.edges@), entries_view(self.symbols@)),
            forall|s: Set<SymV>|
                syms_view(entries@).to_set().subset_of(s) && closed_under(
                    s,
                    call_edges_view(self.edges@),
                    entries_view(self.symbols@),
                ) ==> #[trigger] syms_view(r@).to_set().subset_of(s),
            syms_view(r@).to_set() == reach_set(
                syms_view(entries@).to_set(),
                call_edges_view(self.edges@),
                entries_view(self.symbols@),
            ),
    {
        let ghost es = call_edges_view(self.edges@);
        let ghost t = entries_view(self.symbols@);
        let ghost ents = syms_view(entries@).to_set();
        let ghost uni: Seq<SymV> = syms_view(entries@) + es.map_values(|e: EdgeV| e.1) + t.map_values(
            |x: EntryV| entry_target(x),
        );
        let mut visited: Vec<Symbol> = Vec::new();
        let mut i: usize = 0;
        while i < entries.len()
            invariant
                i <= entries@.len(),
                ents == syms_view(entries@).to_set(),
                uni == syms_view(entries@) + es.map_values(|e: EdgeV| e.1) + t.map_values(|x: EntryV| entry_target(x)),
                search_ok(syms_view(visited@), ents, es, t, uni),
                forall|j: int| 0 <= j < i ==> syms_view(visited@).contains(#[trigger] entries@[j]@),
            decreases entries@.len() - i,
        {
            let ghost v0 = syms_view(visited@);
            let x = copy_symbol(&entries[i]);
            proof {
                assert(syms_view(entries@)[i as int] == x@);
                assert(ents.contains(x@));
                assert(uni[i as int] == x@);
                assert(uni.contains(x@));
            }
            visit(&mut visited, x);
            proof {
                lemma_visit_ok(v0, syms_view(visited@), entries@[i as int]@, ents, es, t, uni, 0);
                assert forall|j: int| 0 <= j < i + 1 implies syms_view(visited@).contains(#[trigger] entries@[j]@) by {
                    if j < i {
                        let w = choose|w: int| 0 <= w < v0.len() && v0[w] == entries@[j]@;
                        assert(syms_view(visited@)[w] == v0[w]);
                    }
                }
            }
            i = i + 1;
        }
        let mut head: usize = 0;
        while head < visited.len()
            invariant
                head <= visited@.len(),
                es == call_edges_view(self.edges@),
                t == entries_view(self.symbols@),
                ents == syms_view(entries@).to_set(),
                uni == syms_view(entries@) + es.map_values(|e: EdgeV| e.1) + t.map_values(|x: EntryV| entry_target(x)),
                search_ok(syms_view(visited@), ents, es, t, uni),
                forall|j: int| 0 <= j < entries@.len() ==> syms_view(visited@).contains(#[trigger] entries@[j]@),
                forall|j: int, b: SymV|
                    0 <= j < head && #[trigger] step(es, t, syms_view(visited@)[j], b) ==> syms_view(visited@).contains(b),
            decreases uni.len() - head,
        {
            proof {
                lemma_distinct_within(syms_view(visited@), uni);
            }
            let ghost vs0 = syms_view(visited@);
            let v = copy_symbol(&visited[head]);
            proof {
                assert(vs0[head as int] == v@);
            }
            let mut k: usize = 0;
            while k < self.edges.len()
                invariant
                    head < vs0.len(),
                    k <= self.edges@.len(),
                    es == call_edges_view(self.edges@),
                    t == entries_view(self.symbols@),
                    uni == syms_view(entries@) + es.map_values(|e: EdgeV| e.1) + t.map_values(|x: EntryV| entry_target(x)),
                    vs0[head as int] == v@,
                    search_ok(syms_view(visited@), ents, es, t, uni),
                    syms_view(visited@).len() >= vs0.len(),
                    forall|j: int| 0 <= j < vs0.len() ==> syms_view(visited@)[j] == vs0[j],
                    forall|k2: int| 0 <= k2 < k && (#[trigger] es[k2]).0 == v@ ==> syms_view(visited@).contains(es[k2].1),
                decreases self.edges@.len() - k,
            {
                proof {
                    assert(es[k as int] == self.edges@[k as int]@);
                }
                if str_eq(self.edges[k].caller.pkg_dir.as_str(), v.pkg_dir.as_str()) && str_eq(
                    self.edges[k].caller.name.as_str(),
                    v.name.as_str(),
                ) {
                    let ghost v0 = syms_view(visited@);
                    let x = copy_symbol(&self.edges[k].callee);
                    proof {
                        assert(es[k as int] == (v@, x@));
                        assert(v0[head as int] == v@);
                        assert(step(es, t, v0[head as int], x@));
                        assert(es.map_values(|e: EdgeV| e.1)[k as int] == x@);
                        assert(uni[entries@.len() + k] == x@);
                        assert(uni.contains(x@));
                    }
                    visit(&mut visited, x);
                    proof {
                        lemma_visit_ok(v0, syms_view(visited@), es[k as int].1, ents, es, t, uni, head as int);
                        assert forall|k2: int| 0 <= k2 < k + 1 && (#[trigger] es[k2]).0 == v@ implies syms_view(
                            visited@,
                        ).contains(es[k2].1) by {
                            if k2 < k {
                                let w = choose|w: int| 0 <= w < v0.len() && v0[w] == es[k2].1;
                                assert(syms_view(visited@)[w] == v0[w]);
                            }
                        }
                    }
                }
                k = k + 1;
            }
            let ghost v1 = syms_view(visited@);
            match find_entry(&self.symbols, v.pkg_dir.as_str(), v.name.as_str()) {
                Some(ix) => {
                    proof {
                        assert(t[ix as int] == self.symbols@[ix as int]@);
                    }
                    match &self.symbols[ix].kind {
                        SymbolKind::Method { receiver_type } => {
                            let target = Symbol { pkg_dir: v.pkg_dir.clone(), name: receiver_type.clone() };
                            proof {
                                assert(method_type(t, v@) == Some(target@));
                                assert(t.map_values(|x: EntryV| entry_target(x))[ix as int] == target@);
                                assert(uni[entries@.len() + es.len() + ix] == target@);
                                assert(uni.contains(target@));
                                assert(v1[head as int] == v@);
                            }
                            let ghost tv = target@;
                            visit(&mut visited, target);
                            proof {
                                lemma_visit_ok(v1, syms_view(visited@), tv, ents, es, t, uni, head as int);
                            }
                        },
                        _ => {
                            proof {
                                assert(method_type(t, v@) is None);
                            }
                        },
                    }
                },
                None => {},
            }
            proof {
                let vv = syms_view(visited@);
                assert(vv.len() >= v1.len());
                assert forall|j: int| 0 <= j < v1.len() implies vv[j] == v1[j] by {}
                assert forall|j: int, b: SymV| 0 <= j < head + 1 && #[trigger] step(es, t, vv[j], b) implies vv.contains(b) by {
                    assert(vv[j] == vs0[j]);
                    if j < head {
                        assert(step(es, t, vs0[j], b));
                        let w = choose|w: int| 0 <= w < vs0.len() && vs0[w] == b;
                        assert(vv[w] == vs0[w]);
                    } else {
                        assert(vv[j] == v@);
                        if es.contains((v@, b)) {
                            let k2 = choose|k2: int| 0 <= k2 < es.len() && es[k2] == (v@, b);
                            assert(es[k2].0 == v@);
                            let w = choose|w: int| 0 <= w < v1.len() && v1[w] == es[k2].1;
                            assert(vv[w] == v1[w]);
                        }
                    }
                }
                assert forall|j: int| 0 <= j < entries@.len() implies vv.contains(#[trigger] entries@[j]@) by {
                    let w = choose|w: int| 0 <= w < vs0.len() && vs0[w] == entries@[j]@;
                    assert(vv[w] == vs0[w]);
                }
            }
            head = head + 1;
        }
        proof {
            lemma_search_result(syms_view(visited@), syms_view(entries@), es, t);
        }
        visited
    }

    /// The entries of the symbol table that are not reachable from the entry
    /// points, in table order.
    pub fn unreachable_from(&self, entries: &[Symbol]) -> (r: Vec<&SymbolEntry>)
        ensures
            r@.map_values(|e: &SymbolEntry| e@) == dead_entries(
                entries_view(self.symbols@),
                reach_set(syms_view(entries@).to_set(), call_edges_view(self.edges@), entries_view(self.symbols@)),
            ),
    {
        let reach = self.reachable_from(entries);
        let ghost rs = reach_set(syms_view(entries@).to_set(), call_edges_view(self.edges@), entries_view(self.symbols@));
        let ghost f = |x: EntryV| if rs.contains(x.0) {
            None
        } else {
            Some(x)
        };
        let ghost tv = entries_view(self.symbols@);
        let mut out: Vec<&SymbolEntry> = Vec::new();
        let mut i: usize = 0;
        while i < self.symbols.len()
            invariant
                i <= self.symbols@.len(),
                tv == entries_view(self.symbols@),
                syms_view(reach@).to_set() == rs,
                f == (|x: EntryV| if rs.contains(x.0) {
                    None
                } else {
                    Some(x)
                }),
                out@.map_values(|e: &SymbolEntry| e@) == tv.take(i as int).filter_map(f),
            decreases self.symbols@.len() - i,
        {
            let ghost before = out@;
            proof {
                assert(tv.take(i + 1).drop_last() =~= tv.take(i as int));
                assert(tv.take(i + 1).last() == self.symbols@[i as int]@);
            }
            match sym_pos(&reach, &self.symbols[i].symbol) {
                Some(p) => {
                    proof {
                        assert(syms_view(reach@)[p as int] == self.symbols@[i as int].symbol@);
                        assert(syms_view(reach@).to_set().contains(self.symbols@[i as int].symbol@));
                    }
                },
                None => {
                    out.push(&self.symbols[i]);
                    proof {
                        assert(!syms_view(reach@).to_set().contains(self.symbols@[i as int].symbol@));
                        assert(out@.map_values(|e: &SymbolEntry| e@) =~= before.map_values(|e: &SymbolEntry| e@).push(
                            self.symbols@[i as int]@,
                        ));
                    }
                },
            }
            i = i + 1;
        }
        proof {
            assert(tv.take(i as int) =~= tv);
        }
        out
    }

    /// The distinct callees of a symbol, in edge order.
    pub fn callees_of(&self, sym: &Symbol) -> (r: Vec<Symbol>)
        ensures
            syms_view(r@) == callees_list(call_edges_view(self.edges@), sym@),
            syms_view(r@).no_duplicates(),
            syms_view(r@).to_set() == Set::new(|b: SymV| call_edges_view(self.edges@).contains((sym@, b))),
    {
        let ghost es = call_edges_view(self.edges@);
        let mut out: Vec<Symbol> = Vec::new();
        let mut k: usize = 0;
        while k < self.edges.len()
            invariant
                k <= self.edges@.len(),
                es == call_edges_view(self.edges@),
                syms_view(out@) == callees_list(es.take(k as int), sym@),
                syms_view(out@).no_duplicates(),
                forall|b: SymV| #[trigger] syms_view(out@).contains(b) <==> exists|k2: int| 0 <= k2 < k && es[k2] == (sym@, b),
            decreases self.edges@.len() - k,
        {
            proof {
                assert(es[k as int] == self.edges@[k as int]@);
                assert(es.take(k + 1).drop_last() =~= es.take(k as int));
                assert(es.take(k + 1).last() == es[k as int]);
            }
            if str_eq(self.edges[k].caller.pkg_dir.as_str(), sym.pkg_dir.as_str()) && str_eq(
                self.edges[k].caller.name.as_str(),
                sym.name.as_str(),
            ) {
                let ghost v0 = syms_view(out@);
                let x = copy_symbol(&self.edges[k].callee);
                let ghost xv = x@;
                visit(&mut out, x);
                proof {
                    lemma_visit_set(v0, syms_view(out@), xv);
                    if !v0.contains(xv) {
                        assert forall|a: int, b: int| 0 <= a < b < syms_view(out@).len() implies syms_view(out@)[a]
                            != syms_view(out@)[b] by {
                            if b == v0.len() {
                                assert(syms_view(out@)[a] == v0[a]);
                            } else {
                                assert(syms_view(out@)[a] == v0[a]);
                                assert(syms_view(out@)[b] == v0[b]);
                            }
                        }
                    }
                    assert(es[k as int] == (sym@, xv));
                    assert forall|b: SymV| #[trigger] syms_view(out@).contains(b) <==> exists|k2: int|
                        0 <= k2 < k + 1 && es[k2] == (sym@, b) by {
                        assert(v0.contains(b) <==> exists|k2: int| 0 <= k2 < k && es[k2] == (sym@, b));
                        if exists|k2: int| 0 <= k2 < k + 1 && es[k2] == (sym@, b) {
                            let k2 = choose|k2: int| 0 <= k2 < k + 1 && es[k2] == (sym@, b);
                            if k2 == k {
                                assert(b == xv);
                            }
                        }
                    }
                }
            }
            k = k + 1;
        }
        proof {
            assert(es.take(k as int) =~= es);
            assert(syms_view(out@).to_set() =~= Set::new(|b: SymV| es.contains((sym@, b))));
        }
        out
    }

    /// The distinct callers of a symbol, in edge order.
    pub fn callers_of(&self, sym: &Symbol) -> (r: Vec<Symbol>)
        ensures
            syms_view(r@) == callers_list(call_edges_view(self.edges@), sym@),
            syms_view(r@).no_duplicates(),
            syms_view(r@).to_set() == Set::new(|b: SymV| call_edges_view(self.edges@).contains((b, sym@))),
    {
        let ghost es = call_edges_view(self.edges@);
        let mut out: Vec<Symbol> = Vec::new();
        let mut k: usize = 0;
        while k < self.edges.len()
            invariant
                k <= self.edges@.len(),
                es == call_edges_view(self.edges@),
                syms_view(out@) == callers_list(es.take(k as int), sym@),
                syms_view(out@).no_duplicates(),
                forall|b: SymV| #[trigger] syms_view(out@).contains(b) <==> exists|k2: int| 0 <= k2 < k && es[k2] == (b, sym@),
            decreases self.edges@.len() - k,
        {
            proof {
                assert(es[k as int] == self.edges@[k as int]@);
                assert(es.take(k + 1).drop_last() =~= es.take(k as int));
                assert(es.take(k + 1).last() == es[k as int]);
            }
            if str_eq(self.edges[k].callee.pkg_dir.as_str(), sym.pkg_dir.as_str()) && str_eq(
                self.edges[k].callee.name.as_str(),
                sym.name.as_str(),
            ) {
                let ghost v0 = syms_view(out@);
                let x = copy_symbol(&self.edges[k].caller);
                let ghost xv = x@;
                visit(&mut out, x);
                proof {
                    lemma_visit_set(v0, syms_view(out@), xv);
                    if !v0.contains(xv) {
                        assert forall|a: int, b: int| 0 <= a < b < syms_view(out@).len() implies syms_view(out@)[a]
                            != syms_view(out@)[b] by {
                            if b == v0.len() {
                                assert(syms_view(out@)[a] == v0[a]);
                            } else {
                                assert(syms_view(out@)[a] == v0[a]);
                                assert(syms_view(out@)[b] == v0[b]);
                            }
                        }
                    }
                    assert(es[k as int] == (xv, sym@));
                    assert forall|b: SymV| #[trigger] syms_view(out@).contains(b) <==> exists|k2: int|
                        0 <= k2 < k + 1 && es[k2] == (b, sym@) by {
                        assert(v0.contains(b) <==> exists|k2: int| 0 <= k2 < k && es[k2] == (b, sym@));
                        if exists|k2: int| 0 <= k2 < k + 1 && es[k2] == (b, sym@) {
                            let k2 = choose|k2: int| 0 <= k2 < k + 1 && es[k2] == (b, sym@);
                            if k2 == k {
                                assert(b == xv);
                            }
                        }
                    }
                }
            }
            k = k + 1;
        }
        proof {
            assert(es.take(k as int) =~= es);
            assert(syms_view(out@).to_set() =~= Set::new(|b: SymV| es.contains((b, sym@))));
        }
        out
    }

    /// The table entry of a symbol, if any.
    pub fn entry_of(&self, sym: &Symbol) -> (r: Option<&SymbolEntry>)
        ensures
            match r {
                Some(e) => entry_index(entries_view(self.symbols@), sym@) matches Some(i) && e@ == entries_view(
                    self.symbols@,
                )[i],
                None => entry_index(entries_view(self.symbols@), sym@) is None,
            },
    {
        match find_entry(&self.symbols, sym.pkg_dir.as_str(), sym.name.as_str()) {
            Some(i) => Some(&self.symbols[i]),
            None => None,
        }
    }
}


/// Every entry of a list has a start row that can be turned into a line number.
pub open spec fn entry_rows_ok(es: Seq<EntryV>) -> bool {
    forall|k: int| 0 <= k < es.len() ==> (#[trigger] es[k]).2.start_row < usize::MAX
}

proof fn lemma_names_entries_rows(names: Seq<Ident>, pkg: Seq<char>, kind: KindV, span: Span, file: Seq<char>)
    requires
        span.start_row < usize::MAX,
    ensures
        entry_rows_ok(names_entries(names, pkg, kind, span, file)),
    decreases names.len(),
{
    if names.len() > 0 {
        lemma_names_entries_rows(names.drop_last(), pkg, kind, span, file);
    }
}

proof fn lemma_concat_rows(a: Seq<EntryV>, b: Seq<EntryV>)
    requires
        entry_rows_ok(a),
        entry_rows_ok(b),
    ensures
        entry_rows_ok(a + b),
{
    assert forall|k: int| 0 <= k < (a + b).len() implies (#[trigger] (a + b)[k]).2.start_row < usize::MAX by {
        if k < a.len() {
            assert((a + b)[k] == a[k]);
        } else {
            assert((a + b)[k] == b[k - a.len()]);
        }
    }
}

proof fn lemma_decl_entries_rows(d: TopLevelDecl, pkg: Seq<char>, file: Seq<char>)
    requires
        decl_rows_ok(d),
    ensures
        entry_rows_ok(decl_entries(d, pkg, file)),
{
    match d {
        TopLevelDecl::Type(specs) => lemma_type_entries_rows(specs@, pkg, file),
        TopLevelDecl::Var(specs) => lemma_var_entries_rows(specs@, pkg, file),
        TopLevelDecl::Const(specs) => lemma_const_entries_rows(specs@, pkg, file),
        _ => {},
    }
}

proof fn lemma_type_entries_rows(specs: Seq<TypeSpec>, pkg: Seq<char>, file: Seq<char>)
    requires
        forall|k: int| 0 <= k < specs.len() ==> row_ok(#[trigger] specs[k].spec_span()),
    ensures
        entry_rows_ok(type_entries(specs, pkg, file)),
    decreases specs.len(),
{
    if specs.len() > 0 {
        let d = specs.drop_last();
        assert forall|k: int| 0 <= k < d.len() implies row_ok(#[trigger] d[k].spec_span()) by {
            assert(d[k] == specs[k]);
        }
        lemma_type_entries_rows(d, pkg, file);
        assert(row_ok(specs[specs.len() - 1].spec_span()));
    }
}

proof fn lemma_var_entries_rows(specs: Seq<VarSpec>, pkg: Seq<char>, file: Seq<char>)
    requires
        forall|k: int| 0 <= k < specs.len() ==> row_ok(#[trigger] specs[k].span),
    ensures
        entry_rows_ok(var_entries(specs, pkg, file)),
    decreases specs.len(),
{
    if specs.len() > 0 {
        let d = specs.drop_last();
        assert forall|k: int| 0 <= k < d.len() implies row_ok(#[trigger] d[k].span) by {
            assert(d[k] == specs[k]);
        }
        lemma_var_entries_rows(d, pkg, file);
        assert(row_ok(specs[specs.len() - 1].span));
        lemma_names_entries_rows(specs.last().names@, pkg, KindV::Var, specs.last().span, file);
        lemma_concat_rows(var_entries(d, pkg, file), names_entries(specs.last().names@, pkg, KindV::Var, specs.last().span, file));
    }
}

proof fn lemma_const_entries_rows(specs: Seq<ConstSpec>, pkg: Seq<char>, file: Seq<char>)
    requires
        forall|k: int| 0 <= k < specs.len() ==> row_ok(#[trigger] specs[k].span),
    ensures
        entry_rows_ok(const_entries(specs, pkg, file)),
    decreases specs.len(),
{
    if specs.len() > 0 {
        let d = specs.drop_last();
        assert forall|k: int| 0 <= k < d.len() implies row_ok(#[trigger] d[k].span) by {
            assert(d[k] == specs[k]);
        }
        lemma_const_entries_rows(d, pkg, file);
        assert(row_ok(specs[specs.len() - 1].span));
        lemma_names_entries_rows(specs.last().names@, pkg, KindV::Const, specs.last().span, file);
        lemma_concat_rows(const_entries(d, pkg, file), names_entries(specs.last().names@, pkg, KindV::Const, specs.last().span, file));
    }
}

proof fn lemma_decls_entries_rows(ds: Seq<TopLevelDecl>, pkg: Seq<char>, file: Seq<char>)
    requires
        forall|i: int| 0 <= i < ds.len() ==> decl_rows_ok(#[trigger] ds[i]),
    ensures
        entry_rows_ok(decls_entries(ds, pkg, file)),
    decreases ds.len(),
{
    if ds.len() > 0 {
        let d = ds.drop_last();
        assert forall|i: int| 0 <= i < d.len() implies decl_rows_ok(#[trigger] d[i]) by {
            assert(d[i] == ds[i]);
        }
        lemma_decls_entries_rows(d, pkg, file);
        assert(decl_rows_ok(ds[ds.len() - 1]));
        lemma_decl_entries_rows(ds.last(), pkg, file);
        lemma_concat_rows(decls_entries(d, pkg, file), decl_entries(ds.last(), pkg, file));
    }
}

proof fn lemma_repo_entries_rows(fs: Seq<RepoFile>)
    requires
        forall|i: int| 0 <= i < fs.len() ==> spans_fit(#[trigger] fs[i].ast),
    ensures
        entry_rows_ok(repo_entries(fs)),
    decreases fs.len(),
{
    if fs.len() > 0 {
        let d = fs.drop_last();
        assert forall|i: int| 0 <= i < d.len() implies spans_fit(#[trigger] d[i].ast) by {
            assert(d[i] == fs[i]);
        }
        lemma_repo_entries_rows(d);
        assert(spans_fit(fs[fs.len() - 1].ast));
        lemma_decls_entries_rows(fs.last().ast.decls@, pkg_dir_of(fs.last().path@), fs.last().path@);
        lemma_concat_rows(repo_entries(d), decls_entries(fs.last().ast.decls@, pkg_dir_of(fs.last().path@), fs.last().path@));
    }
}

proof fn lemma_put_all_rows(t: Seq<EntryV>, es: Seq<EntryV>)
    requires
        entry_rows_ok(t),
        entry_rows_ok(es),
    ensures
        entry_rows_ok(put_all(t, es)),
    decreases es.len(),
{
    if es.len() > 0 {
        assert(entry_rows_ok(es.drop_last())) by {
            assert forall|k: int| 0 <= k < es.drop_last().len() implies (#[trigger] es.drop_last()[k]).2.start_row < usize::MAX by {
                assert(es.drop_last()[k] == es[k]);
            }
        }
        lemma_put_all_rows(t, es.drop_last());
        let p = put_all(t, es.drop_last());
        let e = es.last();
        assert(e.2.start_row < usize::MAX);
        match entry_index(p, e.0) {
            Some(i) => {
                assert forall|k: int| 0 <= k < p.update(i, e).len() implies (#[trigger] p.update(i, e)[k]).2.start_row < usize::MAX by {
                    if k != i {
                        assert(p.update(i, e)[k] == p[k]);
                    }
                }
            },
            None => {
                assert forall|k: int| 0 <= k < p.push(e).len() implies (#[trigger] p.push(e)[k]).2.start_row < usize::MAX by {
                    if k < p.len() {
                        assert(p.push(e)[k] == p[k]);
                    }
                }
            },
        }
    }
}

/// Every entry of a repository's symbol table has a start row that can be
/// turned into a line number.
pub proof fn lemma_graph_table_rows(fs: Seq<RepoFile>)
    requires
        files_ok(fs),
    ensures
        entry_rows_ok(graph_table(fs)),
{
    lemma_repo_entries_rows(fs);
    lemma_put_all_rows(Seq::empty(), repo_entries(fs));
}

/// The callees listed for `a` are exactly the targets of its edges.
proof fn lemma_callees_list_contains(es: Seq<EdgeV>, a: SymV, b: SymV)
    ensures
        callees_list(es, a).contains(b) <==> es.contains((a, b)),
    decreases es.len(),
{
    if es.len() > 0 {
        let d = es.drop_last();
        lemma_callees_list_contains(d, a, b);
        assert(es =~= d.push(es.last()));
        if es.contains((a, b)) && !d.contains((a, b)) {
            let k = choose|k: int| 0 <= k < es.len() && es[k] == (a, b);
            if k < d.len() {
                assert(d[k] == (a, b));
            }
            assert(es.last() == (a, b));
        }
        if d.contains((a, b)) {
            let k = choose|k: int| 0 <= k < d.len() && d[k] == (a, b);
            assert(es[k] == (a, b));
        }
        let acc = callees_list(d, a);
        if es.last().0 == a && !acc.contains(es.last().1) {
            assert(acc.push(es.last().1)[acc.len() as int] == es.last().1);
            if acc.contains(b) {
                let k = choose|k: int| 0 <= k < acc.len() && acc[k] == b;
                assert(acc.push(es.last().1)[k] == b);
            }
            if acc.push(es.last().1).contains(b) && b != es.last().1 {
                let k = choose|k: int| 0 <= k < acc.len() + 1 && acc.push(es.last().1)[k] == b;
                assert(acc[k] == b);
            }
            assert(es[es.len() - 1] == es.last());
        } else if es.last() == (a, b) {
            assert(es[es.len() - 1] == es.last());
        }
    }
}

/// The callers listed for `b` are exactly the sources of its edges.
proof fn lemma_callers_list_contains(es: Seq<EdgeV>, a: SymV, b: SymV)
    ensures
        callers_list(es, b).contains(a) <==> es.contains((a, b)),
    decreases es.len(),
{
    if es.len() > 0 {
        let d = es.drop_last();
        lemma_callers_list_contains(d, a, b);
        if es.contains((a, b)) && !d.contains((a, b)) {
            let k = choose|k: int| 0 <= k < es.len() && es[k] == (a, b);
            if k < d.len() {
                assert(d[k] == (a, b));
            }
            assert(es.last() == (a, b));
        }
        if d.contains((a, b)) {
            let k = choose|k: int| 0 <= k < d.len() && d[k] == (a, b);
            assert(es[k] == (a, b));
        }
        let acc = callers_list(d, b);
        if es.last().1 == b && !acc.contains(es.last().0) {
            assert(acc.push(es.last().0)[acc.len() as int] == es.last().0);
            if acc.contains(a) {
                let k = choose|k: int| 0 <= k < acc.len() && acc[k] == a;
                assert(acc.push(es.last().0)[k] == a);
            }
            if acc.push(es.last().0).contains(a) && a != es.last().0 {
                let k = choose|k: int| 0 <= k < acc.len() + 1 && acc.push(es.last().0)[k] == a;
                assert(acc[k] == a);
            }
            assert(es[es.len() - 1] == es.last());
        } else if es.last() == (a, b) {
            assert(es[es.len() - 1] == es.last());
        }
    }
}

/// In a call graph, `b` is among the callees of `a` exactly when `a` is
/// among the callers of `b`.
pub proof fn law_callers_mirror_callees(g: CallGraph, a: SymV, b: SymV)
    ensures
        callees_list(call_edges_view(g.edges@), a).contains(b) <==> callers_list(call_edges_view(g.edges@), b).contains(
            a,
        ),
{
    lemma_callees_list_contains(call_edges_view(g.edges@), a, b);
    lemma_callers_list_contains(call_edges_view(g.edges@), a, b);
}

/// More entry points reach at least as much: reachability only grows with
/// the set of entries.
pub proof fn law_reach_grows_with_entries(small: Set<SymV>, large: Set<SymV>, es: Seq<EdgeV>, t: Seq<EntryV>)
    requires
        small.subset_of(large),
    ensures
        reach_set(small, es, t).subset_of(reach_set(large, es, t)),
{
    assert forall|x: SymV| reach_set(small, es, t).contains(x) implies reach_set(large, es, t).contains(x) by {
        assert forall|s: Set<SymV>| large.subset_of(s) && closed_under(s, es, t) implies #[trigger] s.contains(x) by {
            assert(small.subset_of(s));
        }
    }
}

/// The entry points themselves are always reachable.
pub proof fn law_reach_entries(ents: Set<SymV>, es: Seq<EdgeV>, t: Seq<EntryV>, x: SymV)
    requires
        ents.contains(x),
    ensures
        reach_set(ents, es, t).contains(x),
{
}

/// The table entries whose symbol is not in `r`, in table order.
pub open spec fn dead_entries(t: Seq<EntryV>, r: Set<SymV>) -> Seq<EntryV> {
    t.filter_map(|x: EntryV| if r.contains(x.0) {
        None
    } else {
        Some(x)
    })
}

/// Dead code is exactly the table entries whose symbol is not reached, each
/// kept once and in table order; with the reached entries it makes up the
/// whole table.
pub proof fn law_dead_code_is_unreached(t: Seq<EntryV>, r: Set<SymV>)
    ensures
        dead_entries(t, r) == t.filter(|x: EntryV| !r.contains(x.0)),
        dead_entries(t, r).len() + t.filter(|x: EntryV| r.contains(x.0)).len() == t.len(),
    decreases t.len(),
{
    reveal(Seq::filter);
    if t.len() > 0 {
        law_dead_code_is_unreached(t.drop_last(), r);
        assert(dead_entries(t, r) == if r.contains(t.last().0) {
            dead_entries(t.drop_last(), r)
        } else {
            dead_entries(t.drop_last(), r) + seq![t.last()]
        });
        if !r.contains(t.last().0) {
            assert(dead_entries(t.drop_last(), r) + seq![t.last()] =~= dead_entries(t.drop_last(), r).push(t.last()));
        }
    } else {
        assert(dead_entries(t, r) =~= Seq::<EntryV>::empty());
    }
}


/// Deferring or spawning an expression references exactly what evaluating it
/// as a statement does.
pub proof fn law_defer_and_go_reference_like_calls(e: Expr, s1: Span, s2: Span, s3: Span, env: RefEnv)
    ensures
        stmt_refs(Stmt::Defer(e, s1), env) == stmt_refs(Stmt::Expr(e, s3), env),
        stmt_refs(Stmt::Go(e, s2), env) == stmt_refs(Stmt::Expr(e, s3), env),
{
}

/// A call of a function by name references that function from the caller,
/// whether the call is a statement, deferred or spawned.
pub proof fn law_call_statement_references_callee(
    id: Ident,
    type_args: Vec<TypeExpr>,
    args: Vec<Expr>,
    ellipsis: bool,
    cspan: Span,
    sp: Span,
    env: RefEnv,
)
    ensures
        ({
            let call = Expr::Call { func: Box::new(Expr::Ident(id)), type_args, args, ellipsis, span: cspan };
            let edge = (env.caller, (env.pkg, before_bracket(id.name@)));
            &&& stmt_refs(Stmt::Expr(call, sp), env).contains(edge)
            &&& stmt_refs(Stmt::Defer(call, sp), env).contains(edge)
            &&& stmt_refs(Stmt::Go(call, sp), env).contains(edge)
        }),
{
    let call = Expr::Call { func: Box::new(Expr::Ident(id)), type_args, args, ellipsis, span: cspan };
    let edge = (env.caller, (env.pkg, before_bracket(id.name@)));
    let r = expr_refs(call, env);
    assert(r == seq![edge] + expr_refs(Expr::Ident(id), env) + exprs_refs(args@, env));
    assert(r[0] == edge);
    assert(stmt_refs(Stmt::Expr(call, sp), env) == r);
    assert(stmt_refs(Stmt::Defer(call, sp), env) == r);
    assert(stmt_refs(Stmt::Go(call, sp), env) == r);
}


/// Statements that hold expressions reference what those expressions
/// reference, in order: an increment, a decrement or a one-value return of
/// `e` references what `e` does as a statement; a send references its channel
/// and then its value; an assignment its left side and then its right side;
/// a short variable declaration its values.
pub proof fn law_statements_reference_their_expressions(
    e: Expr,
    f: Expr,
    lhs: Vec<Expr>,
    rhs: Vec<Expr>,
    op: AssignOp,
    names: Vec<Ident>,
    sp: Span,
    sq: Span,
    env: RefEnv,
)
    requires
        lhs@.len() == 1,
        lhs@[0] == e,
    ensures
        stmt_refs(Stmt::Inc(e, sp), env) == stmt_refs(Stmt::Expr(e, sq), env),
        stmt_refs(Stmt::Dec(e, sp), env) == stmt_refs(Stmt::Expr(e, sq), env),
        stmt_refs(Stmt::Return { values: lhs, span: sp }, env) == stmt_refs(Stmt::Expr(e, sq), env),
        stmt_refs(Stmt::Send { channel: e, value: f, span: sp }, env) == stmt_refs(Stmt::Expr(e, sq), env)
            + stmt_refs(Stmt::Expr(f, sq), env),
        stmt_refs(Stmt::Assign { lhs, op, rhs, span: sp }, env) == stmt_refs(Stmt::Expr(e, sq), env)
            + stmt_refs(Stmt::Return { values: rhs, span: sq }, env),
        stmt_refs(Stmt::ShortVarDecl { names, values: rhs, span: sp }, env) == stmt_refs(
            Stmt::Return { values: rhs, span: sq },
            env,
        ),
{
    assert(lhs@.drop_last() =~= Seq::<Expr>::empty());
    assert(exprs_refs(Seq::<Expr>::empty(), env) == Seq::<EdgeV>::empty());
    assert(lhs@.last() == e);
    assert(exprs_refs(lhs@, env) =~= Seq::<EdgeV>::empty() + expr_refs(e, env));
    assert(exprs_refs(lhs@, env) =~= expr_refs(e, env));
}

/// A nested block references what its statements do, and a labeled
/// statement what its body does.
pub proof fn law_nested_statements_reference_their_bodies(b: Block, s: Stmt, label: Ident, sp: Span, env: RefEnv)
    ensures
        stmt_refs(Stmt::Block(b), env) == block_refs(b, env),
        stmt_refs(Stmt::Labeled { label, body: Box::new(s), span: sp }, env) == stmt_refs(s, env),
{
}


/// Operators, parentheses, indexing and type assertions reference what their
/// operands reference, left operand first.
pub proof fn law_operators_reference_their_operands(
    e: Expr,
    f: Expr,
    uop: UnaryOp,
    bop: BinaryOp,
    t: TypeExpr,
    sp: Span,
    env: RefEnv,
)
    ensures
        expr_refs(Expr::Paren(Box::new(e), sp), env) == expr_refs(e, env),
        expr_refs(Expr::Unary { op: uop, operand: Box::new(e), span: sp }, env) == expr_refs(e, env),
        expr_refs(Expr::TypeAssert { operand: Box::new(e), ty: Box::new(t), span: sp }, env) == expr_refs(e, env),
        expr_refs(Expr::Binary { op: bop, left: Box::new(e), right: Box::new(f), span: sp }, env)
            == expr_refs(e, env) + expr_refs(f, env),
        expr_refs(Expr::Index { operand: Box::new(e), index: Box::new(f), span: sp }, env)
            == expr_refs(e, env) + expr_refs(f, env),
{
}

} // verus!
