//! Queries over a repository: a kind of declaration, a list of filters, and
//! the summaries of the declarations that pass them.

use vstd::prelude::*;

use crate::ast::{FuncDecl, MethodDecl, TopLevelDecl, TypeSpec};
use crate::leaf::spec_is_exported;
use crate::output::{
    QueryItem, decl_rows_ok, func_sig_text, method_sig_text, row_ok, spans_fit, type_kind,
    type_sig_text,
};
use crate::printer_spec::receiver_text;
use crate::repo::{
    Repo, RepoFile, files_ok, funcs_in, located, methods_in, package_of, repo_funcs, repo_methods,
    repo_types, types_in,
};
use crate::selection::{
    Selection, SelectionItem, find_interface, is_test_file, lemma_pairs_filter, pairs,
    receiver_base, satisfies,
};

verus! {

/// The kind of declaration a query selects.
#[derive(Debug, Clone, Copy, PartialEq, Eq, Structural)]
pub enum SelectKind {
    Functions,
    Methods,
    Structs,
    Interfaces,
    Types,
}

/// One filter of a query. Filters that do not apply to the selected kind are
/// ignored.
#[derive(Debug)]
pub enum Filter {
    Named(String),
    InPackage(String),
    Exported(bool),
    ExcludingTests(bool),
    OnType(String),
    Implementing(String),
}

/// Keeping the elements that satisfy a predicate keeps any property that all
/// elements have.
pub proof fn lemma_filter_keeps<A>(s: Seq<A>, p: spec_fn(A) -> bool, q: spec_fn(A) -> bool)
    requires
        forall|i: int| 0 <= i < s.len() ==> q(#[trigger] s[i]),
    ensures
        forall|i: int| 0 <= i < s.filter(p).len() ==> q(#[trigger] s.filter(p)[i]),
    decreases s.len(),
{
    reveal(Seq::filter);
    if s.len() > 0 {
        let d = s.drop_last();
        assert forall|i: int| 0 <= i < d.len() implies q(#[trigger] d[i]) by {
            assert(d[i] == s[i]);
        }
        lemma_filter_keeps(d, p, q);
        assert(q(s[s.len() - 1]));
        let fd = d.filter(p);
        if p(s.last()) {
            assert forall|i: int| 0 <= i < fd.push(s.last()).len() implies q(#[trigger] fd.push(s.last())[i]) by {
                if i < fd.len() {
                    assert(fd.push(s.last())[i] == fd[i]);
                }
            }
        }
    }
}

/// The query summary of a function in file `file` of a repository.
pub open spec fn func_item(fs: Seq<RepoFile>, x: (FuncDecl, Seq<char>)) -> QueryItemV {
    QueryItemV {
        name: x.0.name.name@,
        kind: "function"@,
        receiver: None,
        package: pkg_or_empty(fs, x.1),
        file: x.1,
        line: (x.0.span.start_row + 1) as usize,
        end_line: (x.0.span.end_row + 1) as usize,
        exported: spec_is_exported(x.0.name.name@),
        signature: func_sig_text(x.0),
        doc: x.0.doc,
    }
}

/// The query summary of a method in file `file` of a repository.
pub open spec fn method_item(fs: Seq<RepoFile>, x: (MethodDecl, Seq<char>)) -> QueryItemV {
    QueryItemV {
        name: x.0.name.name@,
        kind: "method"@,
        receiver: Some(receiver_text(x.0)),
        package: pkg_or_empty(fs, x.1),
        file: x.1,
        line: (x.0.span.start_row + 1) as usize,
        end_line: (x.0.span.end_row + 1) as usize,
        exported: spec_is_exported(x.0.name.name@),
        signature: method_sig_text(x.0),
        doc: x.0.doc,
    }
}

/// The query summary of a type in file `file` of a repository.
pub open spec fn type_item(fs: Seq<RepoFile>, x: (TypeSpec, Seq<char>)) -> QueryItemV {
    QueryItemV {
        name: x.0.spec_name().name@,
        kind: type_kind(x.0),
        receiver: None,
        package: pkg_or_empty(fs, x.1),
        file: x.1,
        line: (x.0.spec_span().start_row + 1) as usize,
        end_line: (x.0.spec_span().end_row + 1) as usize,
        exported: spec_is_exported(x.0.spec_name().name@),
        signature: type_sig_text(x.0),
        doc: None,
    }
}

/// The package of a file of the repository, or nothing.
pub open spec fn pkg_or_empty(fs: Seq<RepoFile>, file: Seq<char>) -> Seq<char> {
    match package_of(fs, file) {
        Some(p) => p,
        None => Seq::empty(),
    }
}

/// The view of a query item.
pub struct QueryItemV {
    pub name: Seq<char>,
    pub kind: Seq<char>,
    pub receiver: Option<Seq<char>>,
    pub package: Seq<char>,
    pub file: Seq<char>,
    pub line: usize,
    pub end_line: usize,
    pub exported: bool,
    pub signature: Seq<char>,
    pub doc: Option<String>,
}

impl View for QueryItem {
    type V = QueryItemV;

    open spec fn view(&self) -> QueryItemV {
        QueryItemV {
            name: self.name@,
            kind: self.kind@,
            receiver: match self.receiver {
                Some(r) => Some(r@),
                None => None,
            },
            package: self.package@,
            file: self.file@,
            line: self.line,
            end_line: self.end_line,
            exported: self.exported,
            signature: self.signature@,
            doc: self.doc,
        }
    }
}

/// The views of a list of query items.
pub open spec fn items_view(qs: Seq<QueryItem>) -> Seq<QueryItemV> {
    qs.map_values(|q: QueryItem| q@)
}

/// What one filter keeps of located functions.
pub open spec fn func_filter(ps: Seq<(FuncDecl, Seq<char>)>, f: Filter, fs: Seq<RepoFile>) -> Seq<(FuncDecl, Seq<char>)> {
    match f {
        Filter::Named(n) => ps.filter(|x: (FuncDecl, Seq<char>)| x.0.name.name@ == n@),
        Filter::InPackage(p) => ps.filter(|x: (FuncDecl, Seq<char>)| package_of(fs, x.1) == Some(p@)),
        Filter::Exported(true) => ps.filter(|x: (FuncDecl, Seq<char>)| spec_is_exported(x.0.name.name@)),
        Filter::Exported(false) => ps.filter(|x: (FuncDecl, Seq<char>)| !spec_is_exported(x.0.name.name@)),
        Filter::ExcludingTests(true) => ps.filter(|x: (FuncDecl, Seq<char>)| !is_test_file(x.1)),
        _ => ps,
    }
}

/// What a list of filters keeps of located functions, applied in order.
pub open spec fn func_filters(ps: Seq<(FuncDecl, Seq<char>)>, fl: Seq<Filter>, fs: Seq<RepoFile>) -> Seq<(FuncDecl, Seq<char>)>
    decreases fl.len(),
{
    if fl.len() == 0 {
        ps
    } else {
        func_filter(func_filters(ps, fl.drop_last(), fs), fl.last(), fs)
    }
}

/// What one filter keeps of located methods.
pub open spec fn method_filter(ps: Seq<(MethodDecl, Seq<char>)>, f: Filter, fs: Seq<RepoFile>) -> Seq<(MethodDecl, Seq<char>)> {
    match f {
        Filter::Named(n) => ps.filter(|x: (MethodDecl, Seq<char>)| x.0.name.name@ == n@),
        Filter::InPackage(p) => ps.filter(|x: (MethodDecl, Seq<char>)| package_of(fs, x.1) == Some(p@)),
        Filter::Exported(true) => ps.filter(|x: (MethodDecl, Seq<char>)| spec_is_exported(x.0.name.name@)),
        Filter::Exported(false) => ps.filter(|x: (MethodDecl, Seq<char>)| !spec_is_exported(x.0.name.name@)),
        Filter::ExcludingTests(true) => ps.filter(|x: (MethodDecl, Seq<char>)| !is_test_file(x.1)),
        Filter::OnType(t) => ps.filter(|x: (MethodDecl, Seq<char>)| receiver_base(x.0.receiver.ty) == Some(t@)),
        _ => ps,
    }
}

/// What a list of filters keeps of located methods, applied in order.
pub open spec fn method_filters(ps: Seq<(MethodDecl, Seq<char>)>, fl: Seq<Filter>, fs: Seq<RepoFile>) -> Seq<(MethodDecl, Seq<char>)>
    decreases fl.len(),
{
    if fl.len() == 0 {
        ps
    } else {
        method_filter(method_filters(ps, fl.drop_last(), fs), fl.last(), fs)
    }
}

/// What one filter keeps of located types.
pub open spec fn type_filter(ps: Seq<(TypeSpec, Seq<char>)>, f: Filter, fs: Seq<RepoFile>) -> Seq<(TypeSpec, Seq<char>)> {
    match f {
        Filter::Named(n) => ps.filter(|x: (TypeSpec, Seq<char>)| x.0.spec_name().name@ == n@),
        Filter::InPackage(p) => ps.filter(|x: (TypeSpec, Seq<char>)| package_of(fs, x.1) == Some(p@)),
        Filter::Exported(true) => ps.filter(|x: (TypeSpec, Seq<char>)| spec_is_exported(x.0.spec_name().name@)),
        Filter::Exported(false) => ps.filter(|x: (TypeSpec, Seq<char>)| !spec_is_exported(x.0.spec_name().name@)),
        Filter::ExcludingTests(true) => ps.filter(|x: (TypeSpec, Seq<char>)| !is_test_file(x.1)),
        Filter::Implementing(i) => match find_interface(repo_types(fs), i@) {
            Some(elems) => ps.filter(
                |x: (TypeSpec, Seq<char>)| satisfies(repo_methods(fs), x.0.spec_name().name@, elems),
            ),
            None => Seq::empty(),
        },
        _ => ps,
    }
}

/// What a list of filters keeps of located types, applied in order.
pub open spec fn type_filters(ps: Seq<(TypeSpec, Seq<char>)>, fl: Seq<Filter>, fs: Seq<RepoFile>) -> Seq<(TypeSpec, Seq<char>)>
    decreases fl.len(),
{
    if fl.len() == 0 {
        ps
    } else {
        type_filter(type_filters(ps, fl.drop_last(), fs), fl.last(), fs)
    }
}

/// The located types a query of kind `k` starts from.
pub open spec fn type_start(fs: Seq<RepoFile>, k: SelectKind) -> Seq<(TypeSpec, Seq<char>)> {
    match k {
        SelectKind::Structs => repo_types(fs).filter(|x: (TypeSpec, Seq<char>)| x.0.spec_is_struct()),
        SelectKind::Interfaces => repo_types(fs).filter(|x: (TypeSpec, Seq<char>)| x.0.spec_is_interface()),
        _ => repo_types(fs),
    }
}

/// The summaries a query returns: the declarations of the selected kind that
/// pass every filter, in repository order, each with its file's package.
pub open spec fn query_result(fs: Seq<RepoFile>, k: SelectKind, fl: Seq<Filter>) -> Seq<QueryItemV> {
    match k {
        SelectKind::Functions => func_filters(repo_funcs(fs), fl, fs).map_values(|x: (FuncDecl, Seq<char>)| func_item(fs, x)),
        SelectKind::Methods => method_filters(repo_methods(fs), fl, fs).map_values(|x: (MethodDecl, Seq<char>)| method_item(fs, x)),
        _ => type_filters(type_start(fs, k), fl, fs).map_values(|x: (TypeSpec, Seq<char>)| type_item(fs, x)),
    }
}


/// The functions of declarations with fitting rows have fitting rows.
proof fn lemma_funcs_in_rows(ds: Seq<TopLevelDecl>)
    requires
        forall|i: int| 0 <= i < ds.len() ==> decl_rows_ok(#[trigger] ds[i]),
    ensures
        forall|k: int| 0 <= k < funcs_in(ds).len() ==> row_ok(#[trigger] funcs_in(ds)[k].span),
    decreases ds.len(),
{
    if ds.len() > 0 {
        let d = ds.drop_last();
        assert forall|i: int| 0 <= i < d.len() implies decl_rows_ok(#[trigger] d[i]) by {
            assert(d[i] == ds[i]);
        }
        lemma_funcs_in_rows(d);
        assert(decl_rows_ok(ds[ds.len() - 1]));
    }
}

/// The methods of declarations with fitting rows have fitting rows.
proof fn lemma_methods_in_rows(ds: Seq<TopLevelDecl>)
    requires
        forall|i: int| 0 <= i < ds.len() ==> decl_rows_ok(#[trigger] ds[i]),
    ensures
        forall|k: int| 0 <= k < methods_in(ds).len() ==> row_ok(#[trigger] methods_in(ds)[k].span),
    decreases ds.len(),
{
    if ds.len() > 0 {
        let d = ds.drop_last();
        assert forall|i: int| 0 <= i < d.len() implies decl_rows_ok(#[trigger] d[i]) by {
            assert(d[i] == ds[i]);
        }
        lemma_methods_in_rows(d);
        assert(decl_rows_ok(ds[ds.len() - 1]));
    }
}

/// The type specifications of declarations with fitting rows have fitting rows.
proof fn lemma_types_in_rows(ds: Seq<TopLevelDecl>)
    requires
        forall|i: int| 0 <= i < ds.len() ==> decl_rows_ok(#[trigger] ds[i]),
    ensures
        forall|k: int| 0 <= k < types_in(ds).len() ==> row_ok(#[trigger] types_in(ds)[k].spec_span()),
    decreases ds.len(),
{
    if ds.len() > 0 {
        let d = ds.drop_last();
        assert forall|i: int| 0 <= i < d.len() implies decl_rows_ok(#[trigger] d[i]) by {
            assert(d[i] == ds[i]);
        }
        lemma_types_in_rows(d);
        assert(decl_rows_ok(ds[ds.len() - 1]));
        let r = types_in(d);
        let t = types_in(ds);
        assert forall|k: int| 0 <= k < t.len() implies row_ok(#[trigger] t[k].spec_span()) by {
            if k < r.len() {
                assert(t[k] == r[k]);
            } else {
                match ds.last() {
                    TopLevelDecl::Type(specs) => {
                        assert(t[k] == specs@[k - r.len()]);
                    },
                    _ => {},
                }
            }
        }
    }
}

/// Every function of a repository whose files fit has fitting rows.
proof fn lemma_repo_funcs_rows(fs: Seq<RepoFile>)
    requires
        forall|i: int| 0 <= i < fs.len() ==> spans_fit(#[trigger] fs[i].ast),
    ensures
        forall|k: int| 0 <= k < repo_funcs(fs).len() ==> row_ok(#[trigger] repo_funcs(fs)[k].0.span),
    decreases fs.len(),
{
    if fs.len() > 0 {
        let d = fs.drop_last();
        assert forall|i: int| 0 <= i < d.len() implies spans_fit(#[trigger] d[i].ast) by {
            assert(d[i] == fs[i]);
        }
        lemma_repo_funcs_rows(d);
        assert(spans_fit(fs[fs.len() - 1].ast));
        lemma_funcs_in_rows(fs.last().ast.decls@);
        let r = repo_funcs(d);
        let t = repo_funcs(fs);
        assert forall|k: int| 0 <= k < t.len() implies row_ok(#[trigger] t[k].0.span) by {
            if k < r.len() {
                assert(t[k] == r[k]);
            } else {
                assert(t[k].0 == funcs_in(fs.last().ast.decls@)[k - r.len()]);
            }
        }
    }
}

/// Every method of a repository whose files fit has fitting rows.
proof fn lemma_repo_methods_rows(fs: Seq<RepoFile>)
    requires
        forall|i: int| 0 <= i < fs.len() ==> spans_fit(#[trigger] fs[i].ast),
    ensures
        forall|k: int| 0 <= k < repo_methods(fs).len() ==> row_ok(#[trigger] repo_methods(fs)[k].0.span),
    decreases fs.len(),
{
    if fs.len() > 0 {
        let d = fs.drop_last();
        assert forall|i: int| 0 <= i < d.len() implies spans_fit(#[trigger] d[i].ast) by {
            assert(d[i] == fs[i]);
        }
        lemma_repo_methods_rows(d);
        assert(spans_fit(fs[fs.len() - 1].ast));
        lemma_methods_in_rows(fs.last().ast.decls@);
        let r = repo_methods(d);
        let t = repo_methods(fs);
        assert forall|k: int| 0 <= k < t.len() implies row_ok(#[trigger] t[k].0.span) by {
            if k < r.len() {
                assert(t[k] == r[k]);
            } else {
                assert(t[k].0 == methods_in(fs.last().ast.decls@)[k - r.len()]);
            }
        }
    }
}

/// Every type of a repository whose files fit has fitting rows.
proof fn lemma_repo_types_rows(fs: Seq<RepoFile>)
    requires
        forall|i: int| 0 <= i < fs.len() ==> spans_fit(#[trigger] fs[i].ast),
    ensures
        forall|k: int| 0 <= k < repo_types(fs).len() ==> row_ok(#[trigger] repo_types(fs)[k].0.spec_span()),
    decreases fs.len(),
{
    if fs.len() > 0 {
        let d = fs.drop_last();
        assert forall|i: int| 0 <= i < d.len() implies spans_fit(#[trigger] d[i].ast) by {
            assert(d[i] == fs[i]);
        }
        lemma_repo_types_rows(d);
        assert(spans_fit(fs[fs.len() - 1].ast));
        lemma_types_in_rows(fs.last().ast.decls@);
        let r = repo_types(d);
        let t = repo_types(fs);
        assert forall|k: int| 0 <= k < t.len() implies row_ok(#[trigger] t[k].0.spec_span()) by {
            if k < r.len() {
                assert(t[k] == r[k]);
                assert(row_ok(r[k].0.spec_span()));
            } else {
                assert(t[k].0 == types_in(fs.last().ast.decls@)[k - r.len()]);
                assert(row_ok(types_in(fs.last().ast.decls@)[k - r.len()].spec_span()));
            }
        }
    }
}

/// Applies query filters to a selection of functions.
pub(crate) fn apply_func_filters<'r>(sel: Selection<'r, &'r FuncDecl>, filters: &[Filter]) -> (r: Selection<'r, &'r FuncDecl>)
    ensures
        r.spec_repo() == sel.spec_repo(),
        pairs(r.spec_items()) == func_filters(pairs(sel.spec_items()), filters@, sel.spec_repo().spec_files()),
{
    let ghost fs = sel.spec_repo().spec_files();
    let ghost r0 = sel.spec_repo();
    let ghost p0 = pairs(sel.spec_items());
    let mut sel = sel;
    let mut i: usize = 0;
    while i < filters.len()
        invariant
            i <= filters@.len(),
            sel.spec_repo() == r0,
            r0.spec_files() == fs,
            pairs(sel.spec_items()) == func_filters(p0, filters@.take(i as int), fs),
        decreases filters@.len() - i,
    {
        let ghost before = sel.spec_items();
        proof {
            assert(filters@.take(i + 1).drop_last() =~= filters@.take(i as int));
            assert(filters@.take(i + 1).last() == filters@[i as int]);
        }
        match &filters[i] {
            Filter::Named(n) => {
                sel = sel.named(n.as_str());
                proof {
                    lemma_pairs_filter(before, |si: SelectionItem<&FuncDecl>| si.item.name.name@ == n@, |x: (FuncDecl, Seq<char>)| x.0.name.name@ == n@);
                }
            },
            Filter::InPackage(p) => {
                sel = sel.in_package(p.as_str());
                proof {
                    lemma_pairs_filter(before, |si: SelectionItem<&FuncDecl>| package_of(fs, si.file@) == Some(p@), |x: (FuncDecl, Seq<char>)| package_of(fs, x.1) == Some(p@));
                }
            },
            Filter::Exported(true) => {
                sel = sel.exported();
                proof {
                    lemma_pairs_filter(before, |si: SelectionItem<&FuncDecl>| spec_is_exported(si.item.name.name@), |x: (FuncDecl, Seq<char>)| spec_is_exported(x.0.name.name@));
                }
            },
            Filter::Exported(false) => {
                sel = sel.unexported();
                proof {
                    lemma_pairs_filter(before, |si: SelectionItem<&FuncDecl>| !spec_is_exported(si.item.name.name@), |x: (FuncDecl, Seq<char>)| !spec_is_exported(x.0.name.name@));
                }
            },
            Filter::ExcludingTests(true) => {
                sel = sel.excluding_tests();
                proof {
                    lemma_pairs_filter(before, |si: SelectionItem<&FuncDecl>| !is_test_file(si.file@), |x: (FuncDecl, Seq<char>)| !is_test_file(x.1));
                }
            },
            _ => {},
        }
        i = i + 1;
    }
    proof {
        assert(filters@.take(i as int) =~= filters@);
    }
    sel
}

/// Applies query filters to a selection of methods.
pub(crate) fn apply_method_filters<'r>(sel: Selection<'r, &'r MethodDecl>, filters: &[Filter]) -> (r: Selection<'r, &'r MethodDecl>)
    ensures
        r.spec_repo() == sel.spec_repo(),
        pairs(r.spec_items()) == method_filters(pairs(sel.spec_items()), filters@, sel.spec_repo().spec_files()),
{
    let ghost fs = sel.spec_repo().spec_files();
    let ghost r0 = sel.spec_repo();
    let ghost p0 = pairs(sel.spec_items());
    let mut sel = sel;
    let mut i: usize = 0;
    while i < filters.len()
        invariant
            i <= filters@.len(),
            sel.spec_repo() == r0,
            r0.spec_files() == fs,
            pairs(sel.spec_items()) == method_filters(p0, filters@.take(i as int), fs),
        decreases filters@.len() - i,
    {
        let ghost before = sel.spec_items();
        proof {
            assert(filters@.take(i + 1).drop_last() =~= filters@.take(i as int));
            assert(filters@.take(i + 1).last() == filters@[i as int]);
        }
        match &filters[i] {
            Filter::Named(n) => {
                sel = sel.named(n.as_str());
                proof {
                    lemma_pairs_filter(before, |si: SelectionItem<&MethodDecl>| si.item.name.name@ == n@, |x: (MethodDecl, Seq<char>)| x.0.name.name@ == n@);
                }
            },
            Filter::InPackage(p) => {
                sel = sel.in_package(p.as_str());
                proof {
                    lemma_pairs_filter(before, |si: SelectionItem<&MethodDecl>| package_of(fs, si.file@) == Some(p@), |x: (MethodDecl, Seq<char>)| package_of(fs, x.1) == Some(p@));
                }
            },
            Filter::Exported(true) => {
                sel = sel.exported();
                proof {
                    lemma_pairs_filter(before, |si: SelectionItem<&MethodDecl>| spec_is_exported(si.item.name.name@), |x: (MethodDecl, Seq<char>)| spec_is_exported(x.0.name.name@));
                }
            },
            Filter::Exported(false) => {
                sel = sel.unexported();
                proof {
                    lemma_pairs_filter(before, |si: SelectionItem<&MethodDecl>| !spec_is_exported(si.item.name.name@), |x: (MethodDecl, Seq<char>)| !spec_is_exported(x.0.name.name@));
                }
            },
            Filter::ExcludingTests(true) => {
                sel = sel.excluding_tests();
                proof {
                    lemma_pairs_filter(before, |si: SelectionItem<&MethodDecl>| !is_test_file(si.file@), |x: (MethodDecl, Seq<char>)| !is_test_file(x.1));
                }
            },
            Filter::OnType(t) => {
                sel = sel.on_type(t.as_str());
                proof {
                    lemma_pairs_filter(before, |si: SelectionItem<&MethodDecl>| receiver_base(si.item.receiver.ty) == Some(t@), |x: (MethodDecl, Seq<char>)| receiver_base(x.0.receiver.ty) == Some(t@));
                }
            },
            _ => {},
        }
        i = i + 1;
    }
    proof {
        assert(filters@.take(i as int) =~= filters@);
    }
    sel
}

/// Applies query filters to a selection of types.
pub(crate) fn apply_type_filters<'r>(sel: Selection<'r, &'r TypeSpec>, filters: &[Filter]) -> (r: Selection<'r, &'r TypeSpec>)
    ensures
        r.spec_repo() == sel.spec_repo(),
        pairs(r.spec_items()) == type_filters(pairs(sel.spec_items()), filters@, sel.spec_repo().spec_files()),
{
    let ghost fs = sel.spec_repo().spec_files();
    let ghost r0 = sel.spec_repo();
    let ghost p0 = pairs(sel.spec_items());
    let mut sel = sel;
    let mut i: usize = 0;
    while i < filters.len()
        invariant
            i <= filters@.len(),
            sel.spec_repo() == r0,
            r0.spec_files() == fs,
            pairs(sel.spec_items()) == type_filters(p0, filters@.take(i as int), fs),
        decreases filters@.len() - i,
    {
        let ghost before = sel.spec_items();
        proof {
            assert(filters@.take(i + 1).drop_last() =~= filters@.take(i as int));
            assert(filters@.take(i + 1).last() == filters@[i as int]);
        }
        match &filters[i] {
            Filter::Named(n) => {
                sel = sel.named(n.as_str());
                proof {
                    lemma_pairs_filter(before, |si: SelectionItem<&TypeSpec>| si.item.spec_name().name@ == n@, |x: (TypeSpec, Seq<char>)| x.0.spec_name().name@ == n@);
                }
            },
            Filter::InPackage(p) => {
                sel = sel.in_package(p.as_str());
                proof {
                    lemma_pairs_filter(before, |si: SelectionItem<&TypeSpec>| package_of(fs, si.file@) == Some(p@), |x: (TypeSpec, Seq<char>)| package_of(fs, x.1) == Some(p@));
                }
            },
            Filter::Exported(true) => {
                sel = sel.exported();
                proof {
                    lemma_pairs_filter(before, |si: SelectionItem<&TypeSpec>| spec_is_exported(si.item.spec_name().name@), |x: (TypeSpec, Seq<char>)| spec_is_exported(x.0.spec_name().name@));
                }
            },
            Filter::Exported(false) => {
                sel = sel.unexported();
                proof {
                    lemma_pairs_filter(before, |si: SelectionItem<&TypeSpec>| !spec_is_exported(si.item.spec_name().name@), |x: (TypeSpec, Seq<char>)| !spec_is_exported(x.0.spec_name().name@));
                }
            },
            Filter::ExcludingTests(true) => {
                sel = sel.excluding_tests();
                proof {
                    lemma_pairs_filter(before, |si: SelectionItem<&TypeSpec>| !is_test_file(si.file@), |x: (TypeSpec, Seq<char>)| !is_test_file(x.1));
                }
            },
            Filter::Implementing(iface) => {
                sel = sel.implementing(iface.as_str());
                proof {
                    match find_interface(repo_types(fs), iface@) {
                        Some(elems) => {
                            lemma_pairs_filter(before, |si: SelectionItem<&TypeSpec>| satisfies(repo_methods(fs), si.item.spec_name().name@, elems), |x: (TypeSpec, Seq<char>)| satisfies(repo_methods(fs), x.0.spec_name().name@, elems));
                        },
                        None => {
                            assert(pairs(sel.spec_items()) =~= Seq::<(TypeSpec, Seq<char>)>::empty());
                        },
                    }
                }
            },
            _ => {},
        }
        i = i + 1;
    }
    proof {
        assert(filters@.take(i as int) =~= filters@);
    }
    sel
}


/// Filtering keeps fitting rows.
proof fn lemma_func_filters_rows(ps: Seq<(FuncDecl, Seq<char>)>, fl: Seq<Filter>, fs: Seq<RepoFile>)
    requires
        forall|k: int| 0 <= k < ps.len() ==> row_ok(#[trigger] ps[k].0.span),
    ensures
        forall|k: int| 0 <= k < func_filters(ps, fl, fs).len() ==> row_ok(#[trigger] func_filters(ps, fl, fs)[k].0.span),
    decreases fl.len(),
{
    if fl.len() > 0 {
        lemma_func_filters_rows(ps, fl.drop_last(), fs);
        let q = |x: (FuncDecl, Seq<char>)| row_ok(x.0.span);
        let prev = func_filters(ps, fl.drop_last(), fs);
        assert forall|k: int| 0 <= k < prev.len() implies q(#[trigger] prev[k]) by {}
        match fl.last() {
            Filter::Named(n) => lemma_filter_keeps(prev, |x: (FuncDecl, Seq<char>)| x.0.name.name@ == n@, q),
            Filter::InPackage(p) => lemma_filter_keeps(prev, |x: (FuncDecl, Seq<char>)| package_of(fs, x.1) == Some(p@), q),
            Filter::Exported(true) => lemma_filter_keeps(prev, |x: (FuncDecl, Seq<char>)| spec_is_exported(x.0.name.name@), q),
            Filter::Exported(false) => lemma_filter_keeps(prev, |x: (FuncDecl, Seq<char>)| !spec_is_exported(x.0.name.name@), q),
            Filter::ExcludingTests(true) => lemma_filter_keeps(prev, |x: (FuncDecl, Seq<char>)| !is_test_file(x.1), q),
            _ => {},
        }
    }
}

/// Filtering keeps fitting rows.
proof fn lemma_method_filters_rows(ps: Seq<(MethodDecl, Seq<char>)>, fl: Seq<Filter>, fs: Seq<RepoFile>)
    requires
        forall|k: int| 0 <= k < ps.len() ==> row_ok(#[trigger] ps[k].0.span),
    ensures
        forall|k: int| 0 <= k < method_filters(ps, fl, fs).len() ==> row_ok(#[trigger] method_filters(ps, fl, fs)[k].0.span),
    decreases fl.len(),
{
    if fl.len() > 0 {
        lemma_method_filters_rows(ps, fl.drop_last(), fs);
        let q = |x: (MethodDecl, Seq<char>)| row_ok(x.0.span);
        let prev = method_filters(ps, fl.drop_last(), fs);
        assert forall|k: int| 0 <= k < prev.len() implies q(#[trigger] prev[k]) by {}
        match fl.last() {
            Filter::Named(n) => lemma_filter_keeps(prev, |x: (MethodDecl, Seq<char>)| x.0.name.name@ == n@, q),
            Filter::InPackage(p) => lemma_filter_keeps(prev, |x: (MethodDecl, Seq<char>)| package_of(fs, x.1) == Some(p@), q),
            Filter::Exported(true) => lemma_filter_keeps(prev, |x: (MethodDecl, Seq<char>)| spec_is_exported(x.0.name.name@), q),
            Filter::Exported(false) => lemma_filter_keeps(prev, |x: (MethodDecl, Seq<char>)| !spec_is_exported(x.0.name.name@), q),
            Filter::ExcludingTests(true) => lemma_filter_keeps(prev, |x: (MethodDecl, Seq<char>)| !is_test_file(x.1), q),
            Filter::OnType(t) => lemma_filter_keeps(prev, |x: (MethodDecl, Seq<char>)| receiver_base(x.0.receiver.ty) == Some(t@), q),
            _ => {},
        }
    }
}

/// Filtering keeps fitting rows.
proof fn lemma_type_filters_rows(ps: Seq<(TypeSpec, Seq<char>)>, fl: Seq<Filter>, fs: Seq<RepoFile>)
    requires
        forall|k: int| 0 <= k < ps.len() ==> row_ok(#[trigger] ps[k].0.spec_span()),
    ensures
        forall|k: int| 0 <= k < type_filters(ps, fl, fs).len() ==> row_ok(#[trigger] type_filters(ps, fl, fs)[k].0.spec_span()),
    decreases fl.len(),
{
    if fl.len() > 0 {
        lemma_type_filters_rows(ps, fl.drop_last(), fs);
        let q = |x: (TypeSpec, Seq<char>)| row_ok(x.0.spec_span());
        let prev = type_filters(ps, fl.drop_last(), fs);
        assert forall|k: int| 0 <= k < prev.len() implies q(#[trigger] prev[k]) by {}
        match fl.last() {
            Filter::Named(n) => lemma_filter_keeps(prev, |x: (TypeSpec, Seq<char>)| x.0.spec_name().name@ == n@, q),
            Filter::InPackage(p) => lemma_filter_keeps(prev, |x: (TypeSpec, Seq<char>)| package_of(fs, x.1) == Some(p@), q),
            Filter::Exported(true) => lemma_filter_keeps(prev, |x: (TypeSpec, Seq<char>)| spec_is_exported(x.0.spec_name().name@), q),
            Filter::Exported(false) => lemma_filter_keeps(prev, |x: (TypeSpec, Seq<char>)| !spec_is_exported(x.0.spec_name().name@), q),
            Filter::ExcludingTests(true) => lemma_filter_keeps(prev, |x: (TypeSpec, Seq<char>)| !is_test_file(x.1), q),
            Filter::Implementing(i) => match find_interface(repo_types(fs), i@) {
                Some(elems) => {
                    let pr = |x: (TypeSpec, Seq<char>)| satisfies(repo_methods(fs), x.0.spec_name().name@, elems);
                    lemma_filter_keeps(prev, pr, q);
                    assert(type_filters(ps, fl, fs) == prev.filter(pr));
                },
                None => {
                    assert(type_filters(ps, fl, fs) =~= Seq::<(TypeSpec, Seq<char>)>::empty());
                },
            },
            _ => {},
        }
        let r = type_filters(ps, fl, fs);
        assert forall|k: int| 0 <= k < r.len() implies row_ok(#[trigger] r[k].0.spec_span()) by {
            assert(q(r[k]));
        }
    } else {
        assert(type_filters(ps, fl, fs) == ps);
        assert forall|k: int| 0 <= k < ps.len() implies row_ok(#[trigger] type_filters(ps, fl, fs)[k].0.spec_span()) by {
            assert(row_ok(ps[k].0.spec_span()));
        }
    }
}

/// Filtering keeps a property that every located type has.
pub proof fn lemma_type_filters_keep(ps: Seq<(TypeSpec, Seq<char>)>, fl: Seq<Filter>, fs: Seq<RepoFile>, q: spec_fn((TypeSpec, Seq<char>)) -> bool)
    requires
        forall|k: int| 0 <= k < ps.len() ==> q(#[trigger] ps[k]),
    ensures
        forall|k: int| 0 <= k < type_filters(ps, fl, fs).len() ==> q(#[trigger] type_filters(ps, fl, fs)[k]),
    decreases fl.len(),
{
    if fl.len() > 0 {
        lemma_type_filters_keep(ps, fl.drop_last(), fs, q);
        let prev = type_filters(ps, fl.drop_last(), fs);
        assert forall|k: int| 0 <= k < prev.len() implies q(#[trigger] prev[k]) by {}
        match fl.last() {
            Filter::Named(n) => lemma_filter_keeps(prev, |x: (TypeSpec, Seq<char>)| x.0.spec_name().name@ == n@, q),
            Filter::InPackage(p) => lemma_filter_keeps(prev, |x: (TypeSpec, Seq<char>)| package_of(fs, x.1) == Some(p@), q),
            Filter::Exported(true) => lemma_filter_keeps(prev, |x: (TypeSpec, Seq<char>)| spec_is_exported(x.0.spec_name().name@), q),
            Filter::Exported(false) => lemma_filter_keeps(prev, |x: (TypeSpec, Seq<char>)| !spec_is_exported(x.0.spec_name().name@), q),
            Filter::ExcludingTests(true) => lemma_filter_keeps(prev, |x: (TypeSpec, Seq<char>)| !is_test_file(x.1), q),
            Filter::Implementing(i) => match find_interface(repo_types(fs), i@) {
                Some(elems) => {
                    let pr = |x: (TypeSpec, Seq<char>)| satisfies(repo_methods(fs), x.0.spec_name().name@, elems);
                    lemma_filter_keeps(prev, pr, q);
                    assert(type_filters(ps, fl, fs) == prev.filter(pr));
                },
                None => {
                    assert(type_filters(ps, fl, fs) =~= Seq::<(TypeSpec, Seq<char>)>::empty());
                },
            },
            _ => {},
        }
        let r = type_filters(ps, fl, fs);
        assert forall|k: int| 0 <= k < r.len() implies q(#[trigger] r[k]) by {}
    } else {
        assert(type_filters(ps, fl, fs) == ps);
        assert forall|k: int| 0 <= k < ps.len() implies q(#[trigger] type_filters(ps, fl, fs)[k]) by {
            assert(q(ps[k]));
        }
    }
}

/// The summaries of a selection of functions, each with its file's package.
fn func_items(repo: &Repo, sel: &Selection<&FuncDecl>) -> (r: Vec<QueryItem>)
    requires
        forall|k: int| 0 <= k < pairs(sel.spec_items()).len() ==> row_ok(#[trigger] pairs(sel.spec_items())[k].0.span),
    ensures
        items_view(r@) == pairs(sel.spec_items()).map_values(|x: (FuncDecl, Seq<char>)| func_item(repo.spec_files(), x)),
{
    let items = sel.collect();
    let ghost ps = pairs(sel.spec_items());
    let mut out: Vec<QueryItem> = Vec::new();
    let mut i: usize = 0;
    while i < items.len()
        invariant
            i <= items@.len(),
            items@ == sel.spec_items(),
            ps == pairs(sel.spec_items()),
            forall|k: int| 0 <= k < ps.len() ==> row_ok(#[trigger] ps[k].0.span),
            items_view(out@) == ps.take(i as int).map_values(|x: (FuncDecl, Seq<char>)| func_item(repo.spec_files(), x)),
        decreases items@.len() - i,
    {
        proof {
            assert(ps[i as int] == (*items@[i as int].item, items@[i as int].file@));
        }
        let si = &items[i];
        let qi = QueryItem::from_func(si.item, si.file.as_str());
        let qi = match repo.package_for_file(si.file.as_str()) {
            Some(p) => qi.with_package(p),
            None => qi,
        };
        let ghost before = items_view(out@);
        out.push(qi);
        proof {
            assert(items_view(out@) =~= before.push(out@.last()@));
            assert(ps.take(i + 1).map_values(|x: (FuncDecl, Seq<char>)| func_item(repo.spec_files(), x)) =~= ps.take(i as int).map_values(
                |x: (FuncDecl, Seq<char>)| func_item(repo.spec_files(), x),
            ).push(func_item(repo.spec_files(), ps[i as int])));
        }
        i = i + 1;
    }
    proof {
        assert(ps.take(i as int) =~= ps);
    }
    out
}

/// The summaries of a selection of methods, each with its file's package.
fn method_items(repo: &Repo, sel: &Selection<&MethodDecl>) -> (r: Vec<QueryItem>)
    requires
        forall|k: int| 0 <= k < pairs(sel.spec_items()).len() ==> row_ok(#[trigger] pairs(sel.spec_items())[k].0.span),
    ensures
        items_view(r@) == pairs(sel.spec_items()).map_values(|x: (MethodDecl, Seq<char>)| method_item(repo.spec_files(), x)),
{
    let items = sel.collect();
    let ghost ps = pairs(sel.spec_items());
    let mut out: Vec<QueryItem> = Vec::new();
    let mut i: usize = 0;
    while i < items.len()
        invariant
            i <= items@.len(),
            items@ == sel.spec_items(),
            ps == pairs(sel.spec_items()),
            forall|k: int| 0 <= k < ps.len() ==> row_ok(#[trigger] ps[k].0.span),
            items_view(out@) == ps.take(i as int).map_values(|x: (MethodDecl, Seq<char>)| method_item(repo.spec_files(), x)),
        decreases items@.len() - i,
    {
        proof {
            assert(ps[i as int] == (*items@[i as int].item, items@[i as int].file@));
        }
        let si = &items[i];
        let qi = QueryItem::from_method(si.item, si.file.as_str());
        let qi = match repo.package_for_file(si.file.as_str()) {
            Some(p) => qi.with_package(p),
            None => qi,
        };
        let ghost before = items_view(out@);
        out.push(qi);
        proof {
            assert(items_view(out@) =~= before.push(out@.last()@));
            assert(ps.take(i + 1).map_values(|x: (MethodDecl, Seq<char>)| method_item(repo.spec_files(), x)) =~= ps.take(i as int).map_values(
                |x: (MethodDecl, Seq<char>)| method_item(repo.spec_files(), x),
            ).push(method_item(repo.spec_files(), ps[i as int])));
        }
        i = i + 1;
    }
    proof {
        assert(ps.take(i as int) =~= ps);
    }
    out
}

/// The summaries of a selection of types, each with its file's package.
fn type_items(repo: &Repo, sel: &Selection<&TypeSpec>) -> (r: Vec<QueryItem>)
    requires
        forall|k: int| 0 <= k < pairs(sel.spec_items()).len() ==> row_ok(#[trigger] pairs(sel.spec_items())[k].0.spec_span()),
    ensures
        items_view(r@) == pairs(sel.spec_items()).map_values(|x: (TypeSpec, Seq<char>)| type_item(repo.spec_files(), x)),
{
    let items = sel.collect();
    let ghost ps = pairs(sel.spec_items());
    let mut out: Vec<QueryItem> = Vec::new();
    let mut i: usize = 0;
    while i < items.len()
        invariant
            i <= items@.len(),
            items@ == sel.spec_items(),
            ps == pairs(sel.spec_items()),
            forall|k: int| 0 <= k < ps.len() ==> row_ok(#[trigger] ps[k].0.spec_span()),
            items_view(out@) == ps.take(i as int).map_values(|x: (TypeSpec, Seq<char>)| type_item(repo.spec_files(), x)),
        decreases items@.len() - i,
    {
        proof {
            assert(ps[i as int] == (*items@[i as int].item, items@[i as int].file@));
        }
        let si = &items[i];
        let qi = QueryItem::from_type_spec(si.item, si.file.as_str());
        let qi = match repo.package_for_file(si.file.as_str()) {
            Some(p) => qi.with_package(p),
            None => qi,
        };
        let ghost before = items_view(out@);
        out.push(qi);
        proof {
            assert(items_view(out@) =~= before.push(out@.last()@));
            assert(ps.take(i + 1).map_values(|x: (TypeSpec, Seq<char>)| type_item(repo.spec_files(), x)) =~= ps.take(i as int).map_values(
                |x: (TypeSpec, Seq<char>)| type_item(repo.spec_files(), x),
            ).push(type_item(repo.spec_files(), ps[i as int])));
        }
        i = i + 1;
    }
    proof {
        assert(ps.take(i as int) =~= ps);
    }
    out
}


/// The summaries of the declarations of kind `select` that pass every
/// filter, in repository order, each with its file's package. Filters that do
/// not apply to the kind are ignored.
pub fn build_query(repo: &Repo, select: &SelectKind, filters: &[Filter]) -> (r: Vec<QueryItem>)
    ensures
        items_view(r@) == query_result(repo.spec_files(), *select, filters@),
{
    let files = repo.files();
    let ghost fs = repo.spec_files();
    proof {
        assert(forall|i: int| 0 <= i < fs.len() ==> spans_fit(#[trigger] fs[i].ast));
    }
    match select {
        SelectKind::Functions => {
            let sel = repo.functions();
            proof {
                lemma_repo_funcs_rows(fs);
            }
            let sel = apply_func_filters(sel, filters);
            proof {
                lemma_func_filters_rows(repo_funcs(fs), filters@, fs);
            }
            func_items(repo, &sel)
        },
        SelectKind::Methods => {
            let sel = repo.methods();
            proof {
                lemma_repo_methods_rows(fs);
            }
            let sel = apply_method_filters(sel, filters);
            proof {
                lemma_method_filters_rows(repo_methods(fs), filters@, fs);
            }
            method_items(repo, &sel)
        },
        _ => {
            proof {
                lemma_repo_types_rows(fs);
            }
            let sel = match select {
                SelectKind::Structs => repo.structs(),
                SelectKind::Interfaces => repo.interfaces(),
                _ => repo.types(),
            };
            proof {
                let ts = repo_types(fs);
                let q = |x: (TypeSpec, Seq<char>)| row_ok(x.0.spec_span());
                assert forall|k: int| 0 <= k < ts.len() implies q(#[trigger] ts[k]) by {}
                lemma_filter_keeps(ts, |x: (TypeSpec, Seq<char>)| x.0.spec_is_struct(), q);
                lemma_filter_keeps(ts, |x: (TypeSpec, Seq<char>)| x.0.spec_is_interface(), q);
                let st = type_start(fs, *select);
                assert forall|k: int| 0 <= k < st.len() implies row_ok(#[trigger] st[k].0.spec_span()) by {
                    assert(q(st[k]));
                }
            }
            let sel = apply_type_filters(sel, filters);
            proof {
                lemma_type_filters_rows(type_start(fs, *select), filters@, fs);
            }
            type_items(repo, &sel)
        },
    }
}

/// A query: a kind of declaration and filters.
#[derive(Debug)]
pub struct QueryInput {
    pub select: SelectKind,
    pub filters: Vec<Filter>,
}

/// The answer to a query: its items and their number.
#[derive(Debug)]
pub struct QueryOutput {
    pub items: Vec<QueryItem>,
    pub count: usize,
}

/// Why a query could not be answered.
#[derive(Debug)]
pub enum QueryError {
    /// The repository could not be loaded.
    State(String),
}

impl QueryError {
    /// The message of the error.
    pub fn message(&self) -> (s: String)
        ensures
            s@ == "state error: "@ + match self {
                QueryError::State(m) => m@,
            },
    {
        match self {
            QueryError::State(m) => {
                let mut s = String::new();
                s.append("state error: ");
                s.append(m.as_str());
                s
            },
        }
    }
}

/// Answers a query over a loaded repository.
pub fn handle_query(repo: &Repo, input: &QueryInput) -> (r: QueryOutput)
    ensures
        items_view(r.items@) == query_result(repo.spec_files(), input.select, input.filters@),
        r.count == r.items@.len(),
{
    let items = build_query(repo, &input.select, input.filters.as_slice());
    let count = items.len();
    QueryOutput { items, count }
}

/// Filters that do not apply to functions (a receiver type, an interface, or
/// "excluding tests" turned off) leave a function query unchanged.
pub proof fn law_inapplicable_function_filters(
    ps: Seq<(FuncDecl, Seq<char>)>,
    fl: Seq<Filter>,
    fs: Seq<RepoFile>,
    f: Filter,
)
    requires
        f is OnType || f is Implementing || f == Filter::ExcludingTests(false),
    ensures
        func_filters(ps, fl.push(f), fs) == func_filters(ps, fl, fs),
{
    assert(fl.push(f).drop_last() =~= fl);
}

} // verus!
