//! Edit requests: a query, and an action to take on what it selects, turned
//! into changes; and the diff text of what was changed.

use vstd::prelude::*;

use crate::applied::{
    Applied, applied_failures, applied_results, diff_of, lossy_utf8, ok_count, unified_diff,
};
use crate::ast::{Block, FuncDecl, MethodDecl, TypeExpr, TypeSpec};
use crate::changes::Changes;
use crate::construct::named;
use crate::edit::{Edit, EditKindView, edits_view};
use crate::output::{spans_fit, struct_end_ok};
use crate::printer_spec::{body_text, receiver_text, signature_text};
use crate::query::{
    Filter, SelectKind, apply_func_filters, apply_method_filters, apply_type_filters, func_filters,
    lemma_filter_keeps, lemma_type_filters_keep, method_filters, type_filters, type_start,
};
use crate::repo::{funcs_in, methods_in, types_in};
use crate::output::decl_rows_ok;
use crate::repo::{Repo, RepoFile, repo_funcs, repo_methods, repo_types};
use crate::selection::{
    Selection, SelectionItem, field_line, pairs, removable_span, struct_fields, struct_span,
};
use crate::span::Span;

verus! {

/// What an edit request does to the selected declarations.
#[derive(Debug)]
pub enum EditAction {
    Delete,
    Rename(String),
    ReplaceBody(String),
    AddField { name: String, ty: String },
    RemoveField(String),
}

/// An edit request.
#[derive(Debug)]
pub struct EditInput {
    pub select: SelectKind,
    pub filters: Vec<Filter>,
    pub action: EditAction,
    pub dry_run: bool,
}

/// Why an edit request failed.
#[derive(Debug)]
pub enum EditError {
    State(String),
    EmptySelection { select: String, filters: String },
    InvalidAction(String),
    ParseFailed(String),
    CommitFailed(String),
}

/// What an edit request produced.
#[derive(Debug)]
pub struct EditResult {
    pub diff: String,
    pub files_modified: Vec<String>,
    pub edits_applied: usize,
}

/// The view of an edit.
pub type EditV = (Seq<char>, EditKindView);

/// Filtering items by a function of their pairs is filtering the pairs.
pub proof fn lemma_pairs_filter_map<T, B>(
    s: Seq<SelectionItem<&T>>,
    f: spec_fn(SelectionItem<&T>) -> Option<B>,
    g: spec_fn((T, Seq<char>)) -> Option<B>,
)
    requires
        forall|i: int| 0 <= i < s.len() ==> f(#[trigger] s[i]) == g(pairs(s)[i]),
    ensures
        s.filter_map(f) == pairs(s).filter_map(g),
    decreases s.len(),
{
    if s.len() > 0 {
        let d = s.drop_last();
        assert forall|i: int| 0 <= i < d.len() implies f(#[trigger] d[i]) == g(pairs(d)[i]) by {
            assert(d[i] == s[i]);
        }
        lemma_pairs_filter_map(d, f, g);
        assert(pairs(s).drop_last() =~= pairs(d));
        assert(f(s[s.len() - 1]) == g(pairs(s)[s.len() - 1]));
    } else {
        assert(pairs(s) =~= Seq::empty());
    }
}

/// The edit that deletes a located function.
pub open spec fn func_delete(x: (FuncDecl, Seq<char>)) -> Option<EditV> {
    if x.0.span.spec_is_synthetic() {
        None
    } else {
        Some((x.1, EditKindView::Delete { span: x.0.span }))
    }
}

/// The edit that renames a located function.
pub open spec fn func_rename(x: (FuncDecl, Seq<char>), n: Seq<char>) -> Option<EditV> {
    if x.0.name.span.spec_is_synthetic() {
        None
    } else {
        Some((x.1, EditKindView::Replace { span: x.0.name.span, new_text: n }))
    }
}

/// The edit that gives a located function a new body.
pub open spec fn func_rebody(x: (FuncDecl, Seq<char>), b: Block) -> Option<EditV> {
    if x.0.span.spec_is_synthetic() {
        None
    } else {
        Some((x.1, EditKindView::Replace {
            span: x.0.span,
            new_text: "func "@ + x.0.name.name@ + signature_text(x.0.ty) + body_text(Some(b)),
        }))
    }
}

/// The edit that deletes a located method.
pub open spec fn method_delete(x: (MethodDecl, Seq<char>)) -> Option<EditV> {
    if x.0.span.spec_is_synthetic() {
        None
    } else {
        Some((x.1, EditKindView::Delete { span: x.0.span }))
    }
}

/// The edit that renames a located method.
pub open spec fn method_rename(x: (MethodDecl, Seq<char>), n: Seq<char>) -> Option<EditV> {
    if x.0.name.span.spec_is_synthetic() {
        None
    } else {
        Some((x.1, EditKindView::Replace { span: x.0.name.span, new_text: n }))
    }
}

/// The edit that gives a located method a new body.
pub open spec fn method_rebody(x: (MethodDecl, Seq<char>), b: Block) -> Option<EditV> {
    if x.0.span.spec_is_synthetic() {
        None
    } else {
        Some((x.1, EditKindView::Replace {
            span: x.0.span,
            new_text: "func ("@ + receiver_text(x.0) + ") "@ + x.0.name.name@ + signature_text(x.0.ty) + body_text(Some(b)),
        }))
    }
}

/// The edit that deletes a located type.
pub open spec fn type_delete(x: (TypeSpec, Seq<char>)) -> Option<EditV> {
    if x.0.spec_span().spec_is_synthetic() {
        None
    } else {
        Some((x.1, EditKindView::Delete { span: x.0.spec_span() }))
    }
}

/// The edit that renames a located type.
pub open spec fn type_rename(x: (TypeSpec, Seq<char>), n: Seq<char>) -> Option<EditV> {
    if x.0.spec_name().span.spec_is_synthetic() {
        None
    } else {
        Some((x.1, EditKindView::Replace { span: x.0.spec_name().span, new_text: n }))
    }
}

/// The edit that adds the field line `\t<name> <ty>` to a located struct.
pub open spec fn type_add_field(x: (TypeSpec, Seq<char>), name: Seq<char>, ty: Seq<char>) -> Option<EditV> {
    match struct_span(x.0) {
        Some(sp) => if sp.spec_is_synthetic() {
            None
        } else {
            Some((x.1, EditKindView::InsertAfter {
                anchor_byte: (sp.end_byte - 1) as usize,
                new_text: "\t"@ + name + " "@ + ty + "\n"@,
            }))
        },
        None => None,
    }
}

/// The edit that removes a field from a located struct.
pub open spec fn type_remove_field(x: (TypeSpec, Seq<char>), name: Seq<char>) -> Option<EditV> {
    match removable_span(struct_fields(x.0), name) {
        Some(sp) => Some((x.1, EditKindView::Delete { span: sp })),
        None => None,
    }
}

/// The view of an edit error.
pub enum EditErrorV {
    State(Seq<char>),
    EmptySelection(Seq<char>, Seq<char>),
    InvalidAction(Seq<char>),
    ParseFailed(Seq<char>),
    CommitFailed(Seq<char>),
}

impl View for EditError {
    type V = EditErrorV;

    open spec fn view(&self) -> EditErrorV {
        match self {
            EditError::State(m) => EditErrorV::State(m@),
            EditError::EmptySelection { select, filters } => EditErrorV::EmptySelection(select@, filters@),
            EditError::InvalidAction(m) => EditErrorV::InvalidAction(m@),
            EditError::ParseFailed(m) => EditErrorV::ParseFailed(m@),
            EditError::CommitFailed(m) => EditErrorV::CommitFailed(m@),
        }
    }
}

/// The views of the outcome of building changes.
pub open spec fn changes_outcome(r: Result<Changes, EditError>) -> Result<Seq<EditV>, EditErrorV> {
    match r {
        Ok(c) => Ok(edits_view(c.edits@)),
        Err(e) => Err(e@),
    }
}

/// The replacement body handed to an edit, parsed by the caller: `None` when
/// there is none, else the parsed block or the parse error's message.
pub open spec fn body_outcome(body: Option<Result<Block, String>>) -> Result<Block, Seq<char>> {
    match body {
        Some(Ok(b)) => Ok(b),
        Some(Err(m)) => Err(m@),
        None => Err("could not extract block"@),
    }
}

/// What an edit request on functions produces.
pub open spec fn func_outcome(
    ps: Seq<(FuncDecl, Seq<char>)>,
    action: EditAction,
    body: Option<Result<Block, String>>,
) -> Result<Seq<EditV>, EditErrorV> {
    match action {
        EditAction::Delete => Ok(ps.filter_map(|x: (FuncDecl, Seq<char>)| func_delete(x))),
        EditAction::Rename(n) => Ok(ps.filter_map(|x: (FuncDecl, Seq<char>)| func_rename(x, n@))),
        EditAction::ReplaceBody(_) => match body_outcome(body) {
            Ok(b) => Ok(ps.filter_map(|x: (FuncDecl, Seq<char>)| func_rebody(x, b))),
            Err(m) => Err(EditErrorV::ParseFailed(m)),
        },
        EditAction::AddField { .. } => Err(EditErrorV::InvalidAction("add_field is not valid for functions"@)),
        EditAction::RemoveField(_) => Err(EditErrorV::InvalidAction("remove_field is not valid for functions"@)),
    }
}

/// What an edit request on methods produces.
pub open spec fn method_outcome(
    ps: Seq<(MethodDecl, Seq<char>)>,
    action: EditAction,
    body: Option<Result<Block, String>>,
) -> Result<Seq<EditV>, EditErrorV> {
    match action {
        EditAction::Delete => Ok(ps.filter_map(|x: (MethodDecl, Seq<char>)| method_delete(x))),
        EditAction::Rename(n) => Ok(ps.filter_map(|x: (MethodDecl, Seq<char>)| method_rename(x, n@))),
        EditAction::ReplaceBody(_) => match body_outcome(body) {
            Ok(b) => Ok(ps.filter_map(|x: (MethodDecl, Seq<char>)| method_rebody(x, b))),
            Err(m) => Err(EditErrorV::ParseFailed(m)),
        },
        EditAction::AddField { .. } => Err(EditErrorV::InvalidAction("add_field is not valid for methods"@)),
        EditAction::RemoveField(_) => Err(EditErrorV::InvalidAction("remove_field is not valid for methods"@)),
    }
}

/// What an edit request on types produces.
pub open spec fn type_outcome(
    ps: Seq<(TypeSpec, Seq<char>)>,
    action: EditAction,
) -> Result<Seq<EditV>, EditErrorV> {
    match action {
        EditAction::Delete => Ok(ps.filter_map(|x: (TypeSpec, Seq<char>)| type_delete(x))),
        EditAction::Rename(n) => Ok(ps.filter_map(|x: (TypeSpec, Seq<char>)| type_rename(x, n@))),
        EditAction::ReplaceBody(_) => Err(EditErrorV::InvalidAction("replace_body is not valid for types"@)),
        EditAction::AddField { name, ty } => Ok(ps.filter_map(|x: (TypeSpec, Seq<char>)| type_add_field(x, name@, ty@))),
        EditAction::RemoveField(f) => Ok(ps.filter_map(|x: (TypeSpec, Seq<char>)| type_remove_field(x, f@))),
    }
}

/// What an edit request produces on a repository: the edits of its action
/// on the declarations its query selects, or why it cannot be done.
pub open spec fn edit_outcome(
    fs: Seq<RepoFile>,
    select: SelectKind,
    fl: Seq<Filter>,
    action: EditAction,
    body: Option<Result<Block, String>>,
) -> Result<Seq<EditV>, EditErrorV> {
    match select {
        SelectKind::Functions => func_outcome(func_filters(repo_funcs(fs), fl, fs), action, body),
        SelectKind::Methods => method_outcome(method_filters(repo_methods(fs), fl, fs), action, body),
        _ => type_outcome(type_filters(type_start(fs, select), fl, fs), action),
    }
}


/// The struct definitions of declarations whose spans fit end after the first byte.
proof fn lemma_types_in_struct_ok(ds: Seq<crate::ast::TopLevelDecl>)
    requires
        forall|i: int| 0 <= i < ds.len() ==> decl_rows_ok(#[trigger] ds[i]),
    ensures
        forall|k: int| 0 <= k < types_in(ds).len() ==> struct_end_ok(#[trigger] types_in(ds)[k]),
    decreases ds.len(),
{
    if ds.len() > 0 {
        let d = ds.drop_last();
        assert forall|i: int| 0 <= i < d.len() implies decl_rows_ok(#[trigger] d[i]) by {
            assert(d[i] == ds[i]);
        }
        lemma_types_in_struct_ok(d);
        assert(decl_rows_ok(ds[ds.len() - 1]));
        let r = types_in(d);
        let t = types_in(ds);
        assert forall|k: int| 0 <= k < t.len() implies struct_end_ok(#[trigger] t[k]) by {
            if k < r.len() {
                assert(t[k] == r[k]);
            } else {
                match ds.last() {
                    crate::ast::TopLevelDecl::Type(specs) => {
                        assert(t[k] == specs@[k - r.len()]);
                        assert(row_ok_spec(specs@[k - r.len()]));
                    },
                    _ => {},
                }
            }
        }
    }
}

/// A type specification's span rows fit (a trigger for the file invariant).
spec fn row_ok_spec(t: TypeSpec) -> bool {
    crate::output::row_ok(t.spec_span())
}

/// Every struct definition of a repository whose files fit ends after the
/// first byte.
proof fn lemma_repo_types_struct_ok(fs: Seq<RepoFile>)
    requires
        forall|i: int| 0 <= i < fs.len() ==> spans_fit(#[trigger] fs[i].ast),
    ensures
        forall|k: int| 0 <= k < repo_types(fs).len() ==> struct_end_ok(#[trigger] repo_types(fs)[k].0),
    decreases fs.len(),
{
    if fs.len() > 0 {
        let d = fs.drop_last();
        assert forall|i: int| 0 <= i < d.len() implies spans_fit(#[trigger] d[i].ast) by {
            assert(d[i] == fs[i]);
        }
        lemma_repo_types_struct_ok(d);
        assert(spans_fit(fs[fs.len() - 1].ast));
        lemma_types_in_struct_ok(fs.last().ast.decls@);
        let r = repo_types(d);
        let t = repo_types(fs);
        assert forall|k: int| 0 <= k < t.len() implies struct_end_ok(#[trigger] t[k].0) by {
            if k < r.len() {
                assert(t[k] == r[k]);
                assert(struct_end_ok(r[k].0));
            } else {
                assert(t[k].0 == types_in(fs.last().ast.decls@)[k - r.len()]);
                assert(struct_end_ok(types_in(fs.last().ast.decls@)[k - r.len()]));
            }
        }
    }
}

/// The block of a replacement body, or the message of why there is none.
fn take_body(body: Option<Result<Block, String>>) -> (r: Result<Block, String>)
    ensures
        match r {
            Ok(b) => body_outcome(body) == Ok::<Block, Seq<char>>(b),
            Err(m) => body_outcome(body) == Err::<Block, Seq<char>>(m@),
        },
{
    match body {
        Some(Ok(b)) => Ok(b),
        Some(Err(m)) => Err(m),
        None => Err("could not extract block".to_string()),
    }
}

/// The changes an edit request makes on functions.
fn function_changes(sel: Selection<&FuncDecl>, action: &EditAction, body: Option<Result<Block, String>>) -> (r: Result<Changes, EditError>)
    ensures
        changes_outcome(r) == func_outcome(pairs(sel.spec_items()), *action, body),
{
    let ghost items = sel.spec_items();
    match action {
        EditAction::Delete => {
            let c = sel.delete();
            proof {
                lemma_pairs_filter_map(
                    items,
                    |si: SelectionItem<&FuncDecl>| if si.item.span.spec_is_synthetic() { None } else { Some((si.file@, EditKindView::Delete { span: si.item.span })) },
                    |x: (FuncDecl, Seq<char>)| func_delete(x),
                );
            }
            Ok(c)
        },
        EditAction::Rename(n) => {
            let c = sel.rename(n.as_str());
            proof {
                lemma_pairs_filter_map(
                    items,
                    |si: SelectionItem<&FuncDecl>| if si.item.name.span.spec_is_synthetic() { None } else { Some((si.file@, EditKindView::Replace { span: si.item.name.span, new_text: n@ })) },
                    |x: (FuncDecl, Seq<char>)| func_rename(x, n@),
                );
            }
            Ok(c)
        },
        EditAction::ReplaceBody(_) => match take_body(body) {
            Ok(b) => {
                let ghost bv = b;
                let c = sel.replace_body(b);
                proof {
                    lemma_pairs_filter_map(
                        items,
                        |si: SelectionItem<&FuncDecl>| if si.item.span.spec_is_synthetic() { None } else { Some((si.file@, EditKindView::Replace { span: si.item.span, new_text: "func "@ + si.item.name.name@ + signature_text(si.item.ty) + body_text(Some(bv)) })) },
                        |x: (FuncDecl, Seq<char>)| func_rebody(x, bv),
                    );
                }
                Ok(c)
            },
            Err(m) => Err(EditError::ParseFailed(m)),
        },
        EditAction::AddField { .. } => Err(EditError::InvalidAction("add_field is not valid for functions".to_string())),
        EditAction::RemoveField(_) => Err(EditError::InvalidAction("remove_field is not valid for functions".to_string())),
    }
}

/// The changes an edit request makes on methods.
fn method_changes(sel: Selection<&MethodDecl>, action: &EditAction, body: Option<Result<Block, String>>) -> (r: Result<Changes, EditError>)
    ensures
        changes_outcome(r) == method_outcome(pairs(sel.spec_items()), *action, body),
{
    let ghost items = sel.spec_items();
    match action {
        EditAction::Delete => {
            let c = sel.delete();
            proof {
                lemma_pairs_filter_map(
                    items,
                    |si: SelectionItem<&MethodDecl>| if si.item.span.spec_is_synthetic() { None } else { Some((si.file@, EditKindView::Delete { span: si.item.span })) },
                    |x: (MethodDecl, Seq<char>)| method_delete(x),
                );
            }
            Ok(c)
        },
        EditAction::Rename(n) => {
            let c = sel.rename(n.as_str());
            proof {
                lemma_pairs_filter_map(
                    items,
                    |si: SelectionItem<&MethodDecl>| if si.item.name.span.spec_is_synthetic() { None } else { Some((si.file@, EditKindView::Replace { span: si.item.name.span, new_text: n@ })) },
                    |x: (MethodDecl, Seq<char>)| method_rename(x, n@),
                );
            }
            Ok(c)
        },
        EditAction::ReplaceBody(_) => match take_body(body) {
            Ok(b) => {
                let ghost bv = b;
                let c = sel.replace_body(b);
                proof {
                    lemma_pairs_filter_map(
                        items,
                        |si: SelectionItem<&MethodDecl>| if si.item.span.spec_is_synthetic() { None } else { Some((si.file@, EditKindView::Replace { span: si.item.span, new_text: "func ("@ + receiver_text(*si.item) + ") "@ + si.item.name.name@ + signature_text(si.item.ty) + body_text(Some(bv)) })) },
                        |x: (MethodDecl, Seq<char>)| method_rebody(x, bv),
                    );
                }
                Ok(c)
            },
            Err(m) => Err(EditError::ParseFailed(m)),
        },
        EditAction::AddField { .. } => Err(EditError::InvalidAction("add_field is not valid for methods".to_string())),
        EditAction::RemoveField(_) => Err(EditError::InvalidAction("remove_field is not valid for methods".to_string())),
    }
}

/// The changes an edit request makes on types.
fn type_changes(sel: Selection<&TypeSpec>, action: &EditAction) -> (r: Result<Changes, EditError>)
    requires
        forall|k: int| 0 <= k < pairs(sel.spec_items()).len() ==> struct_end_ok(#[trigger] pairs(sel.spec_items())[k].0),
    ensures
        changes_outcome(r) == type_outcome(pairs(sel.spec_items()), *action),
{
    let ghost items = sel.spec_items();
    match action {
        EditAction::Delete => {
            let c = sel.delete();
            proof {
                lemma_pairs_filter_map(
                    items,
                    |si: SelectionItem<&TypeSpec>| if si.item.spec_span().spec_is_synthetic() { None } else { Some((si.file@, EditKindView::Delete { span: si.item.spec_span() })) },
                    |x: (TypeSpec, Seq<char>)| type_delete(x),
                );
            }
            Ok(c)
        },
        EditAction::Rename(n) => {
            let c = sel.rename(n.as_str());
            proof {
                lemma_pairs_filter_map(
                    items,
                    |si: SelectionItem<&TypeSpec>| if si.item.spec_name().span.spec_is_synthetic() { None } else { Some((si.file@, EditKindView::Replace { span: si.item.spec_name().span, new_text: n@ })) },
                    |x: (TypeSpec, Seq<char>)| type_rename(x, n@),
                );
            }
            Ok(c)
        },
        EditAction::ReplaceBody(_) => Err(EditError::InvalidAction("replace_body is not valid for types".to_string())),
        EditAction::AddField { name, ty } => {
            let t = named(ty.as_str());
            let ghost tv = t;
            proof {
                assert forall|i: int| 0 <= i < items.len() implies match struct_span(*(#[trigger] items[i]).item) {
                    Some(sp) => !sp.spec_is_synthetic() ==> sp.end_byte > 0,
                    None => true,
                } by {
                    assert(pairs(items)[i].0 == *items[i].item);
                    assert(struct_end_ok(pairs(items)[i].0));
                }
                assert(field_line(name@, tv) =~= "\t"@ + name@ + " "@ + ty@ + "\n"@);
            }
            let c = sel.add_field(name.as_str(), t);
            proof {
                lemma_pairs_filter_map(
                    items,
                    |si: SelectionItem<&TypeSpec>| match struct_span(*si.item) {
                        Some(sp) => if sp.spec_is_synthetic() {
                            None
                        } else {
                            Some((si.file@, EditKindView::InsertAfter {
                                anchor_byte: (sp.end_byte - 1) as usize,
                                new_text: field_line(name@, tv),
                            }))
                        },
                        None => None,
                    },
                    |x: (TypeSpec, Seq<char>)| type_add_field(x, name@, ty@),
                );
            }
            Ok(c)
        },
        EditAction::RemoveField(f) => {
            let c = sel.remove_field(f.as_str());
            proof {
                lemma_pairs_filter_map(
                    items,
                    |si: SelectionItem<&TypeSpec>| match removable_span(struct_fields(*si.item), f@) {
                        Some(sp) => Some((si.file@, EditKindView::Delete { span: sp })),
                        None => None,
                    },
                    |x: (TypeSpec, Seq<char>)| type_remove_field(x, f@),
                );
            }
            Ok(c)
        },
    }
}

/// The changes an edit request makes: its action on the declarations its
/// query selects. The replacement body of `replace_body` comes parsed.
pub fn build_changes(
    repo: &Repo,
    select: &SelectKind,
    filters: &[Filter],
    action: &EditAction,
    body: Option<Result<Block, String>>,
) -> (r: Result<Changes, EditError>)
    ensures
        changes_outcome(r) == edit_outcome(repo.spec_files(), *select, filters@, *action, body),
{
    let files = repo.files();
    let ghost fs = repo.spec_files();
    match select {
        SelectKind::Functions => {
            let sel = apply_func_filters(repo.functions(), filters);
            function_changes(sel, action, body)
        },
        SelectKind::Methods => {
            let sel = apply_method_filters(repo.methods(), filters);
            method_changes(sel, action, body)
        },
        _ => {
            proof {
                assert(files@ == fs);
                lemma_repo_types_struct_ok(fs);
            }
            let sel = match select {
                SelectKind::Structs => repo.structs(),
                SelectKind::Interfaces => repo.interfaces(),
                _ => repo.types(),
            };
            proof {
                let ts = repo_types(fs);
                let q = |x: (TypeSpec, Seq<char>)| struct_end_ok(x.0);
                assert forall|k: int| 0 <= k < ts.len() implies q(#[trigger] ts[k]) by {}
                lemma_filter_keeps(ts, |x: (TypeSpec, Seq<char>)| x.0.spec_is_struct(), q);
                lemma_filter_keeps(ts, |x: (TypeSpec, Seq<char>)| x.0.spec_is_interface(), q);
                let st = type_start(fs, *select);
                assert forall|k: int| 0 <= k < st.len() implies q(#[trigger] st[k]) by {}
                lemma_type_filters_keep(st, filters@, fs, q);
            }
            let sel = apply_type_filters(sel, filters);
            proof {
                let q = |x: (TypeSpec, Seq<char>)| struct_end_ok(x.0);
                let ps = pairs(sel.spec_items());
                assert forall|k: int| 0 <= k < ps.len() implies struct_end_ok(#[trigger] ps[k].0) by {
                    assert(q(ps[k]));
                }
            }
            type_changes(sel, action)
        },
    }
}


/// The text `format!("{:?}", s)` gives for a string slice.
pub uninterp spec fn debug_text(s: Seq<char>) -> Seq<char>;

/// `<str as Debug>::fmt`, through `format!("{:?}", s)`: the quoted, escaped
/// text of a string slice. Its exact escapes are named by `debug_text`.
#[verifier::external_body]
fn str_debug(s: &str) -> (r: String)
    ensures
        r@ == debug_text(s@),
{
    format!("{:?}", s)
}

/// The debug text of a query kind.
pub open spec fn select_text(k: SelectKind) -> Seq<char> {
    match k {
        SelectKind::Functions => "Functions"@,
        SelectKind::Methods => "Methods"@,
        SelectKind::Structs => "Structs"@,
        SelectKind::Interfaces => "Interfaces"@,
        SelectKind::Types => "Types"@,
    }
}

/// The debug text of a boolean.
pub open spec fn bool_text(b: bool) -> Seq<char> {
    if b { "true"@ } else { "false"@ }
}

/// The debug text of a filter.
pub open spec fn filter_text(f: Filter) -> Seq<char> {
    match f {
        Filter::Named(s) => "Named("@ + debug_text(s@) + ")"@,
        Filter::InPackage(s) => "InPackage("@ + debug_text(s@) + ")"@,
        Filter::Exported(b) => "Exported("@ + bool_text(b) + ")"@,
        Filter::ExcludingTests(b) => "ExcludingTests("@ + bool_text(b) + ")"@,
        Filter::OnType(s) => "OnType("@ + debug_text(s@) + ")"@,
        Filter::Implementing(s) => "Implementing("@ + debug_text(s@) + ")"@,
    }
}

/// Debug texts of filters separated by `", "`.
pub open spec fn filters_join(fl: Seq<Filter>) -> Seq<char>
    decreases fl.len(),
{
    if fl.len() == 0 {
        Seq::empty()
    } else if fl.len() == 1 {
        filter_text(fl[0])
    } else {
        filters_join(fl.drop_last()) + ", "@ + filter_text(fl.last())
    }
}

/// The debug text of a list of filters.
pub open spec fn filters_text(fl: Seq<Filter>) -> Seq<char> {
    "["@ + filters_join(fl) + "]"@
}

/// The debug text of a query kind.
pub fn select_debug(k: &SelectKind) -> (s: String)
    ensures
        s@ == select_text(*k),
{
    match k {
        SelectKind::Functions => "Functions".to_string(),
        SelectKind::Methods => "Methods".to_string(),
        SelectKind::Structs => "Structs".to_string(),
        SelectKind::Interfaces => "Interfaces".to_string(),
        SelectKind::Types => "Types".to_string(),
    }
}

/// The debug text of a filter.
fn filter_debug(f: &Filter) -> (s: String)
    ensures
        s@ == filter_text(*f),
{
    let mut s = String::new();
    match f {
        Filter::Named(x) => {
            s.append("Named(");
            let d = str_debug(x.as_str());
            s.append(d.as_str());
            s.append(")");
        },
        Filter::InPackage(x) => {
            s.append("InPackage(");
            let d = str_debug(x.as_str());
            s.append(d.as_str());
            s.append(")");
        },
        Filter::Exported(b) => {
            s.append("Exported(");
            s.append(if *b { "true" } else { "false" });
            s.append(")");
        },
        Filter::ExcludingTests(b) => {
            s.append("ExcludingTests(");
            s.append(if *b { "true" } else { "false" });
            s.append(")");
        },
        Filter::OnType(x) => {
            s.append("OnType(");
            let d = str_debug(x.as_str());
            s.append(d.as_str());
            s.append(")");
        },
        Filter::Implementing(x) => {
            s.append("Implementing(");
            let d = str_debug(x.as_str());
            s.append(d.as_str());
            s.append(")");
        },
    }
    s
}

/// The debug text of a list of filters.
pub fn filters_debug(fl: &[Filter]) -> (s: String)
    ensures
        s@ == filters_text(fl@),
{
    let mut s = String::new();
    let mut i: usize = 0;
    while i < fl.len()
        invariant
            i <= fl@.len(),
            s@ == filters_join(fl@.take(i as int)),
        decreases fl@.len() - i,
    {
        proof {
            assert(fl@.take(i + 1).drop_last() =~= fl@.take(i as int));
            assert(fl@.take(i + 1).last() == fl@[i as int]);
            if i == 0 {
                assert(fl@.take(1)[0] == fl@[0]);
            }
        }
        if i > 0 {
            s.append(", ");
        }
        let d = filter_debug(&fl[i]);
        s.append(d.as_str());
        proof {
            if i == 0 {
                assert(s@ =~= filters_join(fl@.take(1)));
            }
        }
        i = i + 1;
    }
    proof {
        assert(fl@.take(i as int) =~= fl@);
    }
    let mut out = String::new();
    out.append("[");
    out.append(s.as_str());
    out.append("]");
    out
}

/// The changes of an edit request, or why it cannot be done; a request that
/// selects nothing to change is an empty selection.
pub fn edit_changes(repo: &Repo, input: &EditInput, body: Option<Result<Block, String>>) -> (r: Result<Changes, EditError>)
    ensures
        match edit_outcome(repo.spec_files(), input.select, input.filters@, input.action, body) {
            Ok(es) => if es.len() == 0 {
                r matches Err(e) && e@ == EditErrorV::EmptySelection(select_text(input.select), filters_text(input.filters@))
            } else {
                r matches Ok(c) && edits_view(c.edits@) == es
            },
            Err(e) => r matches Err(e2) && e2@ == e,
        },
{
    let c = build_changes(repo, &input.select, input.filters.as_slice(), &input.action, body)?;
    if c.is_empty() {
        return Err(EditError::EmptySelection {
            select: select_debug(&input.select),
            filters: filters_debug(input.filters.as_slice()),
        });
    }
    Ok(c)
}

/// The unified diffs of the modified files (path and new text) against their
/// old texts, file after file; files whose old text is unknown are
/// left out.
pub open spec fn edit_diff_text(modified: Seq<(Seq<char>, Seq<char>)>, old_texts: Seq<Option<Seq<char>>>) -> Seq<char>
    decreases modified.len(),
{
    if modified.len() == 0 || old_texts.len() < modified.len() {
        Seq::empty()
    } else {
        let k = modified.len() - 1;
        edit_diff_text(modified.drop_last(), old_texts.take(k)) + match old_texts[k] {
            Some(o) => diff_of(modified[k].0, o, modified[k].1),
            None => Seq::empty(),
        }
    }
}

/// The texts of path and content pairs.
pub open spec fn texts_view(m: Seq<(String, String)>) -> Seq<(Seq<char>, Seq<char>)> {
    m.map_values(|x: (String, String)| (x.0@, x.1@))
}

/// The texts of optional strings.
pub open spec fn opt_texts(o: Seq<Option<String>>) -> Seq<Option<Seq<char>>> {
    o.map_values(
        |x: Option<String>| match x {
            Some(t) => Some(t@),
            None => None,
        },
    )
}

/// The unified diffs of the modified files against their old texts.
pub fn edit_diff(modified: &[(String, String)], old_texts: &[Option<String>]) -> (s: String)
    requires
        old_texts@.len() == modified@.len(),
    ensures
        s@ == edit_diff_text(texts_view(modified@), opt_texts(old_texts@)),
{
    let ghost mv = texts_view(modified@);
    let ghost ov = opt_texts(old_texts@);
    let mut s = String::new();
    let mut i: usize = 0;
    while i < modified.len()
        invariant
            i <= modified@.len(),
            old_texts@.len() == modified@.len(),
            mv == texts_view(modified@),
            ov == opt_texts(old_texts@),
            s@ == edit_diff_text(mv.take(i as int), ov.take(i as int)),
        decreases modified@.len() - i,
    {
        proof {
            assert(mv.take(i + 1).drop_last() =~= mv.take(i as int));
            assert(ov.take(i + 1).take(i as int) =~= ov.take(i as int));
            assert(mv.take(i + 1)[i as int] == mv[i as int]);
            assert(ov.take(i + 1)[i as int] == ov[i as int]);
        }
        match &old_texts[i] {
            Some(o) => {
                let d = unified_diff(modified[i].0.as_str(), o.as_str(), modified[i].1.as_str());
                s.append(d.as_str());
            },
            None => {},
        }
        i = i + 1;
    }
    proof {
        assert(mv.take(i as int) =~= mv);
        assert(ov.take(i as int) =~= ov);
    }
    s
}

/// The new contents of applied results as text, invalid UTF-8 replaced.
pub open spec fn lossy_texts(rs: Seq<(Seq<char>, Seq<u8>)>) -> Seq<(Seq<char>, Seq<char>)> {
    rs.map_values(|x: (Seq<char>, Seq<u8>)| (x.0, lossy_utf8(x.1)))
}

/// What an edit request reports of applied changes: the diff of each modified
/// file against its old text (given in the same order), the modified
/// files, and the number of edits applied.
pub fn edit_result(applied: &Applied, old_texts: &[Option<String>]) -> (r: EditResult)
    requires
        old_texts@.len() == applied.spec_results().len(),
    ensures
        r.diff@ == edit_diff_text(lossy_texts(applied.spec_results()), opt_texts(old_texts@)),
        r.files_modified@.map_values(|f: String| f@) == applied.spec_results().map_values(
            |x: (Seq<char>, Seq<u8>)| x.0,
        ),
        r.edits_applied == applied.spec_edit_count(),
{
    let modified = applied.dry_run();
    proof {
        assert(texts_view(modified@) =~= lossy_texts(applied.spec_results()));
    }
    let diff = edit_diff(modified.as_slice(), old_texts);
    let paths = applied.affected_files();
    let mut files: Vec<String> = Vec::new();
    let mut k: usize = 0;
    while k < paths.len()
        invariant
            k <= paths@.len(),
            paths@.len() == applied.spec_results().len(),
            forall|j: int| 0 <= j < paths@.len() ==> (#[trigger] paths@[j])@ == applied.spec_results()[j].0,
            files@.map_values(|f: String| f@) == applied.spec_results().take(k as int).map_values(
                |x: (Seq<char>, Seq<u8>)| x.0,
            ),
        decreases paths@.len() - k,
    {
        let ghost f0 = files@.map_values(|f: String| f@);
        files.push(paths[k].to_string());
        proof {
            assert(files@.map_values(|f: String| f@) =~= f0.push(paths@[k as int]@));
            assert(applied.spec_results().take(k + 1).map_values(|x: (Seq<char>, Seq<u8>)| x.0) =~= applied.spec_results().take(
                k as int,
            ).map_values(|x: (Seq<char>, Seq<u8>)| x.0).push(applied.spec_results()[k as int].0));
        }
        k = k + 1;
    }
    proof {
        assert(applied.spec_results().take(k as int) =~= applied.spec_results());
    }
    EditResult { diff, files_modified: files, edits_applied: applied.edit_count() }
}

/// An edit request on a repository: its changes, applied in memory, or why
/// there are none (as `edit_changes` says). Nothing is written.
pub fn handle_edit<'a>(repo: &'a Repo, input: &EditInput, body: Option<Result<Block, String>>) -> (r: Result<
    Applied<'a>,
    EditError,
>)
    ensures
        match edit_outcome(repo.spec_files(), input.select, input.filters@, input.action, body) {
            Ok(es) => if es.len() == 0 {
                r matches Err(e) && e@ == EditErrorV::EmptySelection(select_text(input.select), filters_text(input.filters@))
            } else {
                r matches Ok(a) && a.spec_repo() == *repo && exists|s: Seq<Edit>|
                    #![trigger applied_results(repo.spec_files(), s)]
                    edits_view(s) == es && a.spec_results() == applied_results(repo.spec_files(), s)
                        && a.spec_failures() == applied_failures(repo.spec_files(), s) && a.spec_edit_count()
                        == ok_count(repo.spec_files(), s, s)
            },
            Err(e) => r matches Err(e2) && e2@ == e,
        },
{
    let ghost out = edit_outcome(repo.spec_files(), input.select, input.filters@, input.action, body);
    let c = edit_changes(repo, input, body)?;
    let ghost s = c.edits@;
    let a = repo.apply(c);
    proof {
        assert(applied_results(repo.spec_files(), s) == a.spec_results());
    }
    Ok(a)
}

impl EditError {
    /// The message of the error.
    pub fn message(&self) -> (s: String)
        ensures
            s@ == match self@ {
                EditErrorV::State(m) => "state error: "@ + m,
                EditErrorV::EmptySelection(k, f) => "no items matched (select: "@ + k + ", filters: "@ + f + ")"@,
                EditErrorV::InvalidAction(m) => "invalid action for this selection: "@ + m,
                EditErrorV::ParseFailed(m) => "parse failed: "@ + m,
                EditErrorV::CommitFailed(m) => "failed to write changes: "@ + m,
            },
    {
        let mut s = String::new();
        match self {
            EditError::State(m) => {
                s.append("state error: ");
                s.append(m.as_str());
            },
            EditError::EmptySelection { select, filters } => {
                s.append("no items matched (select: ");
                s.append(select.as_str());
                s.append(", filters: ");
                s.append(filters.as_str());
                s.append(")");
            },
            EditError::InvalidAction(m) => {
                s.append("invalid action for this selection: ");
                s.append(m.as_str());
            },
            EditError::ParseFailed(m) => {
                s.append("parse failed: ");
                s.append(m.as_str());
            },
            EditError::CommitFailed(m) => {
                s.append("failed to write changes: ");
                s.append(m.as_str());
            },
        }
        s
    }
}

} // verus!
