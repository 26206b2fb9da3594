//! Filterable selections of declarations from a repository, and the changes
//! they produce.

use vstd::prelude::*;

use crate::ast::{Block, FieldDecl, FuncDecl, FuncType, InterfaceElem, MethodDecl, TypeExpr, TypeSpec};
use crate::leaf::Ident;
use crate::changes::Changes;
use crate::edit::{Edit, EditKind, EditKindView, edits_view};
use crate::printer::Printer;
use crate::printer_spec::{body_text, method_decl_text, receiver_text, signature_text, type_text};
use crate::span::Span;
use crate::types::signature_match;
use crate::leaf::spec_is_exported;
use crate::repo::{Repo, package_of, repo_methods, repo_types};
use crate::text::{before_last, before_last_of};
use crate::text::{ends_with, last_segment, last_segment_of, seq_ends_with, str_eq};

verus! {

/// A declaration together with the path of the file that holds it.
#[derive(Debug)]
pub struct SelectionItem<T> {
    pub item: T,
    pub file: String,
}

/// An eager, filterable collection of declarations from a [`Repo`].
///
/// Filters narrow the selection; the change producers turn it into edits.
#[derive(Debug)]
pub struct Selection<'repo, T> {
    repo: &'repo Repo,
    items: Vec<SelectionItem<T>>,
}

/// Each declaration of a selection with the path of its file.
pub open spec fn pairs<T>(s: Seq<SelectionItem<&T>>) -> Seq<(T, Seq<char>)> {
    s.map_values(|si: SelectionItem<&T>| (*si.item, si.file@))
}

/// The elements of `s` whose flag is set, in order.
pub open spec fn keep<A>(s: Seq<A>, flags: Seq<bool>) -> Seq<A>
    decreases s.len(),
{
    if s.len() == 0 {
        Seq::empty()
    } else {
        let rest = keep(s.drop_last(), flags.take(s.len() - 1));
        if flags[s.len() - 1] {
            rest.push(s.last())
        } else {
            rest
        }
    }
}

/// Keeps the items whose flag is set, in order.
fn retain_flagged<T>(items: Vec<SelectionItem<T>>, flags: &Vec<bool>) -> (r: Vec<SelectionItem<T>>)
    requires
        flags@.len() == items@.len(),
    ensures
        r@ == keep(items@, flags@),
{
    let ghost orig = items@;
    let mut items = items;
    let mut out: Vec<SelectionItem<T>> = Vec::new();
    let total = items.len();
    let mut i: usize = 0;
    while items.len() > 0
        invariant
            i <= orig.len(),
            i + items@.len() == orig.len(),
            orig.len() == total,
            flags@.len() == orig.len(),
            items@ == orig.skip(i as int),
            out@ == keep(orig.take(i as int), flags@.take(i as int)),
        decreases items.len(),
    {
        let si = items.remove(0);
        proof {
            assert(orig.take(i + 1).drop_last() =~= orig.take(i as int));
            assert(flags@.take(i + 1).take(i as int) =~= flags@.take(i as int));
        }
        if flags[i] {
            out.push(si);
        }
        i = i + 1;
        proof {
            assert(items@ =~= orig.skip(i as int));
        }
    }
    proof {
        assert(orig.take(i as int) =~= orig);
        assert(flags@.take(i as int) =~= flags@);
    }
    out
}

/// `keep` with flags given by a predicate is the predicate's filter.
pub proof fn lemma_keep_filter<A>(s: Seq<A>, flags: Seq<bool>, p: spec_fn(A) -> bool)
    requires
        flags.len() == s.len(),
        forall|i: int| 0 <= i < s.len() ==> flags[i] == p(#[trigger] s[i]),
    ensures
        keep(s, flags) == s.filter(p),
    decreases s.len(),
{
    reveal(Seq::filter);
    if s.len() > 0 {
        let n = s.len() - 1;
        assert forall|i: int| 0 <= i < s.drop_last().len() implies flags.take(n)[i] == p(
            #[trigger] s.drop_last()[i],
        ) by {
            assert(s.drop_last()[i] == s[i]);
        }
        lemma_keep_filter(s.drop_last(), flags.take(n), p);
        assert(flags[n] == p(s[n]));
        assert(s.last() == s[n]);
        assert(keep(s, flags) == (if flags[n] {
            keep(s.drop_last(), flags.take(n)).push(s.last())
        } else {
            keep(s.drop_last(), flags.take(n))
        }));
    } else {
        assert(s =~= Seq::empty());
    }
}

/// Filtering items and then pairing them is pairing and then filtering, with
/// matching predicates.
pub proof fn lemma_pairs_filter<T>(
    s: Seq<SelectionItem<&T>>,
    p: spec_fn(SelectionItem<&T>) -> bool,
    q: spec_fn((T, Seq<char>)) -> bool,
)
    requires
        forall|i: int| 0 <= i < s.len() ==> p(#[trigger] s[i]) == q(pairs(s)[i]),
    ensures
        pairs(s.filter(p)) == pairs(s).filter(q),
    decreases s.len(),
{
    reveal(Seq::filter);
    if s.len() > 0 {
        let d = s.drop_last();
        assert forall|i: int| 0 <= i < d.len() implies p(#[trigger] d[i]) == q(pairs(d)[i]) by {
            assert(d[i] == s[i]);
        }
        lemma_pairs_filter(d, p, q);
        assert(pairs(s).drop_last() =~= pairs(d));
        assert(p(s[s.len() - 1]) == q(pairs(s)[s.len() - 1]));
        let fd = d.filter(p);
        assert(pairs(fd.push(s.last())) =~= pairs(fd).push(pairs(s).last()));
    } else {
        assert(pairs(s) =~= Seq::empty());
    }
}

/// Keeps the items on which `p` holds, given flags computed from `p`.
fn retain_where<T>(items: Vec<SelectionItem<T>>, flags: &Vec<bool>, Ghost(p): Ghost<
    spec_fn(SelectionItem<T>) -> bool,
>) -> (r: Vec<SelectionItem<T>>)
    requires
        flags@.len() == items@.len(),
        forall|i: int| 0 <= i < items@.len() ==> flags@[i] == p(#[trigger] items@[i]),
    ensures
        r@ == items@.filter(p),
{
    proof {
        lemma_keep_filter(items@, flags@, p);
    }
    retain_flagged(items, flags)
}

impl<'repo, T> Selection<'repo, T> {
    /// The repository the selection was drawn from.
    pub closed spec fn spec_repo(&self) -> Repo {
        *self.repo
    }

    /// The selected items, in order.
    pub closed spec fn spec_items(&self) -> Seq<SelectionItem<T>> {
        self.items@
    }

    /// A selection of `items` drawn from `repo`.
    pub(crate) fn from_parts(repo: &'repo Repo, items: Vec<SelectionItem<T>>) -> (s: Self)
        ensures
            s.spec_repo() == *repo,
            s.spec_items() == items@,
    {
        Selection { repo, items }
    }

    /// Retains only the items on which `predicate` returns `true`.
    pub fn filter<F: Fn(&T) -> bool>(self, predicate: F) -> (r: Self)
        requires
            forall|i: int|
                0 <= i < self.spec_items().len() ==> call_requires(
                    predicate,
                    (&#[trigger] self.spec_items()[i].item,),
                ),
        ensures
            r.spec_repo() == self.spec_repo(),
            exists|flags: Seq<bool>|
                {
                    &&& flags.len() == self.spec_items().len()
                    &&& forall|i: int|
                        0 <= i < flags.len() ==> call_ensures(
                            predicate,
                            (&#[trigger] self.spec_items()[i].item,),
                            flags[i],
                        )
                    &&& r.spec_items() == keep(self.spec_items(), flags)
                },
    {
        let mut flags: Vec<bool> = Vec::new();
        let mut i: usize = 0;
        while i < self.items.len()
            invariant
                i <= self.items@.len(),
                flags@.len() == i,
                forall|k: int|
                    0 <= k < self.spec_items().len() ==> call_requires(
                        predicate,
                        (&#[trigger] self.spec_items()[k].item,),
                    ),
                forall|k: int|
                    0 <= k < i ==> call_ensures(predicate, (&#[trigger] self.items@[k].item,), flags@[k]),
            decreases self.items@.len() - i,
        {
            proof {
                assert(call_requires(predicate, (&self.spec_items()[i as int].item,)));
            }
            let b = predicate(&self.items[i].item);
            flags.push(b);
            i = i + 1;
        }
        let repo = self.repo;
        let items = retain_flagged(self.items, &flags);
        Selection { repo, items }
    }

    /// The number of items in the selection.
    pub fn count(&self) -> (n: usize)
        ensures
            n == self.spec_items().len(),
    {
        self.items.len()
    }

    /// All items of the selection.
    pub fn collect(&self) -> (r: &[SelectionItem<T>])
        ensures
            r@ == self.spec_items(),
    {
        self.items.as_slice()
    }

    /// Calls `f` on each item, in order.
    pub fn for_each<F: Fn(&T)>(&self, f: F)
        requires
            forall|i: int|
                0 <= i < self.spec_items().len() ==> call_requires(
                    f,
                    (&#[trigger] self.spec_items()[i].item,),
                ),
    {
        let mut i: usize = 0;
        while i < self.items.len()
            invariant
                i <= self.items@.len(),
                forall|k: int|
                    0 <= k < self.spec_items().len() ==> call_requires(
                        f,
                        (&#[trigger] self.spec_items()[k].item,),
                    ),
            decreases self.items@.len() - i,
        {
            proof {
                assert(call_requires(f, (&self.spec_items()[i as int].item,)));
            }
            f(&self.items[i].item);
            i = i + 1;
        }
    }

    /// Whether the selection holds no item.
    pub fn is_empty(&self) -> (b: bool)
        ensures
            b == (self.spec_items().len() == 0),
    {
        self.items.len() == 0
    }

    /// The first item, if any.
    pub fn first(&self) -> (r: Option<&SelectionItem<T>>)
        ensures
            match r {
                Some(si) => self.spec_items().len() > 0 && *si == self.spec_items()[0],
                None => self.spec_items().len() == 0,
            },
    {
        if self.items.len() == 0 {
            None
        } else {
            Some(&self.items[0])
        }
    }

    /// Keeps the items on which `p` holds, given flags computed from `p`.
    fn retain_by(self, flags: &Vec<bool>, Ghost(p): Ghost<spec_fn(SelectionItem<T>) -> bool>) -> (r: Self)
        requires
            flags@.len() == self.spec_items().len(),
            forall|i: int|
                0 <= i < self.spec_items().len() ==> flags@[i] == p(#[trigger] self.spec_items()[i]),
        ensures
            r.spec_repo() == self.spec_repo(),
            r.spec_items() == self.spec_items().filter(p),
    {
        let repo = self.repo;
        let items = retain_where(self.items, flags, Ghost(p));
        Selection { repo, items }
    }
}

/// Whether a path names a Go test file (its last segment ends in `_test.go`).
pub open spec fn is_test_file(path: Seq<char>) -> bool {
    seq_ends_with(last_segment(path, '/'), "_test.go"@)
}

/// Whether a file path names a Go test file.
fn test_file(path: &str) -> (b: bool)
    ensures
        b == is_test_file(path@),
{
    let name = last_segment_of(path, '/');
    ends_with(name.as_str(), "_test.go")
}

/// The base type name of a receiver type, with pointer indirection and type
/// arguments stripped.
pub open spec fn receiver_base(t: TypeExpr) -> Option<Seq<char>> {
    match t {
        TypeExpr::Named(id) => Some(id.name@),
        TypeExpr::Pointer(inner) => match *inner {
            TypeExpr::Named(id) => Some(id.name@),
            TypeExpr::Generic { base, .. } => match *base {
                TypeExpr::Named(id) => Some(id.name@),
                _ => None,
            },
            _ => None,
        },
        TypeExpr::Generic { base, .. } => match *base {
            TypeExpr::Named(id) => Some(id.name@),
            _ => None,
        },
        _ => None,
    }
}

/// The base type name of a receiver type, with pointer indirection and type
/// arguments stripped.
pub fn receiver_type_name(t: &TypeExpr) -> (r: Option<&str>)
    ensures
        match r {
            Some(n) => receiver_base(*t) == Some(n@),
            None => receiver_base(*t) is None,
        },
{
    match t {
        TypeExpr::Named(id) => Some(id.name.as_str()),
        TypeExpr::Pointer(inner) => match &**inner {
            TypeExpr::Named(id) => Some(id.name.as_str()),
            TypeExpr::Generic { base, .. } => match &**base {
                TypeExpr::Named(id) => Some(id.name.as_str()),
                _ => None,
            },
            _ => None,
        },
        TypeExpr::Generic { base, .. } => match &**base {
            TypeExpr::Named(id) => Some(id.name.as_str()),
            _ => None,
        },
        _ => None,
    }
}

impl<'repo, T> Selection<'repo, T> {
    /// Keeps only the items declared in files whose `package` clause names `package`.
    pub fn in_package(self, package: &str) -> (r: Self)
        ensures
            r.spec_repo() == self.spec_repo(),
            r.spec_items() == self.spec_items().filter(
                |si: SelectionItem<T>| package_of(self.spec_repo().spec_files(), si.file@) == Some(package@),
            ),
    {
        let ghost p = |si: SelectionItem<T>| package_of(self.spec_repo().spec_files(), si.file@) == Some(package@);
        let mut flags: Vec<bool> = Vec::new();
        let mut i: usize = 0;
        while i < self.items.len()
            invariant
                i <= self.items@.len(),
                flags@.len() == i,
                p == (|si: SelectionItem<T>| package_of(self.spec_repo().spec_files(), si.file@) == Some(package@)),
                forall|k: int| 0 <= k < i ==> flags@[k] == p(#[trigger] self.items@[k]),
            decreases self.items@.len() - i,
        {
            let b = match self.repo.package_for_file(self.items[i].file.as_str()) {
                Some(name) => str_eq(name, package),
                None => false,
            };
            flags.push(b);
            i = i + 1;
        }
        self.retain_by(&flags, Ghost(p))
    }

    /// Drops the items declared in `_test.go` files.
    pub fn excluding_tests(self) -> (r: Self)
        ensures
            r.spec_repo() == self.spec_repo(),
            r.spec_items() == self.spec_items().filter(|si: SelectionItem<T>| !is_test_file(si.file@)),
    {
        let ghost p = |si: SelectionItem<T>| !is_test_file(si.file@);
        let mut flags: Vec<bool> = Vec::new();
        let mut i: usize = 0;
        while i < self.items.len()
            invariant
                i <= self.items@.len(),
                flags@.len() == i,
                p == (|si: SelectionItem<T>| !is_test_file(si.file@)),
                forall|k: int| 0 <= k < i ==> flags@[k] == p(#[trigger] self.items@[k]),
            decreases self.items@.len() - i,
        {
            let b = !test_file(self.items[i].file.as_str());
            flags.push(b);
            i = i + 1;
        }
        self.retain_by(&flags, Ghost(p))
    }
}

impl<'repo> Selection<'repo, &'repo FuncDecl> {
    /// Keeps only exported (capitalised) functions.
    pub fn exported(self) -> (r: Self)
        ensures
            r.spec_repo() == self.spec_repo(),
            r.spec_items() == self.spec_items().filter(
                |si: SelectionItem<&FuncDecl>| spec_is_exported(si.item.name.name@),
            ),
    {
        let r = self.by_export(true);
        proof {
            assert((|si: SelectionItem<&FuncDecl>| spec_is_exported(si.item.name.name@) == true) =~= (|
                si: SelectionItem<&FuncDecl>,
            | spec_is_exported(si.item.name.name@)));
        }
        r
    }

    /// Keeps only unexported functions.
    pub fn unexported(self) -> (r: Self)
        ensures
            r.spec_repo() == self.spec_repo(),
            r.spec_items() == self.spec_items().filter(
                |si: SelectionItem<&FuncDecl>| !spec_is_exported(si.item.name.name@),
            ),
    {
        let r = self.by_export(false);
        proof {
            assert((|si: SelectionItem<&FuncDecl>| spec_is_exported(si.item.name.name@) == false) =~= (|
                si: SelectionItem<&FuncDecl>,
            | !spec_is_exported(si.item.name.name@)));
        }
        r
    }

    fn by_export(self, want: bool) -> (r: Self)
        ensures
            r.spec_repo() == self.spec_repo(),
            r.spec_items() == self.spec_items().filter(
                |si: SelectionItem<&FuncDecl>| spec_is_exported(si.item.name.name@) == want,
            ),
    {
        let ghost p = |si: SelectionItem<&FuncDecl>| spec_is_exported(si.item.name.name@) == want;
        let mut flags: Vec<bool> = Vec::new();
        let mut i: usize = 0;
        while i < self.items.len()
            invariant
                i <= self.items@.len(),
                flags@.len() == i,
                p == (|si: SelectionItem<&FuncDecl>| spec_is_exported(si.item.name.name@) == want),
                forall|k: int| 0 <= k < i ==> flags@[k] == p(#[trigger] self.items@[k]),
            decreases self.items@.len() - i,
        {
            let b = self.items[i].item.name.is_exported() == want;
            flags.push(b);
            i = i + 1;
        }
        self.retain_by(&flags, Ghost(p))
    }

    /// Keeps only functions named exactly `name`.
    pub fn named(self, name: &str) -> (r: Self)
        ensures
            r.spec_repo() == self.spec_repo(),
            r.spec_items() == self.spec_items().filter(
                |si: SelectionItem<&FuncDecl>| si.item.name.name@ == name@,
            ),
    {
        let ghost p = |si: SelectionItem<&FuncDecl>| si.item.name.name@ == name@;
        let mut flags: Vec<bool> = Vec::new();
        let mut i: usize = 0;
        while i < self.items.len()
            invariant
                i <= self.items@.len(),
                flags@.len() == i,
                p == (|si: SelectionItem<&FuncDecl>| si.item.name.name@ == name@),
                forall|k: int| 0 <= k < i ==> flags@[k] == p(#[trigger] self.items@[k]),
            decreases self.items@.len() - i,
        {
            let b = str_eq(self.items[i].item.name.name.as_str(), name);
            flags.push(b);
            i = i + 1;
        }
        self.retain_by(&flags, Ghost(p))
    }
}


impl<'repo> Selection<'repo, &'repo MethodDecl> {
    /// Keeps only exported (capitalised) methods.
    pub fn exported(self) -> (r: Self)
        ensures
            r.spec_repo() == self.spec_repo(),
            r.spec_items() == self.spec_items().filter(
                |si: SelectionItem<&MethodDecl>| spec_is_exported(si.item.name.name@),
            ),
    {
        let r = self.by_export(true);
        proof {
            assert((|si: SelectionItem<&MethodDecl>| spec_is_exported(si.item.name.name@) == true) =~= (|
                si: SelectionItem<&MethodDecl>,
            | spec_is_exported(si.item.name.name@)));
        }
        r
    }

    /// Keeps only unexported methods.
    pub fn unexported(self) -> (r: Self)
        ensures
            r.spec_repo() == self.spec_repo(),
            r.spec_items() == self.spec_items().filter(
                |si: SelectionItem<&MethodDecl>| !spec_is_exported(si.item.name.name@),
            ),
    {
        let r = self.by_export(false);
        proof {
            assert((|si: SelectionItem<&MethodDecl>| spec_is_exported(si.item.name.name@) == false) =~= (|
                si: SelectionItem<&MethodDecl>,
            | !spec_is_exported(si.item.name.name@)));
        }
        r
    }

    fn by_export(self, want: bool) -> (r: Self)
        ensures
            r.spec_repo() == self.spec_repo(),
            r.spec_items() == self.spec_items().filter(
                |si: SelectionItem<&MethodDecl>| spec_is_exported(si.item.name.name@) == want,
            ),
    {
        let ghost p = |si: SelectionItem<&MethodDecl>| spec_is_exported(si.item.name.name@) == want;
        let mut flags: Vec<bool> = Vec::new();
        let mut i: usize = 0;
        while i < self.items.len()
            invariant
                i <= self.items@.len(),
                flags@.len() == i,
                p == (|si: SelectionItem<&MethodDecl>| spec_is_exported(si.item.name.name@) == want),
                forall|k: int| 0 <= k < i ==> flags@[k] == p(#[trigger] self.items@[k]),
            decreases self.items@.len() - i,
        {
            let b = self.items[i].item.name.is_exported() == want;
            flags.push(b);
            i = i + 1;
        }
        self.retain_by(&flags, Ghost(p))
    }

    /// Keeps only methods named exactly `name`.
    pub fn named(self, name: &str) -> (r: Self)
        ensures
            r.spec_repo() == self.spec_repo(),
            r.spec_items() == self.spec_items().filter(
                |si: SelectionItem<&MethodDecl>| si.item.name.name@ == name@,
            ),
    {
        let ghost p = |si: SelectionItem<&MethodDecl>| si.item.name.name@ == name@;
        let mut flags: Vec<bool> = Vec::new();
        let mut i: usize = 0;
        while i < self.items.len()
            invariant
                i <= self.items@.len(),
                flags@.len() == i,
                p == (|si: SelectionItem<&MethodDecl>| si.item.name.name@ == name@),
                forall|k: int| 0 <= k < i ==> flags@[k] == p(#[trigger] self.items@[k]),
            decreases self.items@.len() - i,
        {
            let b = str_eq(self.items[i].item.name.name.as_str(), name);
            flags.push(b);
            i = i + 1;
        }
        self.retain_by(&flags, Ghost(p))
    }

    /// Keeps only methods whose receiver's base type (pointer indirection and
    /// type arguments stripped) is named `ty_name`.
    pub fn on_type(self, ty_name: &str) -> (r: Self)
        ensures
            r.spec_repo() == self.spec_repo(),
            r.spec_items() == self.spec_items().filter(
                |si: SelectionItem<&MethodDecl>| receiver_base(si.item.receiver.ty) == Some(ty_name@),
            ),
    {
        let ghost p = |si: SelectionItem<&MethodDecl>| receiver_base(si.item.receiver.ty) == Some(ty_name@);
        let mut flags: Vec<bool> = Vec::new();
        let mut i: usize = 0;
        while i < self.items.len()
            invariant
                i <= self.items@.len(),
                flags@.len() == i,
                p == (|si: SelectionItem<&MethodDecl>| receiver_base(si.item.receiver.ty) == Some(ty_name@)),
                forall|k: int| 0 <= k < i ==> flags@[k] == p(#[trigger] self.items@[k]),
            decreases self.items@.len() - i,
        {
            let b = match receiver_type_name(&self.items[i].item.receiver.ty) {
                Some(n) => str_eq(n, ty_name),
                None => false,
            };
            flags.push(b);
            i = i + 1;
        }
        self.retain_by(&flags, Ghost(p))
    }
}

impl<'repo> Selection<'repo, &'repo TypeSpec> {
    /// Keeps only exported (capitalised) types.
    pub fn exported(self) -> (r: Self)
        ensures
            r.spec_repo() == self.spec_repo(),
            r.spec_items() == self.spec_items().filter(
                |si: SelectionItem<&TypeSpec>| spec_is_exported(si.item.spec_name().name@),
            ),
    {
        let r = self.by_export(true);
        proof {
            assert((|si: SelectionItem<&TypeSpec>| spec_is_exported(si.item.spec_name().name@) == true) =~= (|
                si: SelectionItem<&TypeSpec>,
            | spec_is_exported(si.item.spec_name().name@)));
        }
        r
    }

    /// Keeps only unexported types.
    pub fn unexported(self) -> (r: Self)
        ensures
            r.spec_repo() == self.spec_repo(),
            r.spec_items() == self.spec_items().filter(
                |si: SelectionItem<&TypeSpec>| !spec_is_exported(si.item.spec_name().name@),
            ),
    {
        let r = self.by_export(false);
        proof {
            assert((|si: SelectionItem<&TypeSpec>| spec_is_exported(si.item.spec_name().name@) == false) =~= (|
                si: SelectionItem<&TypeSpec>,
            | !spec_is_exported(si.item.spec_name().name@)));
        }
        r
    }

    fn by_export(self, want: bool) -> (r: Self)
        ensures
            r.spec_repo() == self.spec_repo(),
            r.spec_items() == self.spec_items().filter(
                |si: SelectionItem<&TypeSpec>| spec_is_exported(si.item.spec_name().name@) == want,
            ),
    {
        let ghost p = |si: SelectionItem<&TypeSpec>| spec_is_exported(si.item.spec_name().name@) == want;
        let mut flags: Vec<bool> = Vec::new();
        let mut i: usize = 0;
        while i < self.items.len()
            invariant
                i <= self.items@.len(),
                flags@.len() == i,
                p == (|si: SelectionItem<&TypeSpec>| spec_is_exported(si.item.spec_name().name@) == want),
                forall|k: int| 0 <= k < i ==> flags@[k] == p(#[trigger] self.items@[k]),
            decreases self.items@.len() - i,
        {
            let b = self.items[i].item.name().is_exported() == want;
            flags.push(b);
            i = i + 1;
        }
        self.retain_by(&flags, Ghost(p))
    }

    /// Keeps only types named exactly `name`.
    pub fn named(self, name: &str) -> (r: Self)
        ensures
            r.spec_repo() == self.spec_repo(),
            r.spec_items() == self.spec_items().filter(
                |si: SelectionItem<&TypeSpec>| si.item.spec_name().name@ == name@,
            ),
    {
        let ghost p = |si: SelectionItem<&TypeSpec>| si.item.spec_name().name@ == name@;
        let mut flags: Vec<bool> = Vec::new();
        let mut i: usize = 0;
        while i < self.items.len()
            invariant
                i <= self.items@.len(),
                flags@.len() == i,
                p == (|si: SelectionItem<&TypeSpec>| si.item.spec_name().name@ == name@),
                forall|k: int| 0 <= k < i ==> flags@[k] == p(#[trigger] self.items@[k]),
            decreases self.items@.len() - i,
        {
            let b = str_eq(self.items[i].item.name().name.as_str(), name);
            flags.push(b);
            i = i + 1;
        }
        self.retain_by(&flags, Ghost(p))
    }

    /// Keeps only struct type definitions.
    pub fn structs(self) -> (r: Self)
        ensures
            r.spec_repo() == self.spec_repo(),
            r.spec_items() == self.spec_items().filter(|si: SelectionItem<&TypeSpec>| si.item.spec_is_struct()),
    {
        let ghost p = |si: SelectionItem<&TypeSpec>| si.item.spec_is_struct();
        let mut flags: Vec<bool> = Vec::new();
        let mut i: usize = 0;
        while i < self.items.len()
            invariant
                i <= self.items@.len(),
                flags@.len() == i,
                p == (|si: SelectionItem<&TypeSpec>| si.item.spec_is_struct()),
                forall|k: int| 0 <= k < i ==> flags@[k] == p(#[trigger] self.items@[k]),
            decreases self.items@.len() - i,
        {
            let b = self.items[i].item.is_struct();
            flags.push(b);
            i = i + 1;
        }
        self.retain_by(&flags, Ghost(p))
    }

    /// Keeps only interface type definitions.
    pub fn interfaces(self) -> (r: Self)
        ensures
            r.spec_repo() == self.spec_repo(),
            r.spec_items() == self.spec_items().filter(|si: SelectionItem<&TypeSpec>| si.item.spec_is_interface()),
    {
        let ghost p = |si: SelectionItem<&TypeSpec>| si.item.spec_is_interface();
        let mut flags: Vec<bool> = Vec::new();
        let mut i: usize = 0;
        while i < self.items.len()
            invariant
                i <= self.items@.len(),
                flags@.len() == i,
                p == (|si: SelectionItem<&TypeSpec>| si.item.spec_is_interface()),
                forall|k: int| 0 <= k < i ==> flags@[k] == p(#[trigger] self.items@[k]),
            decreases self.items@.len() - i,
        {
            let b = self.items[i].item.is_interface();
            flags.push(b);
            i = i + 1;
        }
        self.retain_by(&flags, Ghost(p))
    }
}


impl<'repo> Selection<'repo, &'repo FuncDecl> {

    /// Deletes every selected function from its file; items without a source position are skipped.
    pub fn delete(self) -> (c: Changes)
        ensures
            edits_view(c.edits@) == self.spec_items().filter_map(
                |si: SelectionItem<&FuncDecl>| if si.item.span.spec_is_synthetic() { None } else { Some((si.file@, EditKindView::Delete { span: si.item.span })) },
            ),
    {
        let ghost f = |si: SelectionItem<&FuncDecl>| if si.item.span.spec_is_synthetic() { None } else { Some((si.file@, EditKindView::Delete { span: si.item.span })) };
        let mut edits: Vec<Edit> = Vec::new();
        let mut i: usize = 0;
        while i < self.items.len()
            invariant
                i <= self.items@.len(),
                f == (|si: SelectionItem<&FuncDecl>| if si.item.span.spec_is_synthetic() { None } else { Some((si.file@, EditKindView::Delete { span: si.item.span })) }),
                edits_view(edits@) == self.items@.take(i as int).filter_map(f),
            decreases self.items@.len() - i,
        {
            let ghost before = edits@;
            let si = &self.items[i];
            if !si.item.span.is_synthetic() {
                edits.push(Edit { file: si.file.clone(), kind: EditKind::Delete { span: si.item.span } });
                proof {
                    assert(edits_view(edits@) =~= edits_view(before).push(edits@.last()@));
                }
            }
            proof {
                assert(self.items@.take(i + 1).drop_last() =~= self.items@.take(i as int));
            }
            i = i + 1;
        }
        proof {
            assert(self.items@.take(i as int) =~= self.items@);
        }
        Changes { edits }
    }

    /// Renames every selected function to `new_name`; items whose name has no source position are skipped.
    pub fn rename(self, new_name: &str) -> (c: Changes)
        ensures
            edits_view(c.edits@) == self.spec_items().filter_map(
                |si: SelectionItem<&FuncDecl>| if si.item.name.span.spec_is_synthetic() { None } else { Some((si.file@, EditKindView::Replace { span: si.item.name.span, new_text: new_name@ })) },
            ),
    {
        let ghost f = |si: SelectionItem<&FuncDecl>| if si.item.name.span.spec_is_synthetic() { None } else { Some((si.file@, EditKindView::Replace { span: si.item.name.span, new_text: new_name@ })) };
        let mut edits: Vec<Edit> = Vec::new();
        let mut i: usize = 0;
        while i < self.items.len()
            invariant
                i <= self.items@.len(),
                f == (|si: SelectionItem<&FuncDecl>| if si.item.name.span.spec_is_synthetic() { None } else { Some((si.file@, EditKindView::Replace { span: si.item.name.span, new_text: new_name@ })) }),
                edits_view(edits@) == self.items@.take(i as int).filter_map(f),
            decreases self.items@.len() - i,
        {
            let ghost before = edits@;
            let si = &self.items[i];
            if !si.item.name.span.is_synthetic() {
                edits.push(Edit { file: si.file.clone(), kind: EditKind::Replace { span: si.item.name.span, new_text: new_name.to_string() } });
                proof {
                    assert(edits_view(edits@) =~= edits_view(before).push(edits@.last()@));
                }
            }
            proof {
                assert(self.items@.take(i + 1).drop_last() =~= self.items@.take(i as int));
            }
            i = i + 1;
        }
        proof {
            assert(self.items@.take(i as int) =~= self.items@);
        }
        Changes { edits }
    }

    /// Replaces every selected function with a printed copy whose body is `body`; items without a source position are skipped.
    pub fn replace_body(self, body: Block) -> (c: Changes)
        ensures
            edits_view(c.edits@) == self.spec_items().filter_map(
                |si: SelectionItem<&FuncDecl>| if si.item.span.spec_is_synthetic() { None } else { Some((si.file@, EditKindView::Replace { span: si.item.span, new_text: "func "@ + si.item.name.name@ + signature_text(si.item.ty) + body_text(Some(body)) })) },
            ),
    {
        let ghost f = |si: SelectionItem<&FuncDecl>| if si.item.span.spec_is_synthetic() { None } else { Some((si.file@, EditKindView::Replace { span: si.item.span, new_text: "func "@ + si.item.name.name@ + signature_text(si.item.ty) + body_text(Some(body)) })) };
        let mut edits: Vec<Edit> = Vec::new();
        let mut i: usize = 0;
        while i < self.items.len()
            invariant
                i <= self.items@.len(),
                f == (|si: SelectionItem<&FuncDecl>| if si.item.span.spec_is_synthetic() { None } else { Some((si.file@, EditKindView::Replace { span: si.item.span, new_text: "func "@ + si.item.name.name@ + signature_text(si.item.ty) + body_text(Some(body)) })) }),
                edits_view(edits@) == self.items@.take(i as int).filter_map(f),
            decreases self.items@.len() - i,
        {
            let ghost before = edits@;
            let si = &self.items[i];
            if !si.item.span.is_synthetic() {
                edits.push(Edit { file: si.file.clone(), kind: EditKind::Replace { span: si.item.span, new_text: Printer::func_decl_with_body(si.item, Some(&body)) } });
                proof {
                    assert(edits_view(edits@) =~= edits_view(before).push(edits@.last()@));
                }
            }
            proof {
                assert(self.items@.take(i + 1).drop_last() =~= self.items@.take(i as int));
            }
            i = i + 1;
        }
        proof {
            assert(self.items@.take(i as int) =~= self.items@);
        }
        Changes { edits }
    }
}

impl<'repo> Selection<'repo, &'repo MethodDecl> {

    /// Deletes every selected method from its file; items without a source position are skipped.
    pub fn delete(self) -> (c: Changes)
        ensures
            edits_view(c.edits@) == self.spec_items().filter_map(
                |si: SelectionItem<&MethodDecl>| if si.item.span.spec_is_synthetic() { None } else { Some((si.file@, EditKindView::Delete { span: si.item.span })) },
            ),
    {
        let ghost f = |si: SelectionItem<&MethodDecl>| if si.item.span.spec_is_synthetic() { None } else { Some((si.file@, EditKindView::Delete { span: si.item.span })) };
        let mut edits: Vec<Edit> = Vec::new();
        let mut i: usize = 0;
        while i < self.items.len()
            invariant
                i <= self.items@.len(),
                f == (|si: SelectionItem<&MethodDecl>| if si.item.span.spec_is_synthetic() { None } else { Some((si.file@, EditKindView::Delete { span: si.item.span })) }),
                edits_view(edits@) == self.items@.take(i as int).filter_map(f),
            decreases self.items@.len() - i,
        {
            let ghost before = edits@;
            let si = &self.items[i];
            if !si.item.span.is_synthetic() {
                edits.push(Edit { file: si.file.clone(), kind: EditKind::Delete { span: si.item.span } });
                proof {
                    assert(edits_view(edits@) =~= edits_view(before).push(edits@.last()@));
                }
            }
            proof {
                assert(self.items@.take(i + 1).drop_last() =~= self.items@.take(i as int));
            }
            i = i + 1;
        }
        proof {
            assert(self.items@.take(i as int) =~= self.items@);
        }
        Changes { edits }
    }

    /// Renames every selected method to `new_name`; items whose name has no source position are skipped.
    pub fn rename(self, new_name: &str) -> (c: Changes)
        ensures
            edits_view(c.edits@) == self.spec_items().filter_map(
                |si: SelectionItem<&MethodDecl>| if si.item.name.span.spec_is_synthetic() { None } else { Some((si.file@, EditKindView::Replace { span: si.item.name.span, new_text: new_name@ })) },
            ),
    {
        let ghost f = |si: SelectionItem<&MethodDecl>| if si.item.name.span.spec_is_synthetic() { None } else { Some((si.file@, EditKindView::Replace { span: si.item.name.span, new_text: new_name@ })) };
        let mut edits: Vec<Edit> = Vec::new();
        let mut i: usize = 0;
        while i < self.items.len()
            invariant
                i <= self.items@.len(),
                f == (|si: SelectionItem<&MethodDecl>| if si.item.name.span.spec_is_synthetic() { None } else { Some((si.file@, EditKindView::Replace { span: si.item.name.span, new_text: new_name@ })) }),
                edits_view(edits@) == self.items@.take(i as int).filter_map(f),
            decreases self.items@.len() - i,
        {
            let ghost before = edits@;
            let si = &self.items[i];
            if !si.item.name.span.is_synthetic() {
                edits.push(Edit { file: si.file.clone(), kind: EditKind::Replace { span: si.item.name.span, new_text: new_name.to_string() } });
                proof {
                    assert(edits_view(edits@) =~= edits_view(before).push(edits@.last()@));
                }
            }
            proof {
                assert(self.items@.take(i + 1).drop_last() =~= self.items@.take(i as int));
            }
            i = i + 1;
        }
        proof {
            assert(self.items@.take(i as int) =~= self.items@);
        }
        Changes { edits }
    }

    /// Replaces every selected method with a printed copy whose body is `body`; items without a source position are skipped.
    pub fn replace_body(self, body: Block) -> (c: Changes)
        ensures
            edits_view(c.edits@) == self.spec_items().filter_map(
                |si: SelectionItem<&MethodDecl>| if si.item.span.spec_is_synthetic() { None } else { Some((si.file@, EditKindView::Replace { span: si.item.span, new_text: "func ("@ + receiver_text(*si.item) + ") "@ + si.item.name.name@ + signature_text(si.item.ty) + body_text(Some(body)) })) },
            ),
    {
        let ghost f = |si: SelectionItem<&MethodDecl>| if si.item.span.spec_is_synthetic() { None } else { Some((si.file@, EditKindView::Replace { span: si.item.span, new_text: "func ("@ + receiver_text(*si.item) + ") "@ + si.item.name.name@ + signature_text(si.item.ty) + body_text(Some(body)) })) };
        let mut edits: Vec<Edit> = Vec::new();
        let mut i: usize = 0;
        while i < self.items.len()
            invariant
                i <= self.items@.len(),
                f == (|si: SelectionItem<&MethodDecl>| if si.item.span.spec_is_synthetic() { None } else { Some((si.file@, EditKindView::Replace { span: si.item.span, new_text: "func ("@ + receiver_text(*si.item) + ") "@ + si.item.name.name@ + signature_text(si.item.ty) + body_text(Some(body)) })) }),
                edits_view(edits@) == self.items@.take(i as int).filter_map(f),
            decreases self.items@.len() - i,
        {
            let ghost before = edits@;
            let si = &self.items[i];
            if !si.item.span.is_synthetic() {
                edits.push(Edit { file: si.file.clone(), kind: EditKind::Replace { span: si.item.span, new_text: Printer::method_decl_with_body(si.item, Some(&body)) } });
                proof {
                    assert(edits_view(edits@) =~= edits_view(before).push(edits@.last()@));
                }
            }
            proof {
                assert(self.items@.take(i + 1).drop_last() =~= self.items@.take(i as int));
            }
            i = i + 1;
        }
        proof {
            assert(self.items@.take(i as int) =~= self.items@);
        }
        Changes { edits }
    }
}

impl<'repo> Selection<'repo, &'repo TypeSpec> {

    /// Deletes every selected type specification from its file; items without a source position are skipped.
    pub fn delete(self) -> (c: Changes)
        ensures
            edits_view(c.edits@) == self.spec_items().filter_map(
                |si: SelectionItem<&TypeSpec>| if si.item.spec_span().spec_is_synthetic() { None } else { Some((si.file@, EditKindView::Delete { span: si.item.spec_span() })) },
            ),
    {
        let ghost f = |si: SelectionItem<&TypeSpec>| if si.item.spec_span().spec_is_synthetic() { None } else { Some((si.file@, EditKindView::Delete { span: si.item.spec_span() })) };
        let mut edits: Vec<Edit> = Vec::new();
        let mut i: usize = 0;
        while i < self.items.len()
            invariant
                i <= self.items@.len(),
                f == (|si: SelectionItem<&TypeSpec>| if si.item.spec_span().spec_is_synthetic() { None } else { Some((si.file@, EditKindView::Delete { span: si.item.spec_span() })) }),
                edits_view(edits@) == self.items@.take(i as int).filter_map(f),
            decreases self.items@.len() - i,
        {
            let ghost before = edits@;
            let si = &self.items[i];
            if !si.item.span().is_synthetic() {
                edits.push(Edit { file: si.file.clone(), kind: EditKind::Delete { span: si.item.span() } });
                proof {
                    assert(edits_view(edits@) =~= edits_view(before).push(edits@.last()@));
                }
            }
            proof {
                assert(self.items@.take(i + 1).drop_last() =~= self.items@.take(i as int));
            }
            i = i + 1;
        }
        proof {
            assert(self.items@.take(i as int) =~= self.items@);
        }
        Changes { edits }
    }

    /// Renames every selected type to `new_name`; items whose name has no source position are skipped.
    pub fn rename(self, new_name: &str) -> (c: Changes)
        ensures
            edits_view(c.edits@) == self.spec_items().filter_map(
                |si: SelectionItem<&TypeSpec>| if si.item.spec_name().span.spec_is_synthetic() { None } else { Some((si.file@, EditKindView::Replace { span: si.item.spec_name().span, new_text: new_name@ })) },
            ),
    {
        let ghost f = |si: SelectionItem<&TypeSpec>| if si.item.spec_name().span.spec_is_synthetic() { None } else { Some((si.file@, EditKindView::Replace { span: si.item.spec_name().span, new_text: new_name@ })) };
        let mut edits: Vec<Edit> = Vec::new();
        let mut i: usize = 0;
        while i < self.items.len()
            invariant
                i <= self.items@.len(),
                f == (|si: SelectionItem<&TypeSpec>| if si.item.spec_name().span.spec_is_synthetic() { None } else { Some((si.file@, EditKindView::Replace { span: si.item.spec_name().span, new_text: new_name@ })) }),
                edits_view(edits@) == self.items@.take(i as int).filter_map(f),
            decreases self.items@.len() - i,
        {
            let ghost before = edits@;
            let si = &self.items[i];
            if !si.item.name().span.is_synthetic() {
                edits.push(Edit { file: si.file.clone(), kind: EditKind::Replace { span: si.item.name().span, new_text: new_name.to_string() } });
                proof {
                    assert(edits_view(edits@) =~= edits_view(before).push(edits@.last()@));
                }
            }
            proof {
                assert(self.items@.take(i + 1).drop_last() =~= self.items@.take(i as int));
            }
            i = i + 1;
        }
        proof {
            assert(self.items@.take(i as int) =~= self.items@);
        }
        Changes { edits }
    }
}


/// The span of a struct type definition's field list, if `t` defines a struct.
pub open spec fn struct_span(t: TypeSpec) -> Option<Span> {
    match t {
        TypeSpec::Def { ty: TypeExpr::Struct(st), .. } => Some(st.span),
        _ => None,
    }
}

/// The text of a new struct field line.
pub open spec fn field_line(name: Seq<char>, ty: TypeExpr) -> Seq<char> {
    "\t"@ + name + " "@ + type_text(ty) + "\n"@
}

/// The span of the first field declaration that declares `name` alone and has
/// a source position.
pub open spec fn removable_span(fields: Seq<FieldDecl>, name: Seq<char>) -> Option<Span>
    decreases fields.len(),
{
    if fields.len() == 0 {
        None
    } else {
        let rest = removable_span(fields.drop_first(), name);
        match fields[0] {
            FieldDecl::Named { names, span, .. } => if !span.spec_is_synthetic() && names.len() == 1
                && names[0].name@ == name {
                Some(span)
            } else {
                rest
            },
            _ => rest,
        }
    }
}

/// The fields of a struct type definition (none for other types).
pub open spec fn struct_fields(t: TypeSpec) -> Seq<FieldDecl> {
    match t {
        TypeSpec::Def { ty: TypeExpr::Struct(st), .. } => st.fields@,
        _ => Seq::empty(),
    }
}

/// The span of the field to remove from `fields`, searched from `k` on.
fn find_removable(fields: &Vec<FieldDecl>, name: &str) -> (r: Option<Span>)
    ensures
        r == removable_span(fields@, name@),
{
    let mut k: usize = 0;
    proof {
        assert(fields@.skip(0) =~= fields@);
    }
    while k < fields.len()
        invariant
            k <= fields@.len(),
            removable_span(fields@, name@) == removable_span(fields@.skip(k as int), name@),
        decreases fields@.len() - k,
    {
        proof {
            assert(fields@.skip(k as int)[0] == fields@[k as int]);
            assert(fields@.skip(k as int).drop_first() =~= fields@.skip(k + 1));
        }
        match &fields[k] {
            FieldDecl::Named { names, span, .. } => {
                if !span.is_synthetic() && names.len() == 1 && str_eq(names[0].name.as_str(), name) {
                    return Some(*span);
                }
            },
            _ => {},
        }
        k = k + 1;
    }
    proof {
        assert(fields@.skip(k as int) =~= Seq::<FieldDecl>::empty());
    }
    None
}

impl<'repo> Selection<'repo, &'repo TypeSpec> {
    /// Adds a field `field_name field_type` to each selected struct, on a new
    /// line just before the closing brace; other types, and structs without a
    /// source position, are skipped.
    pub fn add_field(self, field_name: &str, field_type: TypeExpr) -> (c: Changes)
        requires
            forall|i: int|
                0 <= i < self.spec_items().len() ==> match struct_span(*(#[trigger] self.spec_items()[i]).item) {
                    Some(sp) => !sp.spec_is_synthetic() ==> sp.end_byte > 0,
                    None => true,
                },
        ensures
            edits_view(c.edits@) == self.spec_items().filter_map(
                |si: SelectionItem<&TypeSpec>| match struct_span(*si.item) {
                    Some(sp) => if sp.spec_is_synthetic() {
                        None
                    } else {
                        Some((si.file@, EditKindView::InsertAfter {
                            anchor_byte: (sp.end_byte - 1) as usize,
                            new_text: field_line(field_name@, field_type),
                        }))
                    },
                    None => None,
                },
            ),
    {
        let ghost f = |si: SelectionItem<&TypeSpec>| match struct_span(*si.item) {
            Some(sp) => if sp.spec_is_synthetic() {
                None
            } else {
                Some((si.file@, EditKindView::InsertAfter {
                    anchor_byte: (sp.end_byte - 1) as usize,
                    new_text: field_line(field_name@, field_type),
                }))
            },
            None => None,
        };
        let ty_text = Printer::type_expr(&field_type);
        let mut line = String::new();
        line.append("\t");
        line.append(field_name);
        line.append(" ");
        line.append(ty_text.as_str());
        line.append("\n");
        let mut edits: Vec<Edit> = Vec::new();
        let mut i: usize = 0;
        while i < self.items.len()
            invariant
                i <= self.items@.len(),
                line@ == field_line(field_name@, field_type),
                f == (|si: SelectionItem<&TypeSpec>| match struct_span(*si.item) {
                    Some(sp) => if sp.spec_is_synthetic() {
                        None
                    } else {
                        Some((si.file@, EditKindView::InsertAfter {
                            anchor_byte: (sp.end_byte - 1) as usize,
                            new_text: field_line(field_name@, field_type),
                        }))
                    },
                    None => None,
                }),
                forall|k: int|
                    0 <= k < self.spec_items().len() ==> match struct_span(*(#[trigger] self.spec_items()[k]).item) {
                        Some(sp) => !sp.spec_is_synthetic() ==> sp.end_byte > 0,
                        None => true,
                    },
                edits_view(edits@) == self.items@.take(i as int).filter_map(f),
            decreases self.items@.len() - i,
        {
            let ghost before = edits@;
            let si = &self.items[i];
            match si.item {
                TypeSpec::Def { ty: TypeExpr::Struct(st), .. } => {
                    if !st.span.is_synthetic() {
                        proof {
                            assert(self.items@[i as int] == self.spec_items()[i as int]);
                            assert(struct_span(*self.spec_items()[i as int].item) == Some(st.span));
                        }
                        edits.push(
                            Edit {
                                file: si.file.clone(),
                                kind: EditKind::InsertAfter {
                                    anchor_byte: st.span.end_byte - 1,
                                    new_text: line.clone(),
                                },
                            },
                        );
                        proof {
                            assert(edits_view(edits@) =~= edits_view(before).push(edits@.last()@));
                        }
                    }
                },
                _ => {},
            }
            proof {
                assert(self.items@.take(i + 1).drop_last() =~= self.items@.take(i as int));
            }
            i = i + 1;
        }
        proof {
            assert(self.items@.take(i as int) =~= self.items@);
        }
        Changes { edits }
    }

    /// Deletes from each selected struct the first field declaration that
    /// declares `field_name` alone; declarations of several names are left
    /// untouched.
    pub fn remove_field(self, field_name: &str) -> (c: Changes)
        ensures
            edits_view(c.edits@) == self.spec_items().filter_map(
                |si: SelectionItem<&TypeSpec>| match removable_span(struct_fields(*si.item), field_name@) {
                    Some(sp) => Some((si.file@, EditKindView::Delete { span: sp })),
                    None => None,
                },
            ),
    {
        let ghost f = |si: SelectionItem<&TypeSpec>| match removable_span(struct_fields(*si.item), field_name@) {
            Some(sp) => Some((si.file@, EditKindView::Delete { span: sp })),
            None => None,
        };
        let mut edits: Vec<Edit> = Vec::new();
        let mut i: usize = 0;
        while i < self.items.len()
            invariant
                i <= self.items@.len(),
                f == (|si: SelectionItem<&TypeSpec>| match removable_span(struct_fields(*si.item), field_name@) {
                    Some(sp) => Some((si.file@, EditKindView::Delete { span: sp })),
                    None => None,
                }),
                edits_view(edits@) == self.items@.take(i as int).filter_map(f),
            decreases self.items@.len() - i,
        {
            let ghost before = edits@;
            let si = &self.items[i];
            let found = match si.item {
                TypeSpec::Def { ty: TypeExpr::Struct(st), .. } => find_removable(&st.fields, field_name),
                _ => {
                    proof {
                        reveal_with_fuel(removable_span, 1);
                    }
                    None
                },
            };
            match found {
                Some(sp) => {
                    edits.push(Edit { file: si.file.clone(), kind: EditKind::Delete { span: sp } });
                    proof {
                        assert(edits_view(edits@) =~= edits_view(before).push(edits@.last()@));
                    }
                },
                None => {},
            }
            proof {
                assert(self.items@.take(i + 1).drop_last() =~= self.items@.take(i as int));
            }
            i = i + 1;
        }
        proof {
            assert(self.items@.take(i as int) =~= self.items@);
        }
        Changes { edits }
    }
}


/// The elements of `t`'s type if it is an interface.
pub open spec fn interface_elems(t: TypeSpec) -> Option<Seq<InterfaceElem>> {
    match t.spec_ty() {
        TypeExpr::Interface(it) => Some(it.elements@),
        _ => None,
    }
}

/// The elements of the first interface named `name` among `ts`.
pub open spec fn find_interface(ts: Seq<(TypeSpec, Seq<char>)>, name: Seq<char>) -> Option<Seq<InterfaceElem>>
    decreases ts.len(),
{
    if ts.len() == 0 {
        None
    } else if ts[0].0.spec_name().name@ == name && interface_elems(ts[0].0) is Some {
        interface_elems(ts[0].0)
    } else {
        find_interface(ts.drop_first(), name)
    }
}

/// Whether `ms` holds a method named `mname` on type `tname` whose signature
/// matches `sig`.
pub open spec fn has_method(ms: Seq<(MethodDecl, Seq<char>)>, tname: Seq<char>, mname: Seq<char>, sig: FuncType) -> bool {
    exists|i: int|
        0 <= i < ms.len() && receiver_base((#[trigger] ms[i]).0.receiver.ty) == Some(tname) && ms[i].0.name.name@
            == mname && signature_match(ms[i].0.ty, sig)
}

/// Whether type `tname` has, among `ms`, a matching method for every method
/// element of an interface.
pub open spec fn satisfies(ms: Seq<(MethodDecl, Seq<char>)>, tname: Seq<char>, elems: Seq<InterfaceElem>) -> bool {
    forall|j: int|
        0 <= j < elems.len() ==> match #[trigger] elems[j] {
            InterfaceElem::Method { name, ty, .. } => has_method(ms, tname, name.name@, ty),
            _ => true,
        }
}

/// The interface named `name` in a list of located type specifications.
fn find_interface_in<'a>(ts: &Vec<SelectionItem<&'a TypeSpec>>, name: &str) -> (r: Option<&'a Vec<InterfaceElem>>)
    ensures
        match r {
            Some(es) => find_interface(pairs(ts@), name@) == Some(es@),
            None => find_interface(pairs(ts@), name@) is None,
        },
{
    let mut k: usize = 0;
    proof {
        assert(pairs(ts@).skip(0) =~= pairs(ts@));
    }
    while k < ts.len()
        invariant
            k <= ts@.len(),
            find_interface(pairs(ts@), name@) == find_interface(pairs(ts@).skip(k as int), name@),
        decreases ts@.len() - k,
    {
        proof {
            assert(pairs(ts@).skip(k as int)[0] == pairs(ts@)[k as int]);
            assert(pairs(ts@).skip(k as int).drop_first() =~= pairs(ts@).skip(k + 1));
        }
        let t: &'a TypeSpec = ts[k].item;
        if str_eq(t.name().name.as_str(), name) {
            match t.ty() {
                TypeExpr::Interface(it) => {
                    return Some(&it.elements);
                },
                _ => {},
            }
        }
        k = k + 1;
    }
    proof {
        assert(pairs(ts@).skip(k as int) =~= Seq::<(TypeSpec, Seq<char>)>::empty());
    }
    None
}

/// Whether a located list of methods has a method `mname` on `tname` matching `sig`.
fn has_method_in(ms: &Vec<SelectionItem<&MethodDecl>>, tname: &str, mname: &str, sig: &FuncType) -> (b: bool)
    ensures
        b == has_method(pairs(ms@), tname@, mname@, *sig),
{
    let mut i: usize = 0;
    while i < ms.len()
        invariant
            i <= ms@.len(),
            forall|j: int|
                0 <= j < i ==> !(receiver_base((#[trigger] pairs(ms@)[j]).0.receiver.ty) == Some(tname@)
                    && pairs(ms@)[j].0.name.name@ == mname@ && signature_match(pairs(ms@)[j].0.ty, *sig)),
        decreases ms@.len() - i,
    {
        let m = ms[i].item;
        let on_type = match receiver_type_name(&m.receiver.ty) {
            Some(n) => str_eq(n, tname),
            None => false,
        };
        if on_type && str_eq(m.name.name.as_str(), mname) && m.ty.signature_matches(sig) {
            proof {
                assert(pairs(ms@)[i as int].0 == *m);
            }
            return true;
        }
        proof {
            assert(pairs(ms@)[i as int].0 == *m);
        }
        i = i + 1;
    }
    false
}

/// Whether a type has a matching method for every method element of an interface.
fn satisfies_in(ms: &Vec<SelectionItem<&MethodDecl>>, tname: &str, elems: &Vec<InterfaceElem>) -> (b: bool)
    ensures
        b == satisfies(pairs(ms@), tname@, elems@),
{
    let mut j: usize = 0;
    while j < elems.len()
        invariant
            j <= elems@.len(),
            forall|k: int|
                0 <= k < j ==> match #[trigger] elems@[k] {
                    InterfaceElem::Method { name, ty, .. } => has_method(pairs(ms@), tname@, name.name@, ty),
                    _ => true,
                },
        decreases elems@.len() - j,
    {
        match &elems[j] {
            InterfaceElem::Method { name, ty, .. } => {
                if !has_method_in(ms, tname, name.name.as_str(), ty) {
                    return false;
                }
            },
            _ => {},
        }
        j = j + 1;
    }
    true
}

impl<'repo> Selection<'repo, &'repo TypeSpec> {
    /// Keeps only the types that implement the interface named
    /// `interface_name`: every method of the interface has a method of the
    /// same name on the type (by receiver base name) whose parameter and result
    /// types match. The interface is the first one of that name in the
    /// repository; when there is none, the selection becomes empty.
    pub fn implementing(self, interface_name: &str) -> (r: Self)
        ensures
            r.spec_repo() == self.spec_repo(),
            match find_interface(repo_types(self.spec_repo().spec_files()), interface_name@) {
                Some(elems) => r.spec_items() == self.spec_items().filter(
                    |si: SelectionItem<&TypeSpec>| satisfies(
                        repo_methods(self.spec_repo().spec_files()),
                        si.item.spec_name().name@,
                        elems,
                    ),
                ),
                None => r.spec_items().len() == 0,
            },
    {
        let all_types = self.repo.types();
        let elems = match find_interface_in(&all_types.items, interface_name) {
            Some(es) => es,
            None => {
                return Selection { repo: self.repo, items: Vec::new() };
            },
        };
        let all_methods = self.repo.methods();
        let ghost ms = repo_methods(self.spec_repo().spec_files());
        let ghost p = |si: SelectionItem<&TypeSpec>| satisfies(ms, si.item.spec_name().name@, elems@);
        let mut flags: Vec<bool> = Vec::new();
        let mut i: usize = 0;
        while i < self.items.len()
            invariant
                i <= self.items@.len(),
                flags@.len() == i,
                pairs(all_methods.items@) == ms,
                p == (|si: SelectionItem<&TypeSpec>| satisfies(ms, si.item.spec_name().name@, elems@)),
                forall|k: int| 0 <= k < i ==> flags@[k] == p(#[trigger] self.items@[k]),
            decreases self.items@.len() - i,
        {
            let b = satisfies_in(&all_methods.items, self.items[i].item.name().name.as_str(), elems);
            flags.push(b);
            i = i + 1;
        }
        self.retain_by(&flags, Ghost(p))
    }
}


/// A method that may or may not exist on a type, for add-or-modify patterns.
#[derive(Debug)]
pub struct MethodEntry<'repo> {
    pub type_spec: &'repo TypeSpec,
    pub method_name: String,
    pub existing: Option<&'repo MethodDecl>,
    /// File of the type declaration (where a new method is added).
    pub type_file: String,
    /// File of the existing method (where it is modified or deleted).
    pub method_file: Option<String>,
}

/// The directory part of a file path.
pub open spec fn dir_of(path: Seq<char>) -> Option<Seq<char>> {
    before_last(path, '/')
}

/// Whether a located method is the method `mname` of type `tname` declared in directory `dir`.
pub open spec fn is_method_for(x: (MethodDecl, Seq<char>), dir: Option<Seq<char>>, mname: Seq<char>, tname: Seq<char>) -> bool {
    &&& dir_of(x.1) == dir
    &&& x.0.name.name@ == mname
    &&& receiver_base(x.0.receiver.ty) == Some(tname)
}

/// Whether position `i` holds the first such method.
pub open spec fn is_first_method(
    ms: Seq<(MethodDecl, Seq<char>)>,
    i: int,
    dir: Option<Seq<char>>,
    mname: Seq<char>,
    tname: Seq<char>,
) -> bool {
    &&& 0 <= i < ms.len()
    &&& is_method_for(ms[i], dir, mname, tname)
    &&& forall|j: int| 0 <= j < i ==> !is_method_for(#[trigger] ms[j], dir, mname, tname)
}

/// The first method `mname` of type `tname` declared in directory `dir`, with its file.
pub open spec fn lookup_method(
    ms: Seq<(MethodDecl, Seq<char>)>,
    dir: Option<Seq<char>>,
    mname: Seq<char>,
    tname: Seq<char>,
) -> Option<(MethodDecl, Seq<char>)> {
    if exists|i: int| is_first_method(ms, i, dir, mname, tname) {
        Some(ms[choose|i: int| is_first_method(ms, i, dir, mname, tname)])
    } else {
        None
    }
}

/// The existing method of an entry with its file, if both are known.
pub open spec fn entry_found(e: MethodEntry) -> Option<(MethodDecl, Seq<char>)> {
    match (e.existing, e.method_file) {
        (Some(m), Some(f)) => Some((*m, f@)),
        _ => None,
    }
}

/// Equality of two optional directories.
fn same_dir(a: &Option<String>, b: &Option<String>) -> (r: bool)
    ensures
        r == (match a {
            Some(x) => Some(x@),
            None => None,
        } == match b {
            Some(y) => Some(y@),
            None => None,
        }),
{
    match (a, b) {
        (Some(x), Some(y)) => str_eq(x.as_str(), y.as_str()),
        (None, None) => true,
        _ => false,
    }
}

/// The first method `mname` of type `tname` declared in directory `dir`.
fn lookup_in<'a>(
    ms: &Vec<SelectionItem<&'a MethodDecl>>,
    dir: &Option<String>,
    mname: &str,
    tname: &str,
) -> (r: Option<(&'a MethodDecl, String)>)
    ensures
        match r {
            Some((m, f)) => lookup_method(pairs(ms@), match dir {
                Some(x) => Some(x@),
                None => None,
            }, mname@, tname@) == Some((*m, f@)),
            None => lookup_method(pairs(ms@), match dir {
                Some(x) => Some(x@),
                None => None,
            }, mname@, tname@) is None,
        },
{
    let ghost d = match dir {
        Some(x) => Some(x@),
        None => None,
    };
    let ghost ps = pairs(ms@);
    let mut i: usize = 0;
    while i < ms.len()
        invariant
            i <= ms@.len(),
            ps == pairs(ms@),
            d == match dir {
                Some(x) => Some(x@),
                None => None,
            },
            forall|j: int| 0 <= j < i ==> !is_method_for(#[trigger] ps[j], d, mname@, tname@),
        decreases ms@.len() - i,
    {
        let m: &'a MethodDecl = ms[i].item;
        let mdir = before_last_of(ms[i].file.as_str(), '/');
        let on_type = match receiver_type_name(&m.receiver.ty) {
            Some(n) => str_eq(n, tname),
            None => false,
        };
        let hit = same_dir(&mdir, dir) && str_eq(m.name.name.as_str(), mname) && on_type;
        proof {
            assert(ps[i as int] == (*m, ms@[i as int].file@));
        }
        if hit {
            proof {
                assert(is_first_method(ps, i as int, d, mname@, tname@));
                assert forall|i2: int| is_first_method(ps, i2, d, mname@, tname@) implies i2 == i by {
                    if i2 < i {
                        assert(!is_method_for(ps[i2], d, mname@, tname@));
                    } else if i2 > i {
                        assert(!is_method_for(ps[i as int], d, mname@, tname@));
                    }
                }
            }
            return Some((m, ms[i].file.clone()));
        }
        i = i + 1;
    }
    None
}

impl<'repo> Selection<'repo, &'repo TypeSpec> {
    /// Looks up the method `method_name` of each selected type among the
    /// methods declared in the type's directory (by receiver base name), giving
    /// one entry per type, in order.
    pub fn method(self, method_name: &str) -> (r: Selection<'repo, MethodEntry<'repo>>)
        ensures
            r.spec_repo() == self.spec_repo(),
            r.spec_items().len() == self.spec_items().len(),
            forall|k: int|
                0 <= k < self.spec_items().len() ==> {
                    let si = #[trigger] self.spec_items()[k];
                    let e = r.spec_items()[k];
                    &&& e.file@ == si.file@
                    &&& *e.item.type_spec == *si.item
                    &&& e.item.method_name@ == method_name@
                    &&& e.item.type_file@ == si.file@
                    &&& (e.item.existing is Some <==> e.item.method_file is Some)
                    &&& entry_found(e.item) == lookup_method(
                        repo_methods(self.spec_repo().spec_files()),
                        dir_of(si.file@),
                        method_name@,
                        si.item.spec_name().name@,
                    )
                },
    {
        let all_methods = self.repo.methods();
        let ghost ms = repo_methods(self.spec_repo().spec_files());
        let mut entries: Vec<SelectionItem<MethodEntry<'repo>>> = Vec::new();
        let mut i: usize = 0;
        while i < self.items.len()
            invariant
                i <= self.items@.len(),
                entries@.len() == i,
                pairs(all_methods.items@) == ms,
                ms == repo_methods(self.spec_repo().spec_files()),
                forall|k: int|
                    0 <= k < i ==> {
                        let si = #[trigger] self.spec_items()[k];
                        let e = entries@[k];
                        &&& e.file@ == si.file@
                        &&& *e.item.type_spec == *si.item
                        &&& e.item.method_name@ == method_name@
                        &&& e.item.type_file@ == si.file@
                        &&& (e.item.existing is Some <==> e.item.method_file is Some)
                        &&& entry_found(e.item) == lookup_method(
                            ms,
                            dir_of(si.file@),
                            method_name@,
                            si.item.spec_name().name@,
                        )
                    },
            decreases self.items@.len() - i,
        {
            let t: &'repo TypeSpec = self.items[i].item;
            let dir = before_last_of(self.items[i].file.as_str(), '/');
            let found = lookup_in(&all_methods.items, &dir, method_name, t.name().name.as_str());
            let (existing, method_file) = match found {
                Some((m, f)) => (Some(m), Some(f)),
                None => (None, None),
            };
            let entry = MethodEntry {
                type_spec: t,
                method_name: method_name.to_string(),
                existing,
                type_file: self.items[i].file.clone(),
                method_file,
            };
            entries.push(SelectionItem { item: entry, file: self.items[i].file.clone() });
            proof {
                assert(self.items@[i as int] == self.spec_items()[i as int]);
            }
            i = i + 1;
        }
        Selection { repo: self.repo, items: entries }
    }
}

/// Pairs the elements of two sequences of equal length.
pub open spec fn zip<A, B>(a: Seq<A>, b: Seq<B>) -> Seq<(A, B)> {
    Seq::new(a.len(), |k: int| (a[k], b[k]))
}

/// Whether an entry receives a new method from `or_add`.
pub open spec fn needs_method(e: MethodEntry) -> bool {
    e.existing is None && !e.type_spec.spec_span().spec_is_synthetic()
}

/// The edit that adds method `m` after an entry's type.
pub open spec fn add_edit(x: (SelectionItem<MethodEntry>, MethodDecl)) -> Option<(Seq<char>, EditKindView)> {
    if needs_method(x.0.item) {
        Some((x.0.item.type_file@, EditKindView::InsertAfter {
            anchor_byte: x.0.item.type_spec.spec_span().end_byte,
            new_text: "\n\n"@ + method_decl_text(x.1),
        }))
    } else {
        None
    }
}

/// Whether an entry's existing method can be modified or deleted.
pub open spec fn has_located_method(e: MethodEntry) -> bool {
    match entry_found(e) {
        Some((m, _)) => !m.span.spec_is_synthetic(),
        None => false,
    }
}

/// The edit that replaces an entry's existing method with `m`.
pub open spec fn modify_edit(x: (SelectionItem<MethodEntry>, MethodDecl)) -> Option<(Seq<char>, EditKindView)> {
    match entry_found(x.0.item) {
        Some((old, f)) => if old.span.spec_is_synthetic() {
            None
        } else {
            Some((f, EditKindView::Replace { span: old.span, new_text: method_decl_text(x.1) }))
        },
        None => None,
    }
}

impl<'repo> Selection<'repo, MethodEntry<'repo>> {
    /// Keeps only the entries whose method exists.
    pub fn existing(self) -> (r: Self)
        ensures
            r.spec_repo() == self.spec_repo(),
            r.spec_items() == self.spec_items().filter(|si: SelectionItem<MethodEntry>| si.item.existing is Some),
    {
        let ghost p = |si: SelectionItem<MethodEntry>| si.item.existing is Some;
        let mut flags: Vec<bool> = Vec::new();
        let mut i: usize = 0;
        while i < self.items.len()
            invariant
                i <= self.items@.len(),
                flags@.len() == i,
                p == (|si: SelectionItem<MethodEntry>| si.item.existing is Some),
                forall|k: int| 0 <= k < i ==> flags@[k] == p(#[trigger] self.items@[k]),
            decreases self.items@.len() - i,
        {
            let b = self.items[i].item.existing.is_some();
            flags.push(b);
            i = i + 1;
        }
        self.retain_by(&flags, Ghost(p))
    }

    /// Keeps only the entries whose method is absent.
    pub fn absent(self) -> (r: Self)
        ensures
            r.spec_repo() == self.spec_repo(),
            r.spec_items() == self.spec_items().filter(|si: SelectionItem<MethodEntry>| si.item.existing is None),
    {
        let ghost p = |si: SelectionItem<MethodEntry>| si.item.existing is None;
        let mut flags: Vec<bool> = Vec::new();
        let mut i: usize = 0;
        while i < self.items.len()
            invariant
                i <= self.items@.len(),
                flags@.len() == i,
                p == (|si: SelectionItem<MethodEntry>| si.item.existing is None),
                forall|k: int| 0 <= k < i ==> flags@[k] == p(#[trigger] self.items@[k]),
            decreases self.items@.len() - i,
        {
            let b = self.items[i].item.existing.is_none();
            flags.push(b);
            i = i + 1;
        }
        self.retain_by(&flags, Ghost(p))
    }

    /// Deletes the existing methods; absent ones, and methods without a source
    /// position, are skipped.
    pub fn delete(self) -> (c: Changes)
        ensures
            edits_view(c.edits@) == self.spec_items().filter_map(
                |si: SelectionItem<MethodEntry>| match entry_found(si.item) {
                    Some((m, f)) => if m.span.spec_is_synthetic() {
                        None
                    } else {
                        Some((f, EditKindView::Delete { span: m.span }))
                    },
                    None => None,
                },
            ),
    {
        let ghost f = |si: SelectionItem<MethodEntry>| match entry_found(si.item) {
            Some((m, f)) => if m.span.spec_is_synthetic() {
                None
            } else {
                Some((f, EditKindView::Delete { span: m.span }))
            },
            None => None,
        };
        let mut edits: Vec<Edit> = Vec::new();
        let mut i: usize = 0;
        while i < self.items.len()
            invariant
                i <= self.items@.len(),
                f == (|si: SelectionItem<MethodEntry>| match entry_found(si.item) {
                    Some((m, f)) => if m.span.spec_is_synthetic() {
                        None
                    } else {
                        Some((f, EditKindView::Delete { span: m.span }))
                    },
                    None => None,
                }),
                edits_view(edits@) == self.items@.take(i as int).filter_map(f),
            decreases self.items@.len() - i,
        {
            let ghost before = edits@;
            let e = &self.items[i].item;
            match (&e.existing, &e.method_file) {
                (Some(m), Some(file)) => {
                    if !m.span.is_synthetic() {
                        edits.push(Edit { file: file.clone(), kind: EditKind::Delete { span: m.span } });
                        proof {
                            assert(edits_view(edits@) =~= edits_view(before).push(edits@.last()@));
                        }
                    }
                },
                _ => {},
            }
            proof {
                assert(self.items@.take(i + 1).drop_last() =~= self.items@.take(i as int));
            }
            i = i + 1;
        }
        proof {
            assert(self.items@.take(i as int) =~= self.items@);
        }
        Changes { edits }
    }

    /// Adds the method built by `make_method` after the declaration of each
    /// type whose method is absent (separated by a blank line); types without a
    /// source position are skipped.
    pub fn or_add<F: Fn(&TypeSpec) -> MethodDecl>(self, make_method: F) -> (c: Changes)
        requires
            forall|i: int|
                0 <= i < self.spec_items().len() ==> call_requires(
                    make_method,
                    (#[trigger] self.spec_items()[i].item.type_spec,),
                ),
        ensures
            exists|ms: Seq<MethodDecl>|
                {
                    &&& ms.len() == self.spec_items().len()
                    &&& forall|k: int|
                        0 <= k < ms.len() && needs_method(self.spec_items()[k].item) ==> call_ensures(
                            make_method,
                            (#[trigger] self.spec_items()[k].item.type_spec,),
                            ms[k],
                        )
                    &&& edits_view(c.edits@) == zip(self.spec_items(), ms).filter_map(
                        |x: (SelectionItem<MethodEntry>, MethodDecl)| add_edit(x),
                    )
                },
    {
        let ghost g = |x: (SelectionItem<MethodEntry>, MethodDecl)| add_edit(x);
        let ghost mut ms: Seq<MethodDecl> = Seq::empty();
        let mut edits: Vec<Edit> = Vec::new();
        let mut i: usize = 0;
        while i < self.items.len()
            invariant
                i <= self.items@.len(),
                ms.len() == i,
                g == (|x: (SelectionItem<MethodEntry>, MethodDecl)| add_edit(x)),
                forall|k: int|
                    0 <= k < self.spec_items().len() ==> call_requires(
                        make_method,
                        (#[trigger] self.spec_items()[k].item.type_spec,),
                    ),
                forall|k: int|
                    0 <= k < ms.len() && needs_method(self.spec_items()[k].item) ==> call_ensures(
                        make_method,
                        (#[trigger] self.spec_items()[k].item.type_spec,),
                        ms[k],
                    ),
                edits_view(edits@) == zip(self.items@.take(i as int), ms).filter_map(g),
            decreases self.items@.len() - i,
        {
            let ghost before = edits@;
            let ghost before_ms = ms;
            let e = &self.items[i].item;
            if e.existing.is_none() && !e.type_spec.span().is_synthetic() {
                proof {
                    assert(self.items@[i as int] == self.spec_items()[i as int]);
                    assert(call_requires(make_method, (self.spec_items()[i as int].item.type_spec,)));
                }
                let m = make_method(e.type_spec);
                let printed = Printer::method_decl(&m);
                let mut text = String::new();
                text.append("\n\n");
                text.append(printed.as_str());
                edits.push(
                    Edit {
                        file: e.type_file.clone(),
                        kind: EditKind::InsertAfter { anchor_byte: e.type_spec.span().end_byte, new_text: text },
                    },
                );
                proof {
                    ms = ms.push(m);
                    assert(edits_view(edits@) =~= edits_view(before).push(edits@.last()@));
                }
            } else {
                proof {
                    ms = ms.push(vstd::pervasive::arbitrary());
                }
            }
            proof {
                assert(zip(self.items@.take(i + 1), ms).drop_last() =~= zip(self.items@.take(i as int), before_ms));
                assert(zip(self.items@.take(i + 1), ms).last() == (self.items@[i as int], ms[i as int]));
            }
            i = i + 1;
        }
        proof {
            assert(self.items@.take(i as int) =~= self.items@);
        }
        Changes { edits }
    }

    /// Replaces each existing method with the method `modify` builds from it;
    /// absent ones, and methods without a source position, are skipped.
    pub fn and_modify<F: Fn(&MethodDecl) -> MethodDecl>(self, modify: F) -> (c: Changes)
        requires
            forall|i: int|
                0 <= i < self.spec_items().len() && (#[trigger] self.spec_items()[i]).item.existing is Some
                    ==> call_requires(modify, (self.spec_items()[i].item.existing->0,)),
        ensures
            exists|ms: Seq<MethodDecl>|
                {
                    &&& ms.len() == self.spec_items().len()
                    &&& forall|k: int|
                        0 <= k < ms.len() && has_located_method(#[trigger] self.spec_items()[k].item) ==> call_ensures(
                            modify,
                            (self.spec_items()[k].item.existing->0,),
                            ms[k],
                        )
                    &&& edits_view(c.edits@) == zip(self.spec_items(), ms).filter_map(
                        |x: (SelectionItem<MethodEntry>, MethodDecl)| modify_edit(x),
                    )
                },
    {
        let ghost g = |x: (SelectionItem<MethodEntry>, MethodDecl)| modify_edit(x);
        let ghost mut ms: Seq<MethodDecl> = Seq::empty();
        let mut edits: Vec<Edit> = Vec::new();
        let mut i: usize = 0;
        while i < self.items.len()
            invariant
                i <= self.items@.len(),
                ms.len() == i,
                g == (|x: (SelectionItem<MethodEntry>, MethodDecl)| modify_edit(x)),
                forall|k: int|
                    0 <= k < self.spec_items().len() && (#[trigger] self.spec_items()[k]).item.existing is Some
                        ==> call_requires(modify, (self.spec_items()[k].item.existing->0,)),
                forall|k: int|
                    0 <= k < ms.len() && has_located_method(#[trigger] self.spec_items()[k].item) ==> call_ensures(
                        modify,
                        (self.spec_items()[k].item.existing->0,),
                        ms[k],
                    ),
                edits_view(edits@) == zip(self.items@.take(i as int), ms).filter_map(g),
            decreases self.items@.len() - i,
        {
            let ghost before = edits@;
            let ghost before_ms = ms;
            let e = &self.items[i].item;
            proof {
                assert(self.items@[i as int] == self.spec_items()[i as int]);
            }
            match (&e.existing, &e.method_file) {
                (Some(old), Some(file)) => {
                    if !old.span.is_synthetic() {
                        let m = modify(*old);
                        let new_text = Printer::method_decl(&m);
                        edits.push(
                            Edit { file: file.clone(), kind: EditKind::Replace { span: old.span, new_text } },
                        );
                        proof {
                            ms = ms.push(m);
                            assert(edits_view(edits@) =~= edits_view(before).push(edits@.last()@));
                        }
                    } else {
                        proof {
                            ms = ms.push(vstd::pervasive::arbitrary());
                        }
                    }
                },
                _ => {
                    proof {
                        ms = ms.push(vstd::pervasive::arbitrary());
                    }
                },
            }
            proof {
                assert(zip(self.items@.take(i + 1), ms).drop_last() =~= zip(self.items@.take(i as int), before_ms));
                assert(zip(self.items@.take(i + 1), ms).last() == (self.items@[i as int], ms[i as int]));
            }
            i = i + 1;
        }
        proof {
            assert(self.items@.take(i as int) =~= self.items@);
        }
        Changes { edits }
    }
}

/// Filtering by a property and by its negation splits a sequence in two.
proof fn lemma_filter_split<A>(s: Seq<A>, p: spec_fn(A) -> bool, q: spec_fn(A) -> bool)
    requires
        forall|x: A| #[trigger] q(x) == !p(x),
    ensures
        s.filter(p).len() + s.filter(q).len() == s.len(),
    decreases s.len(),
{
    if s.len() > 0 {
        let d = s.drop_last();
        lemma_filter_split(d, p, q);
        assert(q(s.last()) == !p(s.last()));
        d.lemma_filter_push(s.last(), p);
        d.lemma_filter_push(s.last(), q);
        assert(d.push(s.last()) =~= s);
    } else {
        reveal(Seq::filter);
    }
}

/// Every function of a selection is either exported or unexported: the two
/// parts add up to the whole.
pub proof fn law_functions_split_by_export(items: Seq<SelectionItem<&FuncDecl>>)
    ensures
        items.filter(|si: SelectionItem<&FuncDecl>| spec_is_exported(si.item.name.name@)).len() + items.filter(
            |si: SelectionItem<&FuncDecl>| !spec_is_exported(si.item.name.name@),
        ).len() == items.len(),
{
    lemma_filter_split(
        items,
        |si: SelectionItem<&FuncDecl>| spec_is_exported(si.item.name.name@),
        |si: SelectionItem<&FuncDecl>| !spec_is_exported(si.item.name.name@),
    );
}

/// Every method of a selection is either exported or unexported.
pub proof fn law_methods_split_by_export(items: Seq<SelectionItem<&MethodDecl>>)
    ensures
        items.filter(|si: SelectionItem<&MethodDecl>| spec_is_exported(si.item.name.name@)).len() + items.filter(
            |si: SelectionItem<&MethodDecl>| !spec_is_exported(si.item.name.name@),
        ).len() == items.len(),
{
    lemma_filter_split(
        items,
        |si: SelectionItem<&MethodDecl>| spec_is_exported(si.item.name.name@),
        |si: SelectionItem<&MethodDecl>| !spec_is_exported(si.item.name.name@),
    );
}

/// Every type of a selection is either exported or unexported.
pub proof fn law_types_split_by_export(items: Seq<SelectionItem<&TypeSpec>>)
    ensures
        items.filter(|si: SelectionItem<&TypeSpec>| spec_is_exported(si.item.spec_name().name@)).len()
            + items.filter(|si: SelectionItem<&TypeSpec>| !spec_is_exported(si.item.spec_name().name@)).len()
            == items.len(),
{
    lemma_filter_split(
        items,
        |si: SelectionItem<&TypeSpec>| spec_is_exported(si.item.spec_name().name@),
        |si: SelectionItem<&TypeSpec>| !spec_is_exported(si.item.spec_name().name@),
    );
}

/// For a method looked up on each type, every type either has it or lacks
/// it: the existing and absent entries add up to all entries.
pub proof fn law_method_entries_split(items: Seq<SelectionItem<MethodEntry>>)
    ensures
        items.filter(|si: SelectionItem<MethodEntry>| si.item.existing is Some).len() + items.filter(
            |si: SelectionItem<MethodEntry>| si.item.existing is None,
        ).len() == items.len(),
{
    lemma_filter_split(
        items,
        |si: SelectionItem<MethodEntry>| si.item.existing is Some,
        |si: SelectionItem<MethodEntry>| si.item.existing is None,
    );
}


/// A pointer receiver has the base type of the type it points to.
pub proof fn law_receiver_base_through_pointer(t: TypeExpr)
    requires
        !(t is Pointer),
    ensures
        receiver_base(TypeExpr::Pointer(Box::new(t))) == receiver_base(t),
{
}

/// The receiver base of a named type, an instantiated generic type, and a
/// pointer to either, is the type's name.
pub proof fn law_receiver_base_is_type_name(id: Ident, args: Vec<TypeExpr>)
    ensures
        receiver_base(TypeExpr::Named(id)) == Some(id.name@),
        receiver_base(TypeExpr::Pointer(Box::new(TypeExpr::Named(id)))) == Some(id.name@),
        receiver_base(TypeExpr::Generic { base: Box::new(TypeExpr::Named(id)), args }) == Some(id.name@),
        receiver_base(
            TypeExpr::Pointer(Box::new(TypeExpr::Generic { base: Box::new(TypeExpr::Named(id)), args })),
        ) == Some(id.name@),
{
}

} // verus!
