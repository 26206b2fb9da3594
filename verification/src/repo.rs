//! A loaded Go repository: the parsed syntax tree and source bytes of every file.

use vstd::prelude::*;

use crate::ast::{FuncDecl, MethodDecl, SourceFile, TopLevelDecl, TypeSpec};
use crate::resolver::imports_ok;
use crate::output::spans_fit;
use crate::text::str_eq;
use crate::selection::{Selection, SelectionItem, pairs, lemma_pairs_filter};
use crate::applied::{
    Applied, applied_failures, applied_results, distinct_edit_paths, edit_paths,
    edits_for, failures_view, file_edits, file_outcome, lemma_edit_paths_contains,
    lemma_same_views_same_ops, ok_count, path_ok, results_view,
};
use crate::changes::Changes;
use crate::edit::{ApplyError, apply_edits, apply_outcome};

verus! {

/// One parsed file of a repository.
#[derive(Debug)]
pub struct RepoFile {
    pub path: String,
    pub source: Vec<u8>,
    pub ast: SourceFile,
}

/// A loaded Go repository: the parsed syntax tree of every `.go` file under a
/// root directory, each under its path.
#[derive(Debug)]
pub struct Repo {
    root: String,
    files: Vec<RepoFile>,
}

/// No path occurs twice.
pub open spec fn distinct_paths(fs: Seq<RepoFile>) -> bool {
    forall|i: int, j: int| 0 <= i < j < fs.len() ==> fs[i].path@ != fs[j].path@
}

/// The repository invariant: distinct paths, and in every file readable
/// import paths and rows that can be turned into line numbers.
pub open spec fn files_ok(fs: Seq<RepoFile>) -> bool {
    &&& distinct_paths(fs)
    &&& forall|i: int| 0 <= i < fs.len() ==> imports_ok(#[trigger] fs[i].ast)
    &&& forall|i: int| 0 <= i < fs.len() ==> spans_fit(#[trigger] fs[i].ast)
}

/// The functions among a file's top-level declarations, in order.
pub open spec fn funcs_in(ds: Seq<TopLevelDecl>) -> Seq<FuncDecl>
    decreases ds.len(),
{
    if ds.len() == 0 {
        Seq::empty()
    } else {
        funcs_in(ds.drop_last()) + match ds.last() {
            TopLevelDecl::Func(f) => seq![*f],
            _ => Seq::empty(),
        }
    }
}

/// The methods among a file's top-level declarations, in order.
pub open spec fn methods_in(ds: Seq<TopLevelDecl>) -> Seq<MethodDecl>
    decreases ds.len(),
{
    if ds.len() == 0 {
        Seq::empty()
    } else {
        methods_in(ds.drop_last()) + match ds.last() {
            TopLevelDecl::Method(m) => seq![*m],
            _ => Seq::empty(),
        }
    }
}

/// The type specifications of a file's type declarations, in order.
pub open spec fn types_in(ds: Seq<TopLevelDecl>) -> Seq<TypeSpec>
    decreases ds.len(),
{
    if ds.len() == 0 {
        Seq::empty()
    } else {
        types_in(ds.drop_last()) + match ds.last() {
            TopLevelDecl::Type(specs) => specs@,
            _ => Seq::empty(),
        }
    }
}

/// Pairs each item with a file path.
pub open spec fn located<T>(items: Seq<T>, path: Seq<char>) -> Seq<(T, Seq<char>)> {
    items.map_values(|x: T| (x, path))
}

/// Every function of the repository with the path of its file, file by file.
pub open spec fn repo_funcs(fs: Seq<RepoFile>) -> Seq<(FuncDecl, Seq<char>)>
    decreases fs.len(),
{
    if fs.len() == 0 {
        Seq::empty()
    } else {
        repo_funcs(fs.drop_last()) + located(funcs_in(fs.last().ast.decls@), fs.last().path@)
    }
}

/// Every method of the repository with the path of its file, file by file.
pub open spec fn repo_methods(fs: Seq<RepoFile>) -> Seq<(MethodDecl, Seq<char>)>
    decreases fs.len(),
{
    if fs.len() == 0 {
        Seq::empty()
    } else {
        repo_methods(fs.drop_last()) + located(methods_in(fs.last().ast.decls@), fs.last().path@)
    }
}

/// Every type specification of the repository with the path of its file.
pub open spec fn repo_types(fs: Seq<RepoFile>) -> Seq<(TypeSpec, Seq<char>)>
    decreases fs.len(),
{
    if fs.len() == 0 {
        Seq::empty()
    } else {
        repo_types(fs.drop_last()) + located(types_in(fs.last().ast.decls@), fs.last().path@)
    }
}

/// The package name of the file at `path`, if the repository holds it.
pub open spec fn package_of(fs: Seq<RepoFile>, path: Seq<char>) -> Option<Seq<char>> {
    match path_index(fs, path) {
        Some(i) => Some(fs[i].ast.package.name@),
        None => None,
    }
}

impl Repo {
    /// The repository invariant.
    #[verifier::type_invariant]
    spec fn inv(self) -> bool {
        files_ok(self.files@)
    }

    /// The files of the repository, in the order they were added.
    pub closed spec fn spec_files(&self) -> Seq<RepoFile> {
        self.files@
    }

    /// The root directory the repository was loaded from.
    pub closed spec fn spec_root(&self) -> Seq<char> {
        self.root@
    }

    /// The files of the repository.
    pub(crate) fn files(&self) -> (r: &Vec<RepoFile>)
        ensures
            r@ == self.spec_files(),
            files_ok(r@),
    {
        proof {
            use_type_invariant(self);
        }
        &self.files
    }

    /// The number of files in the repository.
    pub fn file_count(&self) -> (n: usize)
        ensures
            n == self.spec_files().len(),
    {
        self.files.len()
    }

    /// The root directory the repository was loaded from.
    pub fn root(&self) -> (r: &str)
        ensures
            r@ == self.spec_root(),
    {
        self.root.as_str()
    }

    /// The package name of the file at `file`, or `None` if the repository
    /// does not hold it.
    pub fn package_for_file(&self, file: &str) -> (r: Option<&str>)
        ensures
            match r {
                Some(p) => package_of(self.spec_files(), file@) == Some(p@),
                None => package_of(self.spec_files(), file@) is None,
            },
    {
        proof {
            use_type_invariant(self);
        }
        match find_path(&self.files, file) {
            Some(j) => Some(self.files[j].ast.package.name.as_str()),
            None => None,
        }
    }

    /// Every top-level function of the repository, file by file.
    pub fn functions(&self) -> (s: Selection<'_, &FuncDecl>)
        ensures
            s.spec_repo() == *self,
            pairs(s.spec_items()) == repo_funcs(self.spec_files()),
    {
        let mut items: Vec<SelectionItem<&FuncDecl>> = Vec::new();
        let mut i: usize = 0;
        while i < self.files.len()
            invariant
                i <= self.files@.len(),
                pairs(items@) == repo_funcs(self.files@.take(i as int)),
            decreases self.files@.len() - i,
        {
            let rf = &self.files[i];
            let mut j: usize = 0;
            while j < rf.ast.decls.len()
                invariant
                    i < self.files@.len(),
                    *rf == self.files@[i as int],
                    j <= rf.ast.decls@.len(),
                    pairs(items@) == repo_funcs(self.files@.take(i as int)) + located(
                        funcs_in(rf.ast.decls@.take(j as int)),
                        rf.path@,
                    ),
                decreases rf.ast.decls@.len() - j,
            {
                let ghost before = items@;
                proof {
                    assert(rf.ast.decls@.take(j + 1).drop_last() =~= rf.ast.decls@.take(j as int));
                }
                match &rf.ast.decls[j] {
                    TopLevelDecl::Func(f) => {
                        items.push(SelectionItem { item: &**f, file: rf.path.clone() });
                        proof {
                            assert(pairs(items@) =~= pairs(before).push((**f, rf.path@)));
                        }
                    },
                    _ => {},
                }
                proof {
                    assert(located(funcs_in(rf.ast.decls@.take(j + 1)), rf.path@) =~= if items@.len() > before.len() {
                        located(funcs_in(rf.ast.decls@.take(j as int)), rf.path@).push(pairs(items@).last())
                    } else {
                        located(funcs_in(rf.ast.decls@.take(j as int)), rf.path@)
                    });
                }
                j = j + 1;
            }
            proof {
                assert(rf.ast.decls@.take(j as int) =~= rf.ast.decls@);
                assert(self.files@.take(i + 1).drop_last() =~= self.files@.take(i as int));
            }
            i = i + 1;
        }
        proof {
            assert(self.files@.take(i as int) =~= self.files@);
        }
        Selection::from_parts(self, items)
    }

    /// Every method of the repository, file by file.
    pub fn methods(&self) -> (s: Selection<'_, &MethodDecl>)
        ensures
            s.spec_repo() == *self,
            pairs(s.spec_items()) == repo_methods(self.spec_files()),
    {
        let mut items: Vec<SelectionItem<&MethodDecl>> = Vec::new();
        let mut i: usize = 0;
        while i < self.files.len()
            invariant
                i <= self.files@.len(),
                pairs(items@) == repo_methods(self.files@.take(i as int)),
            decreases self.files@.len() - i,
        {
            let rf = &self.files[i];
            let mut j: usize = 0;
            while j < rf.ast.decls.len()
                invariant
                    i < self.files@.len(),
                    *rf == self.files@[i as int],
                    j <= rf.ast.decls@.len(),
                    pairs(items@) == repo_methods(self.files@.take(i as int)) + located(
                        methods_in(rf.ast.decls@.take(j as int)),
                        rf.path@,
                    ),
                decreases rf.ast.decls@.len() - j,
            {
                let ghost before = items@;
                proof {
                    assert(rf.ast.decls@.take(j + 1).drop_last() =~= rf.ast.decls@.take(j as int));
                }
                match &rf.ast.decls[j] {
                    TopLevelDecl::Method(f) => {
                        items.push(SelectionItem { item: &**f, file: rf.path.clone() });
                        proof {
                            assert(pairs(items@) =~= pairs(before).push((**f, rf.path@)));
                        }
                    },
                    _ => {},
                }
                proof {
                    assert(located(methods_in(rf.ast.decls@.take(j + 1)), rf.path@) =~= if items@.len() > before.len() {
                        located(methods_in(rf.ast.decls@.take(j as int)), rf.path@).push(pairs(items@).last())
                    } else {
                        located(methods_in(rf.ast.decls@.take(j as int)), rf.path@)
                    });
                }
                j = j + 1;
            }
            proof {
                assert(rf.ast.decls@.take(j as int) =~= rf.ast.decls@);
                assert(self.files@.take(i + 1).drop_last() =~= self.files@.take(i as int));
            }
            i = i + 1;
        }
        proof {
            assert(self.files@.take(i as int) =~= self.files@);
        }
        Selection::from_parts(self, items)
    }

    /// Every type specification of the repository, file by file.
    pub fn types(&self) -> (s: Selection<'_, &TypeSpec>)
        ensures
            s.spec_repo() == *self,
            pairs(s.spec_items()) == repo_types(self.spec_files()),
    {
        let mut items: Vec<SelectionItem<&TypeSpec>> = Vec::new();
        let mut i: usize = 0;
        while i < self.files.len()
            invariant
                i <= self.files@.len(),
                pairs(items@) == repo_types(self.files@.take(i as int)),
            decreases self.files@.len() - i,
        {
            let rf = &self.files[i];
            let mut j: usize = 0;
            while j < rf.ast.decls.len()
                invariant
                    i < self.files@.len(),
                    *rf == self.files@[i as int],
                    j <= rf.ast.decls@.len(),
                    pairs(items@) == repo_types(self.files@.take(i as int)) + located(
                        types_in(rf.ast.decls@.take(j as int)),
                        rf.path@,
                    ),
                decreases rf.ast.decls@.len() - j,
            {
                let ghost before = items@;
                proof {
                    assert(rf.ast.decls@.take(j + 1).drop_last() =~= rf.ast.decls@.take(j as int));
                }
                match &rf.ast.decls[j] {
                    TopLevelDecl::Type(specs) => {
                        let mut k: usize = 0;
                        while k < specs.len()
                            invariant
                                k <= specs@.len(),
                                pairs(items@) == pairs(before) + located(
                                    specs@.take(k as int),
                                    rf.path@,
                                ),
                            decreases specs@.len() - k,
                        {
                            let ghost mid = items@;
                            items.push(SelectionItem { item: &specs[k], file: rf.path.clone() });
                            proof {
                                assert(pairs(items@) =~= pairs(mid).push((specs@[k as int], rf.path@)));
                                assert(located(specs@.take(k + 1), rf.path@) =~= located(
                                    specs@.take(k as int),
                                    rf.path@,
                                ).push((specs@[k as int], rf.path@)));
                            }
                            k = k + 1;
                        }
                        proof {
                            assert(specs@.take(k as int) =~= specs@);
                            assert(located(types_in(rf.ast.decls@.take(j + 1)), rf.path@) =~= located(
                                types_in(rf.ast.decls@.take(j as int)),
                                rf.path@,
                            ) + located(specs@, rf.path@));
                        }
                    },
                    _ => {
                        proof {
                            assert(located(types_in(rf.ast.decls@.take(j + 1)), rf.path@) =~= located(
                                types_in(rf.ast.decls@.take(j as int)),
                                rf.path@,
                            ));
                        }
                    },
                }
                j = j + 1;
            }
            proof {
                assert(rf.ast.decls@.take(j as int) =~= rf.ast.decls@);
                assert(self.files@.take(i + 1).drop_last() =~= self.files@.take(i as int));
            }
            i = i + 1;
        }
        proof {
            assert(self.files@.take(i as int) =~= self.files@);
        }
        Selection::from_parts(self, items)
    }

    /// Every struct type definition of the repository.
    pub fn structs(&self) -> (s: Selection<'_, &TypeSpec>)
        ensures
            s.spec_repo() == *self,
            pairs(s.spec_items()) == repo_types(self.spec_files()).filter(
                |x: (TypeSpec, Seq<char>)| x.0.spec_is_struct(),
            ),
    {
        let all = self.types();
        proof {
            lemma_pairs_filter(
                all.spec_items(),
                |si: SelectionItem<&TypeSpec>| si.item.spec_is_struct(),
                |x: (TypeSpec, Seq<char>)| x.0.spec_is_struct(),
            );
        }
        all.structs()
    }

    /// Every interface type definition of the repository.
    pub fn interfaces(&self) -> (s: Selection<'_, &TypeSpec>)
        ensures
            s.spec_repo() == *self,
            pairs(s.spec_items()) == repo_types(self.spec_files()).filter(
                |x: (TypeSpec, Seq<char>)| x.0.spec_is_interface(),
            ),
    {
        let all = self.types();
        proof {
            lemma_pairs_filter(
                all.spec_items(),
                |si: SelectionItem<&TypeSpec>| si.item.spec_is_interface(),
                |x: (TypeSpec, Seq<char>)| x.0.spec_is_interface(),
            );
        }
        all.interfaces()
    }

    /// Applies a set of changes: the edits are grouped by file (in order of
    /// first appearance) and each group is applied to its file's bytes. Files
    /// the repository does not hold are skipped; a group that fails leaves its
    /// file unchanged and is reported among the failures.
    pub fn apply(&self, changes: Changes) -> (a: Applied<'_>)
        ensures
            a.spec_repo() == *self,
            a.spec_results() == applied_results(self.spec_files(), changes.edits@),
            a.spec_failures() == applied_failures(self.spec_files(), changes.edits@),
            a.spec_edit_count() == ok_count(self.spec_files(), changes.edits@, changes.edits@),
    {
        proof {
            use_type_invariant(self);
        }
        let edits = changes.edits;
        let ghost s = edits@;
        let ghost fs = self.files@;
        let paths = distinct_edit_paths(&edits);
        let ghost ps = edit_paths(s);
        let mut results: Vec<(String, Vec<u8>)> = Vec::new();
        let mut failures: Vec<(String, ApplyError)> = Vec::new();
        let mut oks: Vec<bool> = Vec::new();
        let mut k: usize = 0;
        while k < paths.len()
            invariant
                k <= paths@.len(),
                fs == self.spec_files(),
                files_ok(fs),
                s == edits@,
                ps == edit_paths(s),
                paths@.map_values(|x: String| x@) == ps,
                oks@.len() == k,
                forall|j: int| 0 <= j < k ==> oks@[j] == path_ok(fs, s, #[trigger] ps[j]),
                results_view(results@) == ps.take(k as int).filter_map(
                    |p: Seq<char>| match file_outcome(fs, s, p) {
                        Some(Ok(b)) => Some((p, b)),
                        _ => None,
                    },
                ),
                failures_view(failures@) == ps.take(k as int).filter_map(
                    |p: Seq<char>| match file_outcome(fs, s, p) {
                        Some(Err(e)) => Some((p, e)),
                        _ => None,
                    },
                ),
            decreases paths@.len() - k,
        {
            let ghost r0 = results@;
            let ghost f0 = failures@;
            let p = &paths[k];
            proof {
                assert(p@ == ps[k as int]);
                assert(ps.take(k + 1).drop_last() =~= ps.take(k as int));
                assert(ps.take(k + 1).last() == ps[k as int]);
            }
            let mut ok = false;
            match find_path(&self.files, p.as_str()) {
                Some(j) => {
                    let group = edits_for(&edits, p.as_str());
                    proof {
                        lemma_same_views_same_ops(group@, file_edits(s, p@));
                        assert(apply_outcome(self.files@[j as int].source@, group@) == apply_outcome(
                            self.files@[j as int].source@,
                            file_edits(s, p@),
                        ));
                    }
                    match apply_edits(self.files[j].source.as_slice(), group.as_slice()) {
                        Ok(b) => {
                            results.push((p.clone(), b));
                            ok = true;
                            proof {
                                assert(results_view(results@) =~= results_view(r0).push(results_view(results@).last()));
                            }
                        },
                        Err(e) => {
                            failures.push((p.clone(), e));
                            proof {
                                assert(failures_view(failures@) =~= failures_view(f0).push(failures_view(failures@).last()));
                            }
                        },
                    }
                },
                None => {},
            }
            oks.push(ok);
            k = k + 1;
        }
        proof {
            assert(ps.take(k as int) =~= ps);
        }
        // Count the edits whose file's group applied.
        let mut count: usize = 0;
        let mut i: usize = 0;
        while i < edits.len()
            invariant
                i <= edits@.len(),
                count <= i,
                s == edits@,
                ps == edit_paths(s),
                paths@.map_values(|x: String| x@) == ps,
                oks@.len() == ps.len(),
                forall|j: int| 0 <= j < ps.len() ==> oks@[j] == path_ok(fs, s, #[trigger] ps[j]),
                count == ok_count(fs, s, s.take(i as int)),
            decreases edits@.len() - i,
        {
            proof {
                lemma_edit_paths_contains(s, i as int);
                assert(s.take(i + 1).drop_last() =~= s.take(i as int));
                assert(s.take(i + 1).last() == s[i as int]);
            }
            let hit = match position_of(&paths, edits[i].file.as_str()) {
                Some(k2) => {
                    proof {
                        assert(paths@[k2 as int]@ == ps[k2 as int]);
                    }
                    oks[k2]
                },
                None => {
                    proof {
                        let j = choose|j: int| 0 <= j < ps.len() && ps[j] == s[i as int].file@;
                        assert(paths@[j]@ == ps[j]);
                    }
                    false
                },
            };
            if hit {
                count = count + 1;
            }
            i = i + 1;
        }
        proof {
            assert(s.take(i as int) =~= s);
        }
        Applied::from_parts(self, results, count, failures)
    }

    /// A repository of the given files; a later file with the path of an
    /// earlier one takes its place.
    pub fn new(root: String, files: Vec<RepoFile>) -> (r: Repo)
        requires
            forall|i: int| 0 <= i < files@.len() ==> imports_ok(#[trigger] files@[i].ast),
            forall|i: int| 0 <= i < files@.len() ==> spans_fit(#[trigger] files@[i].ast),
        ensures
            r.spec_root() == root@,
            r.spec_files() == merged(files@),
    {
        let mut files = files;
        let ghost input = files@;
        let mut kept: Vec<RepoFile> = Vec::new();
        let ghost mut done: int = 0;
        while files.len() > 0
            invariant
                0 <= done <= input.len(),
                files@ == input.skip(done),
                kept@ == merged(input.take(done)),
                files_ok(kept@),
                forall|i: int| 0 <= i < input.len() ==> imports_ok(#[trigger] input[i].ast),
                forall|i: int| 0 <= i < input.len() ==> spans_fit(#[trigger] input[i].ast),
            decreases files.len(),
        {
            let f = files.remove(0);
            proof {
                assert(f == input[done]);
                assert(input.take(done + 1).drop_last() =~= input.take(done));
                assert(input.take(done + 1).last() == f);
            }
            let found = find_path(&kept, f.path.as_str());
            let ghost k0 = kept@;
            proof {
                assert(imports_ok(input[done].ast) && spans_fit(input[done].ast));
            }
            match found {
                Some(j) => {
                    kept.remove(j);
                    kept.insert(j, f);
                    proof {
                        assert(kept@ =~= k0.update(j as int, f));
                        assert forall|a: int, b: int| 0 <= a < b < kept@.len() implies kept@[a].path@
                            != kept@[b].path@ by {
                            assert(k0[a].path@ != k0[b].path@);
                        }
                        assert forall|i: int| 0 <= i < kept@.len() implies imports_ok(#[trigger] kept@[i].ast)
                            && spans_fit(kept@[i].ast) by {
                            if i != j {
                                assert(kept@[i] == k0[i]);
                            }
                        }
                    }
                },
                None => {
                    kept.push(f);
                    proof {
                        assert forall|a: int, b: int| 0 <= a < b < kept@.len() implies kept@[a].path@
                            != kept@[b].path@ by {
                            if b < k0.len() {
                                assert(k0[a].path@ != k0[b].path@);
                            } else {
                                assert(k0[a].path@ != f.path@);
                            }
                        }
                        assert forall|i: int| 0 <= i < kept@.len() implies imports_ok(#[trigger] kept@[i].ast)
                            && spans_fit(kept@[i].ast) by {
                            if i < k0.len() {
                                assert(kept@[i] == k0[i]);
                            }
                        }
                    }
                },
            }
            proof {
                done = done + 1;
                assert(files@ =~= input.skip(done));
            }
        }
        proof {
            assert(input.take(done) =~= input);
        }
        Repo { root, files: kept }
    }
}

/// The position of `p` among `paths`, if any.
fn position_of(paths: &Vec<String>, p: &str) -> (r: Option<usize>)
    ensures
        match r {
            Some(k) => k < paths@.len() && paths@[k as int]@ == p@,
            None => forall|j: int| 0 <= j < paths@.len() ==> (#[trigger] paths@[j])@ != p@,
        },
{
    let mut k: usize = 0;
    while k < paths.len()
        invariant
            k <= paths@.len(),
            forall|j: int| 0 <= j < k ==> (#[trigger] paths@[j])@ != p@,
        decreases paths@.len() - k,
    {
        if str_eq(paths[k].as_str(), p) {
            return Some(k);
        }
        k = k + 1;
    }
    None
}

/// The index of the file with the given path, if any.
pub(crate) fn find_path(fs: &Vec<RepoFile>, path: &str) -> (r: Option<usize>)
    requires
        distinct_paths(fs@),
    ensures
        match r {
            Some(j) => j < fs@.len() && fs@[j as int].path@ == path@,
            None => forall|j: int| 0 <= j < fs@.len() ==> #[trigger] fs@[j].path@ != path@,
        },
        r is Some <==> path_index(fs@, path@) is Some,
        r is Some ==> path_index(fs@, path@) == Some(r->0 as int),
{
    let mut j: usize = 0;
    while j < fs.len()
        invariant
            j <= fs@.len(),
            distinct_paths(fs@),
            forall|k: int| 0 <= k < j ==> #[trigger] fs@[k].path@ != path@,
        decreases fs.len() - j,
    {
        if str_eq(fs[j].path.as_str(), path) {
            return Some(j);
        }
        j = j + 1;
    }
    None
}

/// The position of the file with the given path, if any.
pub open spec fn path_index(fs: Seq<RepoFile>, path: Seq<char>) -> Option<int> {
    if exists|j: int| 0 <= j < fs.len() && #[trigger] fs[j].path@ == path {
        Some(choose|j: int| 0 <= j < fs.len() && #[trigger] fs[j].path@ == path)
    } else {
        None
    }
}

/// Adds a file to a list of files: it takes the place of a file with its path,
/// or comes last.
pub open spec fn put_file(fs: Seq<RepoFile>, f: RepoFile) -> Seq<RepoFile> {
    match path_index(fs, f.path@) {
        Some(j) => fs.update(j, f),
        None => fs.push(f),
    }
}

/// The files of a repository built from `s`, in order of first appearance of
/// each path, each path holding its last file.
pub open spec fn merged(s: Seq<RepoFile>) -> Seq<RepoFile>
    decreases s.len(),
{
    if s.len() == 0 {
        Seq::empty()
    } else {
        put_file(merged(s.drop_last()), s.last())
    }
}

} // verus!
