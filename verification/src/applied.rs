//! The result of applying a set of changes to a repository: the new bytes of
//! each file, previews as unified diffs, and a summary.

use vstd::prelude::*;
use vstd::utf8::{decode_utf8, valid_utf8};

use crate::edit::{Edit, EditKind, ApplyError, apply_outcome, edit_ops, edits_view, resolve};
use crate::repo::{Repo, RepoFile, path_index};
use crate::text::str_eq;

verus! {

/// The distinct file paths of a list of edits, in order of first appearance.
pub open spec fn edit_paths(s: Seq<Edit>) -> Seq<Seq<char>>
    decreases s.len(),
{
    if s.len() == 0 {
        Seq::empty()
    } else {
        let rest = edit_paths(s.drop_last());
        if rest.contains(s.last().file@) {
            rest
        } else {
            rest.push(s.last().file@)
        }
    }
}

/// The edits of `s` for file `p`, in order.
pub open spec fn file_edits(s: Seq<Edit>, p: Seq<char>) -> Seq<Edit>
    decreases s.len(),
{
    if s.len() == 0 {
        Seq::empty()
    } else {
        let rest = file_edits(s.drop_last(), p);
        if s.last().file@ == p {
            rest.push(s.last())
        } else {
            rest
        }
    }
}

/// What applying the edits of `s` for file `p` to that file of the repository
/// gives; `None` when the repository has no such file.
pub open spec fn file_outcome(fs: Seq<RepoFile>, s: Seq<Edit>, p: Seq<char>) -> Option<
    Result<Seq<u8>, ApplyError>,
> {
    match path_index(fs, p) {
        Some(j) => apply_outcome(fs[j].source@, file_edits(s, p)),
        None => None,
    }
}

/// The new bytes of each file whose edits applied, in order of first appearance.
pub open spec fn applied_results(fs: Seq<RepoFile>, s: Seq<Edit>) -> Seq<(Seq<char>, Seq<u8>)> {
    edit_paths(s).filter_map(
        |p: Seq<char>| match file_outcome(fs, s, p) {
            Some(Ok(b)) => Some((p, b)),
            _ => None,
        },
    )
}

/// The error of each file whose edits did not apply, in order of first appearance.
pub open spec fn applied_failures(fs: Seq<RepoFile>, s: Seq<Edit>) -> Seq<(Seq<char>, ApplyError)> {
    edit_paths(s).filter_map(
        |p: Seq<char>| match file_outcome(fs, s, p) {
            Some(Err(e)) => Some((p, e)),
            _ => None,
        },
    )
}

/// Whether the edits of file `p` applied.
pub open spec fn path_ok(fs: Seq<RepoFile>, s: Seq<Edit>, p: Seq<char>) -> bool {
    file_outcome(fs, s, p) matches Some(Ok(_))
}

/// The number of edits of `t` whose file's edits (among `s`) applied.
pub open spec fn ok_count(fs: Seq<RepoFile>, s: Seq<Edit>, t: Seq<Edit>) -> nat
    decreases t.len(),
{
    if t.len() == 0 {
        0
    } else {
        ok_count(fs, s, t.drop_last()) + if path_ok(fs, s, t.last().file@) {
            1nat
        } else {
            0nat
        }
    }
}

/// The views of the results of an application.
pub open spec fn results_view(r: Seq<(String, Vec<u8>)>) -> Seq<(Seq<char>, Seq<u8>)> {
    r.map_values(|x: (String, Vec<u8>)| (x.0@, x.1@))
}

/// The views of the failures of an application.
pub open spec fn failures_view(r: Seq<(String, ApplyError)>) -> Seq<(Seq<char>, ApplyError)> {
    r.map_values(|x: (String, ApplyError)| (x.0@, x.1))
}

/// Every file of a list of edits occurs among its distinct paths.
pub proof fn lemma_edit_paths_contains(s: Seq<Edit>, i: int)
    requires
        0 <= i < s.len(),
    ensures
        edit_paths(s).contains(s[i].file@),
    decreases s.len(),
{
    if i < s.len() - 1 {
        lemma_edit_paths_contains(s.drop_last(), i);
        assert(s.drop_last()[i] == s[i]);
        let rest = edit_paths(s.drop_last());
        let j = choose|j: int| 0 <= j < rest.len() && rest[j] == s[i].file@;
        if !rest.contains(s.last().file@) {
            assert(rest.push(s.last().file@)[j] == s[i].file@);
        }
    } else {
        let rest = edit_paths(s.drop_last());
        if !rest.contains(s.last().file@) {
            assert(rest.push(s.last().file@)[rest.len() as int] == s.last().file@);
        }
    }
}

/// Edits with the same views resolve to the same byte operations.
pub proof fn lemma_same_views_same_ops(a: Seq<Edit>, b: Seq<Edit>)
    requires
        edits_view(a) == edits_view(b),
    ensures
        edit_ops(a) == edit_ops(b),
{
    assert(a.len() == edits_view(a).len());
    assert(b.len() == edits_view(b).len());
    assert forall|i: int| 0 <= i < a.len() implies resolve(#[trigger] a[i]) == resolve(b[i]) by {
        assert(edits_view(a)[i] == edits_view(b)[i]);
        assert(a[i]@ == b[i]@);
        assert(a[i].kind@ == b[i].kind@);
    }
    assert(edit_ops(a) =~= edit_ops(b));
}

/// A copy of an edit.
pub fn copy_edit(e: &Edit) -> (r: Edit)
    ensures
        r@ == e@,
{
    let kind = match &e.kind {
        EditKind::Replace { span, new_text } => EditKind::Replace { span: *span, new_text: new_text.clone() },
        EditKind::Delete { span } => EditKind::Delete { span: *span },
        EditKind::InsertAfter { anchor_byte, new_text } => EditKind::InsertAfter {
            anchor_byte: *anchor_byte,
            new_text: new_text.clone(),
        },
    };
    Edit { file: e.file.clone(), kind }
}

/// The distinct file paths of a list of edits, in order of first appearance.
pub fn distinct_edit_paths(edits: &Vec<Edit>) -> (r: Vec<String>)
    ensures
        r@.map_values(|x: String| x@) == edit_paths(edits@),
{
    let mut r: Vec<String> = Vec::new();
    let mut i: usize = 0;
    while i < edits.len()
        invariant
            i <= edits@.len(),
            r@.map_values(|x: String| x@) == edit_paths(edits@.take(i as int)),
        decreases edits@.len() - i,
    {
        let ghost before = r@;
        let mut seen = false;
        let mut k: usize = 0;
        while k < r.len()
            invariant
                k <= r@.len(),
                i < edits@.len(),
                r@ == before,
                seen == exists|j: int| 0 <= j < k && (#[trigger] r@[j])@ == edits@[i as int].file@,
            decreases r@.len() - k,
        {
            if str_eq(r[k].as_str(), edits[i].file.as_str()) {
                seen = true;
            }
            k = k + 1;
        }
        proof {
            let vs = before.map_values(|x: String| x@);
            assert(edits@.take(i + 1).drop_last() =~= edits@.take(i as int));
            assert(edits@.take(i + 1).last() == edits@[i as int]);
            if seen {
                let j = choose|j: int| 0 <= j < k && (#[trigger] r@[j])@ == edits@[i as int].file@;
                assert(vs[j] == edits@[i as int].file@);
            } else {
                assert forall|j: int| 0 <= j < vs.len() implies vs[j] != edits@[i as int].file@ by {
                    assert(vs[j] == r@[j]@);
                }
            }
        }
        if !seen {
            r.push(edits[i].file.clone());
            proof {
                assert(r@.map_values(|x: String| x@) =~= before.map_values(|x: String| x@).push(
                    edits@[i as int].file@,
                ));
            }
        }
        i = i + 1;
    }
    proof {
        assert(edits@.take(i as int) =~= edits@);
    }
    r
}

/// Copies of the edits for file `path`, in order.
pub fn edits_for(edits: &Vec<Edit>, path: &str) -> (r: Vec<Edit>)
    ensures
        edits_view(r@) == edits_view(file_edits(edits@, path@)),
{
    let mut r: Vec<Edit> = Vec::new();
    let mut i: usize = 0;
    while i < edits.len()
        invariant
            i <= edits@.len(),
            edits_view(r@) == edits_view(file_edits(edits@.take(i as int), path@)),
        decreases edits@.len() - i,
    {
        let ghost before = r@;
        proof {
            assert(edits@.take(i + 1).drop_last() =~= edits@.take(i as int));
            assert(edits@.take(i + 1).last() == edits@[i as int]);
        }
        if str_eq(edits[i].file.as_str(), path) {
            let e = copy_edit(&edits[i]);
            r.push(e);
            proof {
                assert(edits_view(r@) =~= edits_view(before).push(edits@[i as int]@));
                assert(edits_view(file_edits(edits@.take(i + 1), path@)) =~= edits_view(
                    file_edits(edits@.take(i as int), path@),
                ).push(edits@[i as int]@));
            }
        }
        i = i + 1;
    }
    proof {
        assert(edits@.take(i as int) =~= edits@);
    }
    r
}

/// The result of applying a set of changes to a [`Repo`]: the new bytes of each
/// edited file, held in memory until committed.
#[derive(Debug)]
pub struct Applied<'repo> {
    repo: &'repo Repo,
    results: Vec<(String, Vec<u8>)>,
    edit_count: usize,
    failures: Vec<(String, ApplyError)>,
}

/// What a commit wrote.
#[derive(Debug, PartialEq, Eq, Structural)]
pub struct CommitSummary {
    pub files_modified: usize,
    pub edits_applied: usize,
}

impl<'repo> Applied<'repo> {
    /// The repository the changes were applied to.
    pub closed spec fn spec_repo(&self) -> Repo {
        *self.repo
    }

    /// The new bytes of each edited file, by path.
    pub closed spec fn spec_results(&self) -> Seq<(Seq<char>, Seq<u8>)> {
        results_view(self.results@)
    }

    /// The files whose edits could not be applied, with the reason.
    pub closed spec fn spec_failures(&self) -> Seq<(Seq<char>, ApplyError)> {
        failures_view(self.failures@)
    }

    /// The number of edits applied.
    pub closed spec fn spec_edit_count(&self) -> nat {
        self.edit_count as nat
    }

    /// An application result made of its parts.
    pub(crate) fn from_parts(
        repo: &'repo Repo,
        results: Vec<(String, Vec<u8>)>,
        edit_count: usize,
        failures: Vec<(String, ApplyError)>,
    ) -> (a: Self)
        ensures
            a.spec_repo() == *repo,
            a.spec_results() == results_view(results@),
            a.spec_failures() == failures_view(failures@),
            a.spec_edit_count() == edit_count,
    {
        Applied { repo, results, edit_count, failures }
    }

    /// The new contents of each edited file as text (invalid UTF-8 replaced),
    /// by path.
    pub fn dry_run(&self) -> (r: Vec<(String, String)>)
        ensures
            r@.len() == self.spec_results().len(),
            forall|k: int|
                0 <= k < r@.len() ==> (#[trigger] r@[k]).0@ == self.spec_results()[k].0 && r@[k].1@
                    == lossy_utf8(self.spec_results()[k].1),
    {
        let mut r: Vec<(String, String)> = Vec::new();
        let mut k: usize = 0;
        while k < self.results.len()
            invariant
                k <= self.results@.len(),
                r@.len() == k,
                forall|j: int|
                    0 <= j < k ==> (#[trigger] r@[j]).0@ == self.results@[j].0@ && r@[j].1@ == lossy_utf8(
                        self.results@[j].1@,
                    ),
            decreases self.results@.len() - k,
        {
            let text = utf8_lossy(self.results[k].1.as_slice());
            r.push((self.results[k].0.clone(), text));
            k = k + 1;
        }
        r
    }

    /// The paths of the modified files.
    pub fn affected_files(&self) -> (r: Vec<&str>)
        ensures
            r@.len() == self.spec_results().len(),
            forall|k: int| 0 <= k < r@.len() ==> (#[trigger] r@[k])@ == self.spec_results()[k].0,
    {
        let mut r: Vec<&str> = Vec::new();
        let mut k: usize = 0;
        while k < self.results.len()
            invariant
                k <= self.results@.len(),
                r@.len() == k,
                forall|j: int| 0 <= j < k ==> (#[trigger] r@[j])@ == self.results@[j].0@,
            decreases self.results@.len() - k,
        {
            r.push(self.results[k].0.as_str());
            k = k + 1;
        }
        r
    }

    /// The total number of edits applied.
    pub fn edit_count(&self) -> (n: usize)
        ensures
            n == self.spec_edit_count(),
    {
        self.edit_count
    }

    /// The new bytes of each edited file, by path.
    pub fn results(&self) -> (r: &[(String, Vec<u8>)])
        ensures
            results_view(r@) == self.spec_results(),
    {
        self.results.as_slice()
    }

    /// The files whose edits could not be applied, with the reason.
    pub fn failures(&self) -> (r: &[(String, ApplyError)])
        ensures
            failures_view(r@) == self.spec_failures(),
    {
        self.failures.as_slice()
    }

    /// What committing these results writes: one file per result.
    pub fn summary(&self) -> (s: CommitSummary)
        ensures
            s.files_modified == self.spec_results().len(),
            s.edits_applied == self.spec_edit_count(),
    {
        CommitSummary { files_modified: self.results.len(), edits_applied: self.edit_count }
    }

    /// A unified diff of every edited file against its old contents,
    /// file after file.
    pub fn preview_text(&self) -> (r: String)
        ensures
            r@ == previews(self.spec_repo().spec_files(), self.spec_results()),
    {
        let files = self.repo.files();
        let mut out = String::new();
        let mut k: usize = 0;
        while k < self.results.len()
            invariant
                k <= self.results@.len(),
                files@ == self.spec_repo().spec_files(),
                crate::repo::files_ok(files@),
                out@ == previews(files@, results_view(self.results@.take(k as int))),
            decreases self.results@.len() - k,
        {
            let path = self.results[k].0.as_str();
            proof {
                assert(results_view(self.results@.take(k + 1)).drop_last() =~= results_view(
                    self.results@.take(k as int),
                ));
                assert(results_view(self.results@.take(k + 1)).last() == (path@, self.results@[k as int].1@));
            }
            match crate::repo::find_path(files, path) {
                Some(j) => {
                    let old = utf8_lossy(files[j].source.as_slice());
                    let new = utf8_lossy(self.results[k].1.as_slice());
                    let d = unified_diff(path, old.as_str(), new.as_str());
                    out.append(d.as_str());
                },
                None => {},
            }
            k = k + 1;
        }
        proof {
            assert(self.results@.take(k as int) =~= self.results@);
        }
        out
    }
}

/// The diff of one edited file, empty when the repository does not hold it.
pub open spec fn preview_of(fs: Seq<RepoFile>, x: (Seq<char>, Seq<u8>)) -> Seq<char> {
    match path_index(fs, x.0) {
        Some(j) => diff_of(x.0, lossy_utf8(fs[j].source@), lossy_utf8(x.1)),
        None => Seq::empty(),
    }
}

/// The diffs of several edited files, one after the other.
pub open spec fn previews(fs: Seq<RepoFile>, rs: Seq<(Seq<char>, Seq<u8>)>) -> Seq<char>
    decreases rs.len(),
{
    if rs.len() == 0 {
        Seq::empty()
    } else {
        previews(fs, rs.drop_last()) + preview_of(fs, rs.last())
    }
}

/// The text `String::from_utf8_lossy` makes of some bytes.
pub uninterp spec fn lossy_utf8(bytes: Seq<u8>) -> Seq<char>;

/// The hunks of the line diff that `similar` computes between two texts, with
/// three lines of context, each rendered as text.
pub uninterp spec fn unified_hunk_list(old: Seq<char>, new: Seq<char>) -> Seq<Seq<char>>;

/// The tags of the line changes that `similar` computes between two texts,
/// in order.
pub uninterp spec fn line_change_tags(old: Seq<char>, new: Seq<char>) -> Seq<LineTag>;

/// Texts one after the other.
pub open spec fn concat_texts(ts: Seq<Seq<char>>) -> Seq<char>
    decreases ts.len(),
{
    if ts.len() == 0 {
        Seq::empty()
    } else {
        concat_texts(ts.drop_last()) + ts.last()
    }
}

/// The rendered hunks of the line diff between two texts, concatenated.
pub open spec fn unified_hunks(old: Seq<char>, new: Seq<char>) -> Seq<char> {
    concat_texts(unified_hunk_list(old, new))
}

/// What a line change of a diff does: keeps, deletes or inserts a line.
#[derive(Debug, Clone, Copy, PartialEq, Eq, Structural)]
pub enum LineTag {
    Equal,
    Delete,
    Insert,
}

/// The unified diff of a file: empty when nothing changed, else the two
/// header lines followed by the hunks.
pub open spec fn diff_of(path: Seq<char>, old: Seq<char>, new: Seq<char>) -> Seq<char> {
    diff_text_of(path, old != new, unified_hunks(old, new))
}

/// The unified diff text of a file, given whether it changed and its hunks.
pub open spec fn diff_text_of(path: Seq<char>, changed: bool, hunks: Seq<char>) -> Seq<char> {
    if !changed {
        Seq::empty()
    } else {
        "--- a/"@ + path + "\n+++ b/"@ + path + "\n"@ + hunks
    }
}

/// `String::from_utf8_lossy`: valid UTF-8 decodes as itself; otherwise each
/// invalid sequence becomes U+FFFD. Only the valid case is stated; the other
/// is named by `lossy_utf8`.
#[verifier::external_body]
fn utf8_lossy(bytes: &[u8]) -> (r: String)
    ensures
        r@ == lossy_utf8(bytes@),
        valid_utf8(bytes@) ==> r@ == decode_utf8(bytes@),
{
    String::from_utf8_lossy(bytes).into_owned()
}

/// `similar::TextDiff::from_lines(old, new).iter_all_changes()`: the tag of
/// each line change, in order. The diff is exact (no deadline is set, and
/// lines keep their endings), so some change is not `Equal` exactly when the
/// two texts differ.
#[verifier::external_body]
fn line_changes(old: &str, new: &str) -> (r: Vec<LineTag>)
    ensures
        r@ == line_change_tags(old@, new@),
        (exists|i: int| 0 <= i < r@.len() && r@[i] != LineTag::Equal) <==> old@ != new@,
{
    let diff = similar::TextDiff::from_lines(old, new);
    diff.iter_all_changes()
        .map(|c| match c.tag() {
            similar::ChangeTag::Equal => LineTag::Equal,
            similar::ChangeTag::Delete => LineTag::Delete,
            similar::ChangeTag::Insert => LineTag::Insert,
        })
        .collect()
}

/// Whether the line diff of two texts has a change that is not `Equal`, that
/// is, whether the texts differ.
fn lines_differ(old: &str, new: &str) -> (b: bool)
    ensures
        b == (old@ != new@),
{
    let tags = line_changes(old, new);
    let mut i: usize = 0;
    while i < tags.len()
        invariant
            i <= tags@.len(),
            forall|j: int| 0 <= j < i ==> tags@[j] == LineTag::Equal,
            (exists|j: int| 0 <= j < tags@.len() && tags@[j] != LineTag::Equal) <==> old@ != new@,
        decreases tags@.len() - i,
    {
        if tags[i] != LineTag::Equal {
            assert(tags@[i as int] != LineTag::Equal);
            return true;
        }
        i = i + 1;
    }
    false
}

/// `similar::TextDiff::from_lines(old, new).unified_diff().context_radius(3)`:
/// each hunk rendered as text, in order.
#[verifier::external_body]
fn hunk_texts(old: &str, new: &str) -> (r: Vec<String>)
    ensures
        r@.map_values(|h: String| h@) == unified_hunk_list(old@, new@),
{
    let diff = similar::TextDiff::from_lines(old, new);
    diff.unified_diff().context_radius(3).iter_hunks().map(|h| h.to_string()).collect()
}

/// The rendered hunks of the line diff between two texts, concatenated.
fn diff_hunks(old: &str, new: &str) -> (r: String)
    ensures
        r@ == unified_hunks(old@, new@),
{
    let hs = hunk_texts(old, new);
    let ghost v = hs@.map_values(|h: String| h@);
    let mut out = String::new();
    let mut i: usize = 0;
    while i < hs.len()
        invariant
            i <= hs@.len(),
            v == hs@.map_values(|h: String| h@),
            out@ == concat_texts(v.take(i as int)),
        decreases hs@.len() - i,
    {
        proof {
            assert(v.take(i + 1).drop_last() =~= v.take(i as int));
            assert(v.take(i + 1).last() == hs@[i as int]@);
        }
        out.append(hs[i].as_str());
        i = i + 1;
    }
    proof {
        assert(v.take(i as int) =~= v);
    }
    out
}

/// The unified diff text of a file, given whether it changed and its hunks:
/// empty when unchanged, else `--- a/<path>` and `+++ b/<path>` lines followed
/// by the hunks.
pub fn diff_text(path: &str, changed: bool, hunks: &str) -> (r: String)
    ensures
        r@ == diff_text_of(path@, changed, hunks@),
{
    let mut out = String::new();
    if !changed {
        return out;
    }
    out.append("--- a/");
    out.append(path);
    out.append("\n+++ b/");
    out.append(path);
    out.append("\n");
    out.append(hunks);
    out
}

/// The unified diff of a file between its old and new text.
pub fn unified_diff(path: &str, old: &str, new: &str) -> (r: String)
    ensures
        r@ == diff_of(path@, old@, new@),
{
    let changed = lines_differ(old, new);
    if !changed {
        return diff_text(path, false, "");
    }
    let hunks = diff_hunks(old, new);
    diff_text(path, changed, hunks.as_str())
}

/// Applying no changes changes no file: there are no results, no failures
/// and no applied edits.
pub proof fn law_apply_nothing(fs: Seq<RepoFile>)
    ensures
        applied_results(fs, Seq::<Edit>::empty()) == Seq::<(Seq<char>, Seq<u8>)>::empty(),
        applied_failures(fs, Seq::<Edit>::empty()) == Seq::<(Seq<char>, ApplyError)>::empty(),
        ok_count(fs, Seq::<Edit>::empty(), Seq::<Edit>::empty()) == 0,
{
    assert(edit_paths(Seq::<Edit>::empty()) =~= Seq::<Seq<char>>::empty());
}

/// The number of applied edits never exceeds the number of edits.
pub proof fn law_edit_count_at_most_edits(fs: Seq<RepoFile>, s: Seq<Edit>, t: Seq<Edit>)
    ensures
        ok_count(fs, s, t) <= t.len(),
    decreases t.len(),
{
    if t.len() > 0 {
        law_edit_count_at_most_edits(fs, s, t.drop_last());
    }
}

/// Every path in `edit_paths(s)` is the file of some edit.
proof fn lemma_edit_paths_from_edits(s: Seq<Edit>, p: Seq<char>)
    requires
        edit_paths(s).contains(p),
    ensures
        exists|i: int| 0 <= i < s.len() && (#[trigger] s[i]).file@ == p,
    decreases s.len(),
{
    if s.len() > 0 {
        let rest = edit_paths(s.drop_last());
        if rest.contains(p) {
            lemma_edit_paths_from_edits(s.drop_last(), p);
            let i = choose|i: int| 0 <= i < s.drop_last().len() && (#[trigger] s.drop_last()[i]).file@ == p;
            assert(s[i] == s.drop_last()[i]);
        } else {
            assert(edit_paths(s) == rest.push(s.last().file@));
            assert(p == s.last().file@) by {
                let k = choose|k: int| 0 <= k < edit_paths(s).len() && edit_paths(s)[k] == p;
                if k < rest.len() {
                    assert(rest[k] == p);
                }
            }
            assert(s[s.len() - 1].file@ == p);
        }
    }
}

/// Applying changes only rewrites files that some edit names, and each
/// rewritten file is one the repository holds.
pub proof fn law_only_edited_files_change(fs: Seq<RepoFile>, s: Seq<Edit>, r: (Seq<char>, Seq<u8>))
    requires
        applied_results(fs, s).contains(r),
    ensures
        exists|i: int| 0 <= i < s.len() && (#[trigger] s[i]).file@ == r.0,
        path_index(fs, r.0) is Some,
{
    let f = |p: Seq<char>| match file_outcome(fs, s, p) {
        Some(Ok(b)) => Some((p, b)),
        _ => None,
    };
    edit_paths(s).lemma_filter_map_contains(f, r);
    let p = choose|p: Seq<char>| #[trigger] edit_paths(s).contains(p) && f(p) == Some(r);
    assert(p == r.0);
    lemma_edit_paths_from_edits(s, p);
}

} // verus!
