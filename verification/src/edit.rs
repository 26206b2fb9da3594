//! The edit engine: applying replacements, deletions and insertions to the
//! bytes of one source file.

use vstd::prelude::*;
use vstd::slice::slice_to_vec;
use vstd::utf8::encode_utf8;

use crate::construct::{nat_string, nat_text};
use crate::span::Span;

verus! {

/// One pending change to a file.
#[derive(Debug)]
pub struct Edit {
    pub file: String,
    pub kind: EditKind,
}

/// What an edit does to its file.
#[derive(Debug)]
pub enum EditKind {
    /// Replace the bytes of `span` with `new_text`.
    Replace { span: Span, new_text: String },
    /// Delete the bytes of `span`, with the line it leaves behind when blank.
    Delete { span: Span },
    /// Insert `new_text` at byte `anchor_byte`.
    InsertAfter { anchor_byte: usize, new_text: String },
}

/// Why a set of edits could not be applied.
#[derive(Debug, PartialEq, Eq, Structural)]
pub enum ApplyError {
    /// Two edits touch overlapping byte ranges.
    Overlapping { a_start: usize, a_end: usize, b_start: usize, b_end: usize },
    /// An edit reaches past the end of the source, or its range is inverted.
    OutOfBounds { start: usize, end: usize, source_len: usize },
}

/// The message of an application error.
pub open spec fn apply_error_text(e: ApplyError) -> Seq<char> {
    match e {
        ApplyError::Overlapping { a_start, a_end, b_start, b_end } => "overlapping edits at bytes "@ + nat_text(
            a_start as nat,
        ) + ".."@ + nat_text(a_end as nat) + " and "@ + nat_text(b_start as nat) + ".."@ + nat_text(b_end as nat),
        ApplyError::OutOfBounds { start, end, source_len } => "edit span "@ + nat_text(start as nat) + ".."@
            + nat_text(end as nat) + " out of bounds for source of length "@ + nat_text(source_len as nat),
    }
}

impl ApplyError {
    /// The message of the error.
    pub fn message(&self) -> (s: String)
        ensures
            s@ == apply_error_text(*self),
    {
        let mut s = String::new();
        match self {
            ApplyError::Overlapping { a_start, a_end, b_start, b_end } => {
                s.append("overlapping edits at bytes ");
                s.append(nat_string(*a_start as u64).as_str());
                s.append("..");
                s.append(nat_string(*a_end as u64).as_str());
                s.append(" and ");
                s.append(nat_string(*b_start as u64).as_str());
                s.append("..");
                s.append(nat_string(*b_end as u64).as_str());
            },
            ApplyError::OutOfBounds { start, end, source_len } => {
                s.append("edit span ");
                s.append(nat_string(*start as u64).as_str());
                s.append("..");
                s.append(nat_string(*end as u64).as_str());
                s.append(" out of bounds for source of length ");
                s.append(nat_string(*source_len as u64).as_str());
            },
        }
        s
    }
}

/// A byte-range operation: start, end, and the replacement bytes (none for a deletion).
pub type ByteOp = (int, int, Option<Seq<u8>>);

/// The byte-range operation of an edit.
pub open spec fn resolve(e: Edit) -> ByteOp {
    match e.kind {
        EditKind::Replace { span, new_text } => (
            span.start_byte as int,
            span.end_byte as int,
            Some(encode_utf8(new_text@)),
        ),
        EditKind::Delete { span } => (span.start_byte as int, span.end_byte as int, None),
        EditKind::InsertAfter { anchor_byte, new_text } => (
            anchor_byte as int,
            anchor_byte as int,
            Some(encode_utf8(new_text@)),
        ),
    }
}

/// An operation is in bounds when `start <= end <= len`.
pub open spec fn in_bounds(op: ByteOp, len: int) -> bool {
    op.0 <= op.1 && op.1 <= len
}

/// Index of the first operation that is out of bounds, if any.
pub open spec fn first_out_of_bounds(ops: Seq<ByteOp>, len: int) -> Option<int>
    decreases ops.len(),
{
    if ops.len() == 0 {
        None
    } else {
        match first_out_of_bounds(ops.drop_last(), len) {
            Some(i) => Some(i),
            None => if in_bounds(ops.last(), len) {
                None
            } else {
                Some(ops.len() - 1)
            },
        }
    }
}

/// Sort order of operations: by start ascending, then by end descending.
pub open spec fn op_before(a: ByteOp, b: ByteOp) -> bool {
    a.0 < b.0 || (a.0 == b.0 && a.1 > b.1)
}

/// Inserts `x` into the sorted `s` after every operation it does not precede.
pub open spec fn insert_sorted(s: Seq<ByteOp>, x: ByteOp) -> Seq<ByteOp>
    decreases s.len(),
{
    if s.len() == 0 {
        seq![x]
    } else if op_before(x, s.last()) {
        insert_sorted(s.drop_last(), x).push(s.last())
    } else {
        s.push(x)
    }
}

/// The stable sort of `ops` by `op_before`.
pub open spec fn sort_ops(ops: Seq<ByteOp>) -> Seq<ByteOp>
    decreases ops.len(),
{
    if ops.len() == 0 {
        Seq::empty()
    } else {
        insert_sorted(sort_ops(ops.drop_last()), ops.last())
    }
}

/// Two neighbours in sorted order conflict unless both are insertions at a
/// point or the first ends before the second starts.
pub open spec fn conflict(a: ByteOp, b: ByteOp) -> bool {
    !(a.0 == a.1 && b.0 == b.1) && a.1 > b.0
}

/// Index of the first sorted neighbour pair that conflicts, if any.
pub open spec fn first_conflict(s: Seq<ByteOp>) -> Option<int>
    decreases s.len(),
{
    if s.len() < 2 {
        None
    } else {
        match first_conflict(s.drop_last()) {
            Some(k) => Some(k),
            None => if conflict(s[s.len() - 2], s.last()) {
                Some(s.len() - 2)
            } else {
                None
            },
        }
    }
}

/// Rust's `u8::is_ascii_whitespace`: space, tab, line feed, form feed, carriage return.
pub open spec fn is_ascii_ws(b: u8) -> bool {
    b == 0x20 || b == 0x09 || b == 0x0A || b == 0x0C || b == 0x0D
}

/// Whether all of `s[from..to]` is ASCII whitespace (`allow_newline` false:
/// also no line feed).
pub open spec fn blank(s: Seq<u8>, from: int, to: int, allow_newline: bool) -> bool {
    forall|i: int| from <= i < to ==> is_ascii_ws(#[trigger] s[i]) && (allow_newline || s[i] != 0x0A)
}

/// Index just after the last line feed in `s[..at]`, or 0 when there is none.
pub open spec fn line_start(s: Seq<u8>, at: int) -> int
    decreases at,
{
    if at <= 0 {
        0
    } else if s[at - 1] == 0x0A {
        at
    } else {
        line_start(s, at - 1)
    }
}

/// Index just after the first line feed at or after `at`, or the length when there is none.
pub open spec fn line_end(s: Seq<u8>, at: int) -> int
    decreases s.len() - at,
{
    if at >= s.len() {
        s.len() as int
    } else if s[at] == 0x0A {
        at + 1
    } else {
        line_end(s, at + 1)
    }
}

/// The range that a deletion of `s[start..end]` actually removes: when the
/// span stands alone on its line(s), the whole line(s) with the line feed,
/// and also the blank line before it if there is one.
pub open spec fn cleaned_range(s: Seq<u8>, start: int, end: int) -> (int, int) {
    let ls = line_start(s, start);
    let le = line_end(s, end);
    if blank(s, ls, start, false) && blank(s, end, le, true) {
        if ls > 0 && s[ls - 1] == 0x0A && blank(s, line_start(s, ls - 1), ls - 1, true) {
            (line_start(s, ls - 1), le)
        } else {
            (ls, le)
        }
    } else {
        (start, end)
    }
}

/// `s` with `s[from..to]` replaced by `text`.
pub open spec fn splice(s: Seq<u8>, from: int, to: int, text: Seq<u8>) -> Seq<u8> {
    s.take(from) + text + s.skip(to)
}

/// Where a deletion's widened range starts: never before `floor`, the end of
/// the operation before it, as long as that end lies before the deletion.
pub open spec fn clamp_start(a: int, floor: int, start: int) -> int {
    if a < floor && floor <= start {
        floor
    } else {
        a
    }
}

/// The bytes after applying one operation, or `None` when its range does not
/// fit the current bytes. A deletion's blank-line cleanup stops at `floor`.
pub open spec fn apply_op(s: Seq<u8>, op: ByteOp, floor: int) -> Option<Seq<u8>> {
    if !in_bounds(op, s.len() as int) || op.0 < 0 {
        None
    } else {
        match op.2 {
            Some(text) => Some(splice(s, op.0, op.1, text)),
            None => {
                let r = cleaned_range(s, op.0, op.1);
                Some(splice(s, clamp_start(r.0, floor, op.0), r.1, Seq::empty()))
            },
        }
    }
}

/// The end of the operation before the last one, or 0 when there is none.
pub open spec fn op_floor(ops: Seq<ByteOp>) -> int {
    if ops.len() >= 2 {
        ops[ops.len() - 2].1
    } else {
        0
    }
}

/// Applies the sorted operations from last to first; each deletion's cleanup
/// stops at the end of the operation before it.
pub open spec fn apply_ops_rev(s: Seq<u8>, ops: Seq<ByteOp>) -> Option<Seq<u8>>
    decreases ops.len(),
{
    if ops.len() == 0 {
        Some(s)
    } else {
        match apply_op(s, ops.last(), op_floor(ops)) {
            Some(t) => apply_ops_rev(t, ops.drop_last()),
            None => None,
        }
    }
}

/// The byte-range operations of a list of edits, in order.
pub open spec fn edit_ops(edits: Seq<Edit>) -> Seq<ByteOp> {
    edits.map_values(|e: Edit| resolve(e))
}

/// What applying `edits` to `source` gives: the first out-of-bounds edit, else
/// the first conflicting sorted pair, else the edited bytes. (`None` would stand
/// for a step that does not fit the bytes that the steps after it left;
/// `law_apply_outcome_defined` shows that this never happens.)
pub open spec fn apply_outcome(source: Seq<u8>, edits: Seq<Edit>) -> Option<Result<Seq<u8>, ApplyError>> {
    let ops = edit_ops(edits);
    let len = source.len() as int;
    match first_out_of_bounds(ops, len) {
        Some(i) => Some(Err(ApplyError::OutOfBounds {
            start: ops[i].0 as usize,
            end: ops[i].1 as usize,
            source_len: len as usize,
        })),
        None => {
            let sorted = sort_ops(ops);
            match first_conflict(sorted) {
                Some(k) => Some(Err(ApplyError::Overlapping {
                    a_start: sorted[k].0 as usize,
                    a_end: sorted[k].1 as usize,
                    b_start: sorted[k + 1].0 as usize,
                    b_end: sorted[k + 1].1 as usize,
                })),
                None => match apply_ops_rev(source, sorted) {
                    Some(r) => Some(Ok(r)),
                    None => None,
                },
            }
        },
    }
}

/// What an edit does, with its texts taken as characters.
pub enum EditKindView {
    Replace { span: Span, new_text: Seq<char> },
    Delete { span: Span },
    InsertAfter { anchor_byte: usize, new_text: Seq<char> },
}

impl View for EditKind {
    type V = EditKindView;

    open spec fn view(&self) -> EditKindView {
        match self {
            EditKind::Replace { span, new_text } => EditKindView::Replace {
                span: *span,
                new_text: new_text@,
            },
            EditKind::Delete { span } => EditKindView::Delete { span: *span },
            EditKind::InsertAfter { anchor_byte, new_text } => EditKindView::InsertAfter {
                anchor_byte: *anchor_byte,
                new_text: new_text@,
            },
        }
    }
}

impl View for Edit {
    type V = (Seq<char>, EditKindView);

    open spec fn view(&self) -> (Seq<char>, EditKindView) {
        (self.file@, self.kind@)
    }
}

/// The views of a sequence of edits.
pub open spec fn edits_view(es: Seq<Edit>) -> Seq<(Seq<char>, EditKindView)> {
    es.map_values(|e: Edit| e@)
}

/// The view of an exec result as bytes.
pub open spec fn result_view(r: Result<Vec<u8>, ApplyError>) -> Result<Seq<u8>, ApplyError> {
    match r {
        Ok(v) => Ok(v@),
        Err(e) => Err(e),
    }
}

/// A resolved edit: a byte range and its replacement (none for a deletion).
struct ResolvedEdit {
    start: usize,
    end: usize,
    replacement: Option<Vec<u8>>,
}

/// The byte-range operation that a resolved edit stands for.
spec fn op_of(r: ResolvedEdit) -> ByteOp {
    (
        r.start as int,
        r.end as int,
        match r.replacement {
            Some(v) => Some(v@),
            None => None,
        },
    )
}

/// Resolves each edit to its byte range and replacement bytes.
fn resolve_edits(edits: &[Edit]) -> (rs: Vec<ResolvedEdit>)
    ensures
        rs@.len() == edits@.len(),
        forall|i: int| 0 <= i < rs@.len() ==> op_of(#[trigger] rs@[i]) == resolve(edits@[i]),
{
    let mut rs: Vec<ResolvedEdit> = Vec::new();
    let mut i: usize = 0;
    while i < edits.len()
        invariant
            i <= edits@.len(),
            rs@.len() == i,
            forall|k: int| 0 <= k < i ==> op_of(#[trigger] rs@[k]) == resolve(edits@[k]),
        decreases edits.len() - i,
    {
        let r = match &edits[i].kind {
            EditKind::Replace { span, new_text } => ResolvedEdit {
                start: span.start_byte,
                end: span.end_byte,
                replacement: Some(slice_to_vec(new_text.as_str().as_bytes())),
            },
            EditKind::Delete { span } => ResolvedEdit {
                start: span.start_byte,
                end: span.end_byte,
                replacement: None,
            },
            EditKind::InsertAfter { anchor_byte, new_text } => ResolvedEdit {
                start: *anchor_byte,
                end: *anchor_byte,
                replacement: Some(slice_to_vec(new_text.as_str().as_bytes())),
            },
        };
        rs.push(r);
        i = i + 1;
    }
    rs
}

/// The operations of a list of resolved edits.
spec fn ops_of(rs: Seq<ResolvedEdit>) -> Seq<ByteOp> {
    rs.map_values(|r: ResolvedEdit| op_of(r))
}

/// The operations that an index order picks out of `ops`.
spec fn pick(order: Seq<usize>, ops: Seq<ByteOp>) -> Seq<ByteOp> {
    order.map_values(|k: usize| ops[k as int])
}

/// Inserting at the position found by scanning back over the operations that
/// `x` precedes is what `insert_sorted` does.
proof fn lemma_insert_at(s: Seq<ByteOp>, x: ByteOp, p: int)
    requires
        0 <= p <= s.len(),
        forall|q: int| p <= q < s.len() ==> op_before(x, #[trigger] s[q]),
        p == 0 || !op_before(x, s[p - 1]),
    ensures
        insert_sorted(s, x) == s.insert(p, x),
    decreases s.len(),
{
    if s.len() == 0 {
        assert(s.insert(p, x) =~= seq![x]);
    } else if p == s.len() {
        assert(s.insert(p, x) =~= s.push(x));
    } else {
        assert(op_before(x, s.last()));
        lemma_insert_at(s.drop_last(), x, p);
        assert(s.drop_last().insert(p, x).push(s.last()) =~= s.insert(p, x));
    }
}

/// The first out-of-bounds operation of a prefix one longer.
proof fn lemma_first_oob_step(ops: Seq<ByteOp>, len: int, i: int)
    requires
        0 <= i < ops.len(),
    ensures
        first_out_of_bounds(ops.take(i + 1), len) == (match first_out_of_bounds(ops.take(i), len) {
            Some(j) => Some(j),
            None => if in_bounds(ops[i], len) {
                None
            } else {
                Some(i)
            },
        }),
{
    assert(ops.take(i + 1).drop_last() == ops.take(i));
}

/// The first conflict of a prefix one longer.
proof fn lemma_first_conflict_step(s: Seq<ByteOp>, k: int)
    requires
        2 <= k <= s.len(),
    ensures
        first_conflict(s.take(k)) == (match first_conflict(s.take(k - 1)) {
            Some(j) => Some(j),
            None => if conflict(s[k - 2], s[k - 1]) {
                Some(k - 2)
            } else {
                None
            },
        }),
{
    assert(s.take(k).drop_last() == s.take(k - 1));
}

/// Whether `s[from..to]` is ASCII whitespace, line feeds allowed or not.
fn is_blank(s: &Vec<u8>, from: usize, to: usize, allow_newline: bool) -> (b: bool)
    requires
        from <= to <= s@.len(),
    ensures
        b == blank(s@, from as int, to as int, allow_newline),
{
    let mut i = from;
    while i < to
        invariant
            from <= i <= to <= s@.len(),
            blank(s@, from as int, i as int, allow_newline),
        decreases to - i,
    {
        let c = s[i];
        let ws = c == 0x20 || c == 0x09 || c == 0x0A || c == 0x0C || c == 0x0D;
        if !ws || (!allow_newline && c == 0x0A) {
            return false;
        }
        i = i + 1;
    }
    true
}

/// Index just after the last line feed before `at`, or 0.
fn find_line_start(s: &Vec<u8>, at: usize) -> (r: usize)
    requires
        at <= s@.len(),
    ensures
        r == line_start(s@, at as int),
        r <= at,
{
    let mut i = at;
    while i > 0 && s[i - 1] != 0x0A
        invariant
            i <= at <= s@.len(),
            line_start(s@, at as int) == line_start(s@, i as int),
        decreases i,
    {
        i = i - 1;
    }
    i
}

/// Index just after the first line feed at or after `at`, or the length.
fn find_line_end(s: &Vec<u8>, at: usize) -> (r: usize)
    requires
        at <= s@.len(),
    ensures
        r == line_end(s@, at as int),
        at <= r <= s@.len(),
{
    let mut i = at;
    while i < s.len() && s[i] != 0x0A
        invariant
            at <= i <= s@.len(),
            line_end(s@, at as int) == line_end(s@, i as int),
        decreases s.len() - i,
    {
        i = i + 1;
    }
    if i < s.len() {
        i + 1
    } else {
        i
    }
}

/// Widens a deletion to whole blank lines, as `cleaned_range` describes.
fn cleaned_delete_range(s: &Vec<u8>, start: usize, end: usize) -> (r: (usize, usize))
    requires
        start <= end <= s@.len(),
    ensures
        (r.0 as int, r.1 as int) == cleaned_range(s@, start as int, end as int),
        r.0 <= start,
        end <= r.1 <= s@.len(),
{
    let ls = find_line_start(s, start);
    let le = find_line_end(s, end);
    if is_blank(s, ls, start, false) && is_blank(s, end, le, true) {
        if ls > 0 && s[ls - 1] == 0x0A {
            let pls = find_line_start(s, ls - 1);
            if is_blank(s, pls, ls - 1, true) {
                return (pls, le);
            }
        }
        (ls, le)
    } else {
        (start, end)
    }
}

/// `s` with `s[from..to]` replaced by `text`.
fn splice_bytes(s: &Vec<u8>, from: usize, to: usize, text: &[u8]) -> (r: Vec<u8>)
    requires
        from <= to <= s@.len(),
    ensures
        r@ == splice(s@, from as int, to as int, text@),
{
    let mut r: Vec<u8> = Vec::new();
    let mut i: usize = 0;
    while i < from
        invariant
            i <= from <= to <= s@.len(),
            r@ == s@.take(i as int),
        decreases from - i,
    {
        r.push(s[i]);
        assert(s@.take(i + 1) == s@.take(i as int).push(s@[i as int]));
        i = i + 1;
    }
    let mut j: usize = 0;
    while j < text.len()
        invariant
            j <= text@.len(),
            r@ == s@.take(from as int) + text@.take(j as int),
        decreases text.len() - j,
    {
        r.push(text[j]);
        assert(text@.take(j + 1) == text@.take(j as int).push(text@[j as int]));
        j = j + 1;
    }
    assert(text@.take(text@.len() as int) == text@);
    let mut k = to;
    while k < s.len()
        invariant
            to <= k <= s@.len(),
            r@ == s@.take(from as int) + text@ + s@.subrange(to as int, k as int),
        decreases s.len() - k,
    {
        r.push(s[k]);
        assert(s@.subrange(to as int, k + 1) == s@.subrange(to as int, k as int).push(
            s@[k as int],
        ));
        k = k + 1;
    }
    assert(s@.subrange(to as int, s@.len() as int) == s@.skip(to as int));
    r
}

/// Applies the edits of one file; `None` only where `apply_outcome` is `None`,
/// which `law_apply_outcome_defined` rules out.
fn try_apply_edits(source: &[u8], edits: &[Edit]) -> (r: Option<Result<Vec<u8>, ApplyError>>)
    ensures
        match r {
            Some(x) => apply_outcome(source@, edits@) == Some(result_view(x)),
            None => apply_outcome(source@, edits@) is None,
        },
{
    let rs = resolve_edits(edits);
    let ghost ops = edit_ops(edits@);
    assert(ops_of(rs@) =~= ops);
    let source_len = source.len();
    let ghost len = source_len as int;
    // Bounds check, in the order the edits were given.
    let mut i: usize = 0;
    assert(ops.take(0) == Seq::<ByteOp>::empty());
    while i < rs.len()
        invariant
            i <= rs@.len(),
            rs@.len() == ops.len(),
            len == source_len,
            len == source@.len(),
            ops == edit_ops(edits@),
            forall|k: int| 0 <= k < rs@.len() ==> op_of(#[trigger] rs@[k]) == ops[k],
            first_out_of_bounds(ops.take(i as int), len) is None,
        decreases rs.len() - i,
    {
        proof { lemma_first_oob_step(ops, len, i as int); }
        assert(op_of(rs@[i as int]) == ops[i as int]);
        let e = &rs[i];
        if e.end > source_len || e.start > source_len || e.start > e.end {
            assert(ops.take(rs@.len() as int) == ops);
            assert(!in_bounds(ops[i as int], len));
            assert(first_out_of_bounds(ops.take(i + 1), len) == Some(i as int));
            proof { lemma_first_oob_prefix(ops, len, i + 1); }
            assert(first_out_of_bounds(ops, len) == Some(i as int));
            assert(apply_outcome(source@, edits@) == Some(Err::<Seq<u8>, ApplyError>(ApplyError::OutOfBounds { start: e.start, end: e.end, source_len })));
            return Some(Err(ApplyError::OutOfBounds { start: e.start, end: e.end, source_len }));
        }
        i = i + 1;
    }
    assert(ops.take(rs@.len() as int) == ops);
    // Stable sort of the edit indices by start ascending, end descending.
    let mut order: Vec<usize> = Vec::new();
    let mut n: usize = 0;
    assert(ops.take(0) == Seq::<ByteOp>::empty());
    while n < rs.len()
        invariant
            n <= rs@.len(),
            rs@.len() == ops.len(),
            forall|k: int| 0 <= k < rs@.len() ==> op_of(#[trigger] rs@[k]) == ops[k],
            order@.len() == n,
            ops == edit_ops(edits@),
            first_out_of_bounds(ops, len) is None,
            forall|k: int| 0 <= k < order@.len() ==> #[trigger] order@[k] < rs@.len(),
            pick(order@, ops) == sort_ops(ops.take(n as int)),
        decreases rs.len() - n,
    {
        let x = &rs[n];
        let ghost sorted = pick(order@, ops);
        let ghost xo = ops[n as int];
        assert(op_of(*x) == xo);
        let mut p = order.len();
        while p > 0 && (x.start < rs[order[p - 1]].start || (x.start == rs[order[p - 1]].start
            && x.end > rs[order[p - 1]].end))
            invariant
                p <= order@.len(),
                sorted == pick(order@, ops),
                xo == op_of(*x),
                forall|k: int| 0 <= k < rs@.len() ==> op_of(#[trigger] rs@[k]) == ops[k],
                forall|k: int| 0 <= k < order@.len() ==> #[trigger] order@[k] < rs@.len(),
                forall|q: int| p <= q < sorted.len() ==> op_before(xo, #[trigger] sorted[q]),
            decreases p,
        {
            assert(sorted[p - 1] == ops[order@[p - 1] as int]);
            assert(op_of(rs@[order@[p - 1] as int]) == ops[order@[p - 1] as int]);
            p = p - 1;
        }
        proof {
            if p > 0 {
                assert(sorted[p - 1] == ops[order@[p - 1] as int]);
                assert(op_of(rs@[order@[p - 1] as int]) == ops[order@[p - 1] as int]);
            }
            lemma_insert_at(sorted, xo, p as int);
            assert(ops.take(n + 1).drop_last() == ops.take(n as int));
        }
        order.insert(p, n);
        assert(pick(order@, ops) =~= sorted.insert(p as int, xo));
        n = n + 1;
    }
    let ghost sorted = pick(order@, ops);
    assert(sorted == sort_ops(ops));
    // Overlap check on sorted neighbours.
    let mut k: usize = 1;
    if order.len() >= 1 {
        assert(sorted.take(1).len() < 2);
    }
    while k < order.len()
        invariant
            1 <= k,
            order@.len() >= 1 ==> k <= order@.len(),
            order@.len() >= 1 ==> first_conflict(sorted.take(k as int)) is None,
            ops == edit_ops(edits@),
            len == source@.len(),
            first_out_of_bounds(ops, len) is None,
            sorted == sort_ops(ops),
            sorted == pick(order@, ops),
            rs@.len() == ops.len(),
            forall|j: int| 0 <= j < rs@.len() ==> op_of(#[trigger] rs@[j]) == ops[j],
            forall|j: int| 0 <= j < order@.len() ==> #[trigger] order@[j] < rs@.len(),
        decreases order.len() - k,
    {
        proof { lemma_first_conflict_step(sorted, k + 1); }
        let a = &rs[order[k - 1]];
        let b = &rs[order[k]];
        assert(op_of(*a) == sorted[k - 1]);
        assert(op_of(*b) == sorted[k as int]);
        if !(a.start == a.end && b.start == b.end) && a.end > b.start {
            assert(conflict(sorted[k - 1], sorted[k as int]));
            assert(first_conflict(sorted.take(k + 1)) == Some(k - 1));
            proof { lemma_first_conflict_prefix(sorted, k + 1); }
            assert(sorted.take(sorted.len() as int) == sorted);
            assert(first_out_of_bounds(ops, len) is None);
            return Some(Err(ApplyError::Overlapping {
                a_start: a.start,
                a_end: a.end,
                b_start: b.start,
                b_end: b.end,
            }));
        }
        k = k + 1;
    }
    assert(first_conflict(sorted) is None) by {
        if sorted.len() >= 2 {
            assert(k == sorted.len());
            assert(sorted.take(sorted.len() as int) == sorted);
        }
    }
    // Apply from the last sorted edit to the first.
    let mut result = slice_to_vec(source);
    let mut m = order.len();
    assert(sorted.take(m as int) == sorted);
    while m > 0
        invariant
            m <= order@.len(),
            sorted == pick(order@, ops),
            rs@.len() == ops.len(),
            forall|j: int| 0 <= j < rs@.len() ==> op_of(#[trigger] rs@[j]) == ops[j],
            forall|j: int| 0 <= j < order@.len() ==> #[trigger] order@[j] < rs@.len(),
            apply_ops_rev(source@, sorted) == apply_ops_rev(result@, sorted.take(m as int)),
            ops == edit_ops(edits@),
            len == source@.len(),
            first_out_of_bounds(ops, len) is None,
            sorted == sort_ops(ops),
            first_conflict(sorted) is None,
        decreases m,
    {
        let e = &rs[order[m - 1]];
        let ghost op = sorted[m - 1];
        assert(op_of(*e) == op);
        assert(sorted.take(m as int).drop_last() == sorted.take(m - 1));
        assert(sorted.take(m as int).last() == op);
        let floor: usize = if m >= 2 {
            assert(op_of(rs@[order@[m - 2] as int]) == sorted[m - 2]);
            rs[order[m - 2]].end
        } else {
            0
        };
        assert(floor == op_floor(sorted.take(m as int)));
        if e.start > e.end || e.end > result.len() {
            assert(apply_op(result@, op, floor as int) is None);
            assert(apply_ops_rev(result@, sorted.take(m as int)) is None);
            assert(first_out_of_bounds(ops, len) is None);
            return None;
        }
        match &e.replacement {
            Some(text) => {
                result = splice_bytes(&result, e.start, e.end, text.as_slice());
            },
            None => {
                let (a, b) = cleaned_delete_range(&result, e.start, e.end);
                let from = if a < floor && floor <= e.start {
                    floor
                } else {
                    a
                };
                let empty: Vec<u8> = Vec::new();
                result = splice_bytes(&result, from, b, empty.as_slice());
            },
        }
        m = m - 1;
    }
    assert(sorted.take(0) == Seq::<ByteOp>::empty());
    Some(Ok(result))
}

/// The first out-of-bounds operation of a prefix is the first of the whole list.
proof fn lemma_first_oob_prefix(ops: Seq<ByteOp>, len: int, i: int)
    requires
        0 <= i <= ops.len(),
        first_out_of_bounds(ops.take(i), len) is Some,
    ensures
        first_out_of_bounds(ops, len) == first_out_of_bounds(ops.take(i), len),
    decreases ops.len() - i,
{
    if i < ops.len() {
        lemma_first_oob_step(ops, len, i);
        lemma_first_oob_prefix(ops, len, i + 1);
    } else {
        assert(ops.take(i) == ops);
    }
}

/// The first conflict of a prefix is the first conflict of the whole list.
proof fn lemma_first_conflict_prefix(s: Seq<ByteOp>, k: int)
    requires
        2 <= k <= s.len(),
        first_conflict(s.take(k)) is Some,
    ensures
        first_conflict(s) == first_conflict(s.take(k)),
    decreases s.len() - k,
{
    if k < s.len() {
        lemma_first_conflict_step(s, k + 1);
        lemma_first_conflict_prefix(s, k + 1);
    } else {
        assert(s.take(k) == s);
    }
}

/// Applies a set of edits (all for one file) to its source bytes.
///
/// Edits are sorted by start byte (wider spans first on ties), checked for
/// out-of-bounds ranges and overlaps, then applied from the last to the first
/// so that earlier byte offsets stay valid. A deletion that leaves a blank line
/// also removes that line, but never reaches back past the end of the edit
/// before it. Edits that are in bounds and do not overlap always apply.
pub fn apply_edits(source: &[u8], edits: &[Edit]) -> (r: Result<Vec<u8>, ApplyError>)
    ensures
        apply_outcome(source@, edits@) == Some(result_view(r)),
{
    proof { law_apply_outcome_defined(source@, edits@); }
    match try_apply_edits(source, edits) {
        Some(r) => r,
        None => {
            assert(false);
            Err(ApplyError::OutOfBounds { start: 0, end: 0, source_len: 0 })
        },
    }
}

/// Some operation out of bounds makes `first_out_of_bounds` find one.
proof fn lemma_first_oob_found(ops: Seq<ByteOp>, len: int, i: int)
    requires
        0 <= i < ops.len(),
        !in_bounds(ops[i], len),
    ensures
        first_out_of_bounds(ops, len) is Some,
    decreases ops.len(),
{
    if i < ops.len() - 1 {
        lemma_first_oob_found(ops.drop_last(), len, i);
    }
}

/// Applying no edits gives the source back unchanged.
pub proof fn law_apply_no_edits(source: Seq<u8>)
    ensures
        apply_outcome(source, Seq::<Edit>::empty()) == Some(Ok::<Seq<u8>, ApplyError>(source)),
{
    assert(edit_ops(Seq::<Edit>::empty()) =~= Seq::<ByteOp>::empty());
}

/// A list of edits of which any one reaches past the source, or ends before
/// it starts, is rejected as out of bounds.
pub proof fn law_out_of_bounds_rejected(source: Seq<u8>, edits: Seq<Edit>, i: int)
    requires
        0 <= i < edits.len(),
        !in_bounds(resolve(edits[i]), source.len() as int),
    ensures
        apply_outcome(source, edits) matches Some(Err(ApplyError::OutOfBounds { .. })),
{
    lemma_first_oob_found(edit_ops(edits), source.len() as int, i);
}

/// A single in-bounds edit that writes text (a replacement or an insertion)
/// puts the UTF-8 bytes of its text in place of its span and leaves the bytes
/// before and after the span as they were.
pub proof fn law_single_edit_splices(source: Seq<u8>, e: Edit)
    requires
        resolve(e).2 is Some,
        in_bounds(resolve(e), source.len() as int),
    ensures
        apply_outcome(source, seq![e]) == Some(
            Ok::<Seq<u8>, ApplyError>(
                source.take(resolve(e).0) + resolve(e).2->0 + source.skip(resolve(e).1),
            ),
        ),
{
    let op = resolve(e);
    assert(edit_ops(seq![e]) =~= seq![op]);
    let one = seq![op];
    let none = Seq::<ByteOp>::empty();
    assert(one.drop_last() =~= none);
    assert(one.last() == op);
    assert(first_out_of_bounds(none, source.len() as int) is None);
    assert(first_out_of_bounds(one, source.len() as int) is None);
    assert(sort_ops(none) == none);
    assert(insert_sorted(none, op) == one);
    assert(sort_ops(one) == one);
    assert(first_conflict(one) is None);
    let t = splice(source, op.0, op.1, op.2->0);
    assert(op_floor(one) == 0);
    assert(apply_op(source, op, 0) == Some(t));
    assert(apply_ops_rev(t, none) == Some(t));
    assert(apply_ops_rev(source, one) == Some(t));
}


/// Every operation has `0 <= start <= end <= len`.
spec fn all_fit(s: Seq<ByteOp>, len: int) -> bool {
    forall|i: int| 0 <= i < s.len() ==> 0 <= (#[trigger] s[i]).0 && in_bounds(s[i], len)
}

/// The operations' starts never decrease.
spec fn starts_sorted(s: Seq<ByteOp>) -> bool {
    forall|i: int, j: int| 0 <= i <= j < s.len() ==> (#[trigger] s[i]).0 <= (#[trigger] s[j]).0
}

/// Each operation ends no later than the next one starts.
spec fn chained(s: Seq<ByteOp>) -> bool {
    forall|i: int| 0 <= i < s.len() - 1 ==> (#[trigger] s[i]).1 <= s[i + 1].0
}

proof fn lemma_line_start_bounds(s: Seq<u8>, at: int)
    requires
        0 <= at <= s.len(),
    ensures
        0 <= line_start(s, at) <= at,
    decreases at,
{
    if at > 0 && s[at - 1] != 0x0A {
        lemma_line_start_bounds(s, at - 1);
    }
}

proof fn lemma_line_end_bounds(s: Seq<u8>, at: int)
    requires
        0 <= at <= s.len(),
    ensures
        at <= line_end(s, at) <= s.len(),
    decreases s.len() - at,
{
    if at < s.len() && s[at] != 0x0A {
        lemma_line_end_bounds(s, at + 1);
    }
}

/// The widened range of a deletion contains the deleted span and fits the bytes.
proof fn lemma_cleaned_bounds(s: Seq<u8>, start: int, end: int)
    requires
        0 <= start <= end <= s.len(),
    ensures
        0 <= cleaned_range(s, start, end).0 <= start,
        end <= cleaned_range(s, start, end).1 <= s.len(),
{
    lemma_line_start_bounds(s, start);
    lemma_line_end_bounds(s, end);
    let ls = line_start(s, start);
    if ls > 0 {
        lemma_line_start_bounds(s, ls - 1);
    }
}

/// One operation that fits gives bytes at least `floor` long when it starts at
/// or after `floor`.
proof fn lemma_apply_op_fits(s: Seq<u8>, op: ByteOp, floor: int)
    requires
        0 <= op.0,
        in_bounds(op, s.len() as int),
        floor <= op.0,
    ensures
        apply_op(s, op, floor) is Some,
        apply_op(s, op, floor)->0.len() >= floor,
{
    if op.2 is None {
        lemma_cleaned_bounds(s, op.0, op.1);
    }
}

/// Chained operations that each fit, the last of them within `s`, apply.
proof fn lemma_rev_fits(s: Seq<u8>, ops: Seq<ByteOp>)
    requires
        forall|i: int| 0 <= i < ops.len() ==> 0 <= (#[trigger] ops[i]).0 <= ops[i].1,
        chained(ops),
        ops.len() > 0 ==> ops.last().1 <= s.len(),
    ensures
        apply_ops_rev(s, ops) is Some,
    decreases ops.len(),
{
    if ops.len() > 0 {
        let last = ops.last();
        assert(0 <= ops[ops.len() - 1].0 <= ops[ops.len() - 1].1);
        if ops.len() >= 2 {
            assert(ops[ops.len() - 2].1 <= ops[ops.len() - 1].0);
        }
        lemma_apply_op_fits(s, last, op_floor(ops));
        let t = apply_op(s, last, op_floor(ops))->0;
        let rest = ops.drop_last();
        assert forall|i: int| 0 <= i < rest.len() - 1 implies (#[trigger] rest[i]).1 <= rest[i + 1].0 by {
            assert(ops[i].1 <= ops[i + 1].0);
        }
        assert forall|i: int| 0 <= i < rest.len() implies 0 <= (#[trigger] rest[i]).0 <= rest[i].1 by {
            assert(0 <= ops[i].0 <= ops[i].1);
        }
        lemma_rev_fits(t, rest);
    }
}

/// No out-of-bounds operation found means every operation is in bounds.
proof fn lemma_first_oob_none(ops: Seq<ByteOp>, len: int)
    requires
        first_out_of_bounds(ops, len) is None,
    ensures
        forall|i: int| 0 <= i < ops.len() ==> in_bounds(#[trigger] ops[i], len),
{
    assert forall|i: int| 0 <= i < ops.len() implies in_bounds(#[trigger] ops[i], len) by {
        if !in_bounds(ops[i], len) {
            lemma_first_oob_found(ops, len, i);
        }
    }
}

/// No conflict found means no sorted neighbours conflict.
proof fn lemma_first_conflict_none(s: Seq<ByteOp>)
    requires
        first_conflict(s) is None,
    ensures
        forall|i: int| 0 <= i < s.len() - 1 ==> !conflict(#[trigger] s[i], s[i + 1]),
    decreases s.len(),
{
    if s.len() >= 2 {
        lemma_first_conflict_none(s.drop_last());
        let d = s.drop_last();
        assert forall|i: int| 0 <= i < s.len() - 1 implies !conflict(#[trigger] s[i], s[i + 1]) by {
            if i < s.len() - 2 {
                assert(!conflict(d[i], d[i + 1]));
            }
        }
    }
}

/// Every start of `insert_sorted(s, x)` is at most `b` when those of `s` and `x` are.
proof fn lemma_insert_sorted_bound(s: Seq<ByteOp>, x: ByteOp, b: int)
    requires
        x.0 <= b,
        forall|i: int| 0 <= i < s.len() ==> (#[trigger] s[i]).0 <= b,
    ensures
        forall|i: int| 0 <= i < insert_sorted(s, x).len() ==> (#[trigger] insert_sorted(s, x)[i]).0 <= b,
    decreases s.len(),
{
    let r = insert_sorted(s, x);
    if s.len() == 0 {
        assert(r == seq![x]);
    } else if op_before(x, s.last()) {
        let d = s.drop_last();
        assert forall|i: int| 0 <= i < d.len() implies (#[trigger] d[i]).0 <= b by {
            assert(s[i].0 <= b);
        }
        lemma_insert_sorted_bound(d, x, b);
        assert(s[s.len() - 1].0 <= b);
        let r0 = insert_sorted(d, x);
        assert(r == r0.push(s.last()));
        assert forall|i: int| 0 <= i < r.len() implies (#[trigger] r[i]).0 <= b by {
            if i < r0.len() {
                assert(r[i] == r0[i]);
            }
        }
    } else {
        assert(r == s.push(x));
        assert forall|i: int| 0 <= i < r.len() implies (#[trigger] r[i]).0 <= b by {
            if i < s.len() {
                assert(r[i] == s[i]);
            }
        }
    }
}

/// Inserting a fitting operation into sorted fitting operations keeps them
/// sorted and fitting.
proof fn lemma_insert_sorted_props(s: Seq<ByteOp>, x: ByteOp, len: int)
    requires
        all_fit(s, len),
        0 <= x.0,
        in_bounds(x, len),
        starts_sorted(s),
    ensures
        all_fit(insert_sorted(s, x), len),
        starts_sorted(insert_sorted(s, x)),
    decreases s.len(),
{
    if s.len() == 0 {
    } else if op_before(x, s.last()) {
        let d = s.drop_last();
        let last = s.last();
        assert(all_fit(d, len)) by {
            assert forall|i: int| 0 <= i < d.len() implies 0 <= (#[trigger] d[i]).0 && in_bounds(d[i], len) by {
                assert(0 <= s[i].0 && in_bounds(s[i], len));
            }
        }
        assert(starts_sorted(d)) by {
            assert forall|i: int, j: int| 0 <= i <= j < d.len() implies (#[trigger] d[i]).0 <= (#[trigger] d[j]).0 by {
                assert(s[i].0 <= s[j].0);
            }
        }
        lemma_insert_sorted_props(d, x, len);
        assert forall|i: int| 0 <= i < d.len() implies (#[trigger] d[i]).0 <= last.0 by {
            assert(s[i].0 <= s[s.len() - 1].0);
        }
        lemma_insert_sorted_bound(d, x, last.0);
        let r = insert_sorted(d, x);
        assert(insert_sorted(s, x) == r.push(last));
        assert(0 <= s[s.len() - 1].0 && in_bounds(s[s.len() - 1], len));
        let rr = r.push(last);
        assert forall|i: int, j: int| 0 <= i <= j < rr.len() implies (#[trigger] rr[i]).0 <= (#[trigger] rr[j]).0 by {
            if j == rr.len() - 1 {
                if i < rr.len() - 1 {
                    assert(r[i].0 <= last.0);
                }
            } else {
                assert(r[i].0 <= r[j].0);
            }
        }
        assert forall|i: int| 0 <= i < rr.len() implies 0 <= (#[trigger] rr[i]).0 && in_bounds(rr[i], len) by {
            if i < rr.len() - 1 {
                assert(0 <= r[i].0 && in_bounds(r[i], len));
            }
        }
    } else {
        let rr = s.push(x);
        assert(s[s.len() - 1].0 <= x.0);
        assert forall|i: int, j: int| 0 <= i <= j < rr.len() implies (#[trigger] rr[i]).0 <= (#[trigger] rr[j]).0 by {
            if j == rr.len() - 1 {
                if i < rr.len() - 1 {
                    assert(s[i].0 <= s[s.len() - 1].0);
                }
            } else {
                assert(s[i].0 <= s[j].0);
            }
        }
        assert forall|i: int| 0 <= i < rr.len() implies 0 <= (#[trigger] rr[i]).0 && in_bounds(rr[i], len) by {
            if i < rr.len() - 1 {
                assert(0 <= s[i].0 && in_bounds(s[i], len));
            }
        }
    }
}

/// Sorting fitting operations gives sorted fitting operations.
proof fn lemma_sort_ops_props(ops: Seq<ByteOp>, len: int)
    requires
        all_fit(ops, len),
    ensures
        all_fit(sort_ops(ops), len),
        starts_sorted(sort_ops(ops)),
    decreases ops.len(),
{
    if ops.len() > 0 {
        let d = ops.drop_last();
        assert forall|i: int| 0 <= i < d.len() implies 0 <= (#[trigger] d[i]).0 && in_bounds(d[i], len) by {
            assert(0 <= ops[i].0 && in_bounds(ops[i], len));
        }
        lemma_sort_ops_props(d, len);
        assert(0 <= ops[ops.len() - 1].0 && in_bounds(ops[ops.len() - 1], len));
        lemma_insert_sorted_props(sort_ops(d), ops.last(), len);
    }
}

/// The operations of edits are all non-negative; those in bounds fit.
proof fn lemma_edit_ops_fit(edits: Seq<Edit>, len: int)
    requires
        first_out_of_bounds(edit_ops(edits), len) is None,
    ensures
        all_fit(edit_ops(edits), len),
{
    let ops = edit_ops(edits);
    lemma_first_oob_none(ops, len);
    assert forall|i: int| 0 <= i < ops.len() implies 0 <= (#[trigger] ops[i]).0 && in_bounds(ops[i], len) by {
        assert(ops[i] == resolve(edits[i]));
        assert(in_bounds(ops[i], len));
    }
}

/// Sorted fitting operations with no conflicting neighbours apply.
proof fn lemma_sorted_ops_apply(source: Seq<u8>, ops: Seq<ByteOp>)
    requires
        all_fit(ops, source.len() as int),
        first_conflict(sort_ops(ops)) is None,
    ensures
        apply_ops_rev(source, sort_ops(ops)) is Some,
{
    let len = source.len() as int;
    let sorted = sort_ops(ops);
    lemma_sort_ops_props(ops, len);
    lemma_first_conflict_none(sorted);
    assert forall|i: int| 0 <= i < sorted.len() - 1 implies (#[trigger] sorted[i]).1 <= sorted[i + 1].0 by {
        assert(!conflict(sorted[i], sorted[i + 1]));
        assert(sorted[i].0 <= sorted[i + 1].0);
        assert(0 <= sorted[i].0 && in_bounds(sorted[i], len));
    }
    assert forall|i: int| 0 <= i < sorted.len() implies 0 <= (#[trigger] sorted[i]).0 <= sorted[i].1 by {
        assert(0 <= sorted[i].0 && in_bounds(sorted[i], len));
    }
    if sorted.len() > 0 {
        assert(0 <= sorted[sorted.len() - 1].0 && in_bounds(sorted[sorted.len() - 1], len));
    }
    lemma_rev_fits(source, sorted);
}

/// Applying edits always reaches an answer: no step of the back-to-front
/// application falls outside the bytes that the later steps left, because each
/// deletion's blank-line cleanup stops at the end of the edit before it. So in
/// particular every set of in-bounds edits whose sorted neighbours do not
/// overlap applies successfully.
pub proof fn law_apply_outcome_defined(source: Seq<u8>, edits: Seq<Edit>)
    ensures
        apply_outcome(source, edits) is Some,
        first_out_of_bounds(edit_ops(edits), source.len() as int) is None && first_conflict(
            sort_ops(edit_ops(edits)),
        ) is None ==> apply_outcome(source, edits) matches Some(Ok(_)),
{
    let ops = edit_ops(edits);
    let len = source.len() as int;
    if first_out_of_bounds(ops, len) is None {
        lemma_edit_ops_fit(edits, len);
        if first_conflict(sort_ops(ops)) is None {
            lemma_sorted_ops_apply(source, ops);
        }
    }
}


/// One step of the back-to-front application never touches the bytes before
/// `floor`, the end of the edit before it: a replacement starts at or after
/// it, and a deletion's blank-line cleanup stops there. So the offsets of the
/// edits still to be applied stay valid.
pub proof fn law_step_keeps_earlier_bytes(s: Seq<u8>, op: ByteOp, floor: int)
    requires
        0 <= floor <= op.0,
        in_bounds(op, s.len() as int),
    ensures
        apply_op(s, op, floor) is Some,
        apply_op(s, op, floor)->0.take(floor) == s.take(floor),
{
    lemma_apply_op_fits(s, op, floor);
    let t = apply_op(s, op, floor)->0;
    if op.2 is None {
        lemma_cleaned_bounds(s, op.0, op.1);
    }
    assert(t.take(floor) =~= s.take(floor));
}


/// Where `insert_sorted` puts `x`: after every operation it does not precede.
spec fn insert_pos(s: Seq<ByteOp>, x: ByteOp) -> int
    decreases s.len(),
{
    if s.len() == 0 {
        0
    } else if op_before(x, s.last()) {
        insert_pos(s.drop_last(), x)
    } else {
        s.len() as int
    }
}

proof fn lemma_insert_pos(s: Seq<ByteOp>, x: ByteOp)
    ensures
        0 <= insert_pos(s, x) <= s.len(),
        insert_sorted(s, x) == s.insert(insert_pos(s, x), x),
    decreases s.len(),
{
    if s.len() == 0 {
        assert(s.insert(0, x) =~= seq![x]);
    } else if op_before(x, s.last()) {
        let d = s.drop_last();
        lemma_insert_pos(d, x);
        let p = insert_pos(d, x);
        assert(d.insert(p, x).push(s.last()) =~= s.insert(p, x));
    } else {
        assert(s.insert(s.len() as int, x) =~= s.push(x));
    }
}

/// `sort_ops` rearranges the operations: each sorted position holds the
/// operation at a distinct original position.
proof fn lemma_sort_witness(ops: Seq<ByteOp>) -> (idx: Seq<int>)
    ensures
        sort_ops(ops).len() == ops.len(),
        idx.len() == ops.len(),
        forall|k: int| 0 <= k < idx.len() ==> 0 <= #[trigger] idx[k] < ops.len() && sort_ops(ops)[k] == ops[idx[k]],
        forall|a: int, b: int| 0 <= a < b < idx.len() ==> #[trigger] idx[a] != #[trigger] idx[b],
    decreases ops.len(),
{
    if ops.len() == 0 {
        Seq::empty()
    } else {
        let d = ops.drop_last();
        let w = lemma_sort_witness(d);
        let sd = sort_ops(d);
        let x = ops.last();
        let n = ops.len() - 1;
        lemma_insert_pos(sd, x);
        let p = insert_pos(sd, x);
        let sorted = sort_ops(ops);
        assert(sorted == sd.insert(p, x));
        let idx = w.insert(p, n);
        assert forall|k: int| 0 <= k < idx.len() implies 0 <= #[trigger] idx[k] < ops.len() && sorted[k] == ops[idx[k]] by {
            if k < p {
                assert(idx[k] == w[k]);
                assert(sorted[k] == sd[k]);
                assert(d[w[k]] == ops[w[k]]);
            } else if k == p {
                assert(idx[k] == n);
            } else {
                assert(idx[k] == w[k - 1]);
                assert(sorted[k] == sd[k - 1]);
                assert(d[w[k - 1]] == ops[w[k - 1]]);
            }
        }
        assert forall|a: int, b: int| 0 <= a < b < idx.len() implies #[trigger] idx[a] != #[trigger] idx[b] by {
            if a < p {
                assert(idx[a] == w[a]);
            } else if a > p {
                assert(idx[a] == w[a - 1]);
            }
            if b < p {
                assert(idx[b] == w[b]);
            } else if b > p {
                assert(idx[b] == w[b - 1]);
            }
            if a != p && b != p {
                if a < p && b > p {
                    assert(w[a] != w[b - 1]);
                } else if a < p {
                    assert(w[a] != w[b]);
                } else {
                    assert(w[a - 1] != w[b - 1]);
                }
            }
        }
        idx
    }
}

/// A conflict found is one between the sorted neighbours it names.
proof fn lemma_first_conflict_some(s: Seq<ByteOp>)
    requires
        first_conflict(s) is Some,
    ensures
        0 <= first_conflict(s)->0 < s.len() - 1,
        conflict(s[first_conflict(s)->0], s[first_conflict(s)->0 + 1]),
    decreases s.len(),
{
    let d = s.drop_last();
    if first_conflict(d) is Some {
        lemma_first_conflict_some(d);
        let k = first_conflict(d)->0;
        assert(d[k] == s[k] && d[k + 1] == s[k + 1]);
    }
}

/// All operations in bounds means none is found out of bounds.
proof fn lemma_first_oob_all_in(ops: Seq<ByteOp>, len: int)
    requires
        forall|i: int| 0 <= i < ops.len() ==> in_bounds(#[trigger] ops[i], len),
    ensures
        first_out_of_bounds(ops, len) is None,
    decreases ops.len(),
{
    if ops.len() > 0 {
        let d = ops.drop_last();
        assert forall|i: int| 0 <= i < d.len() implies in_bounds(#[trigger] d[i], len) by {
            assert(in_bounds(ops[i], len));
        }
        lemma_first_oob_all_in(d, len);
        assert(in_bounds(ops[ops.len() - 1], len));
    }
}

/// Whether operation `b` starts inside operation `a` (two insertions at one
/// point do not count).
pub open spec fn starts_inside(a: ByteOp, b: ByteOp) -> bool {
    !(a.0 == a.1 && b.0 == b.1) && a.0 <= b.0 && b.0 < a.1
}

/// Edits that are all in bounds, and of which no two overlap (none starts
/// inside another), always apply successfully.
pub proof fn law_disjoint_edits_apply(source: Seq<u8>, edits: Seq<Edit>)
    requires
        forall|i: int| 0 <= i < edits.len() ==> in_bounds(#[trigger] resolve(edits[i]), source.len() as int),
        forall|i: int, j: int|
            0 <= i < edits.len() && 0 <= j < edits.len() && i != j ==> !starts_inside(
                #[trigger] resolve(edits[i]),
                #[trigger] resolve(edits[j]),
            ),
    ensures
        apply_outcome(source, edits) matches Some(Ok(_)),
{
    let ops = edit_ops(edits);
    let len = source.len() as int;
    assert forall|i: int| 0 <= i < ops.len() implies in_bounds(#[trigger] ops[i], len) by {
        assert(ops[i] == resolve(edits[i]));
    }
    lemma_first_oob_all_in(ops, len);
    lemma_edit_ops_fit(edits, len);
    lemma_sort_ops_props(ops, len);
    let sorted = sort_ops(ops);
    if first_conflict(sorted) is Some {
        lemma_first_conflict_some(sorted);
        let k = first_conflict(sorted)->0;
        let idx = lemma_sort_witness(ops);
        let i = idx[k];
        let j = idx[k + 1];
        assert(i != j);
        assert(sorted[k] == ops[i] && sorted[k + 1] == ops[j]);
        assert(sorted[k].0 <= sorted[k + 1].0);
        assert(ops[i] == resolve(edits[i]) && ops[j] == resolve(edits[j]));
        assert(starts_inside(ops[i], ops[j]));
        assert(false);
    }
    law_apply_outcome_defined(source, edits);
}

} // verus!
