//! The concrete syntax tree that tree-sitter's Go grammar gives, as plain
//! values: each node's kind, the field it fills in its parent, whether it is
//! named or extra (a comment), its span and its children in source order.

use vstd::prelude::*;

use crate::span::Span;
use crate::text::str_eq;

verus! {

/// A node of tree-sitter's Go syntax tree.
pub struct CstNode {
    /// The grammar kind, e.g. `identifier`; for an anonymous token its text, e.g. `+`.
    pub kind: String,
    /// The field of the parent that this node fills, e.g. `operand`.
    pub field: Option<String>,
    /// Whether the node is a named node (not an anonymous token).
    pub named: bool,
    /// Whether the node is an extra, such as a comment.
    pub extra: bool,
    /// Whether the node stands for a syntax error or a missing token.
    pub error: bool,
    pub span: Span,
    pub children: Vec<CstNode>,
}

#[verifier::external_type_specification]
#[verifier::external_body]
pub struct ExTreeSitterNode<'a>(tree_sitter::Node<'a>);

/// The syntax tree that tree-sitter's Go grammar gives for `src`, or `None`
/// when the parser gives none.
pub uninterp spec fn go_cst(src: Seq<u8>) -> Option<CstNode>;

/// The characters of `bytes` when they are valid UTF-8, else `None`.
pub uninterp spec fn utf8_decode(bytes: Seq<u8>) -> Option<Seq<char>>;

/// A tree-sitter node and its subtree as plain values, one node for one.
#[verifier::external_body]
fn cst_of(node: tree_sitter::Node<'_>, field: Option<&str>) -> CstNode {
    let (start, end) = (node.start_position(), node.end_position());
    CstNode {
        kind: node.kind().to_string(),
        field: field.map(|f| f.to_string()),
        named: node.is_named(),
        extra: node.is_extra(),
        error: node.is_error() || node.is_missing(),
        span: Span { start_byte: node.start_byte(), end_byte: node.end_byte(), start_row: start.row, start_col: start.column, end_row: end.row, end_col: end.column },
        children: (0..node.child_count() as u32).filter_map(|i| node.child(i).map(|c| cst_of(c, node.field_name_for_child(i)))).collect(),
    }
}

/// `tree_sitter::Parser::parse` with the Go grammar of `tree-sitter-go`, its
/// tree converted node for node. The tree is a function of the source alone,
/// named `go_cst`.
#[verifier::external_body]
pub(crate) fn parse_go_cst(src: &[u8]) -> (r: Option<CstNode>)
    ensures
        r == go_cst(src@),
{
    let mut parser = tree_sitter::Parser::new();
    parser.set_language(&tree_sitter_go::LANGUAGE.into()).ok()?;
    let tree = parser.parse(src, None)?;
    Some(cst_of(tree.root_node(), None))
}

/// `std::str::from_utf8`: the characters of valid UTF-8 bytes, else `None`.
#[verifier::external_body]
fn utf8_text(bytes: &[u8]) -> (r: Option<String>)
    ensures
        match r {
            Some(s) => utf8_decode(bytes@) == Some(s@),
            None => utf8_decode(bytes@) is None,
        },
{
    std::str::from_utf8(bytes).ok().map(|s| s.to_string())
}

/// A node that a typed view of the tree lists among its children: named, not
/// an extra, and filling no field.
pub open spec fn plain(c: CstNode) -> bool {
    c.field is None && c.named && !c.extra
}

/// Whether `c` fills the field `f` of its parent.
pub open spec fn fills(c: CstNode, f: Seq<char>) -> bool {
    c.field matches Some(s) && s@ == f
}

/// Index of the first child from `i` on that fills field `f`, or -1.
pub open spec fn field_from(n: CstNode, f: Seq<char>, i: int) -> int
    decreases n.children@.len() - i,
{
    if i < 0 || i >= n.children@.len() {
        -1
    } else if fills(n.children@[i], f) {
        i
    } else {
        field_from(n, f, i + 1)
    }
}

/// Index of the first child that fills field `f`, or -1.
pub open spec fn field_at(n: CstNode, f: Seq<char>) -> int {
    field_from(n, f, 0)
}

/// Index of the first plain child from `i` on, or -1.
pub open spec fn plain_from(n: CstNode, i: int) -> int
    decreases n.children@.len() - i,
{
    if i < 0 || i >= n.children@.len() {
        -1
    } else if plain(n.children@[i]) {
        i
    } else {
        plain_from(n, i + 1)
    }
}

/// Index of the first plain child, or -1.
pub open spec fn first_plain(n: CstNode) -> int {
    plain_from(n, 0)
}

/// Number of plain children from `i` on.
pub open spec fn plain_count(n: CstNode, i: int) -> nat
    decreases n.children@.len() - i,
{
    if i < 0 || i >= n.children@.len() {
        0
    } else {
        (if plain(n.children@[i]) {
            1nat
        } else {
            0nat
        }) + plain_count(n, i + 1)
    }
}

/// Whether the node or a node below it stands for a syntax error.
pub open spec fn has_error_node(n: CstNode) -> bool
    decreases n, n.children@.len() + 1,
{
    n.error || children_have_error(n, 0)
}

/// Whether a child from `i` on has a syntax error in it.
pub open spec fn children_have_error(n: CstNode, i: int) -> bool
    decreases n, n.children@.len() - i,
{
    if i < 0 || i >= n.children@.len() {
        false
    } else {
        has_error_node(n.children@[i]) || children_have_error(n, i + 1)
    }
}

/// Whether the node or a node below it stands for a syntax error.
pub fn tree_has_error(n: &CstNode) -> (b: bool)
    ensures
        b == has_error_node(*n),
    decreases n, n.children@.len() + 1,
{
    n.error || children_error(n, 0)
}

fn children_error(n: &CstNode, i: usize) -> (b: bool)
    requires
        i <= n.children@.len(),
    ensures
        b == children_have_error(*n, i as int),
    decreases n, n.children@.len() - i,
{
    if i >= n.children.len() {
        false
    } else {
        tree_has_error(&n.children[i]) || children_error(n, i + 1)
    }
}

/// The source text of a node: its bytes decoded as UTF-8, or empty when they
/// are not valid UTF-8 or the span does not fit the source.
pub open spec fn text_of(n: CstNode, src: Seq<u8>) -> Seq<char> {
    let (a, b) = (n.span.start_byte as int, n.span.end_byte as int);
    if a <= b && b <= src.len() {
        match utf8_decode(src.subrange(a, b)) {
            Some(t) => t,
            None => Seq::empty(),
        }
    } else {
        Seq::empty()
    }
}

pub proof fn lemma_field_from_bounds(n: CstNode, f: Seq<char>, i: int)
    ensures
        field_from(n, f, i) == -1 || (0 <= i <= field_from(n, f, i) < n.children@.len() && fills(
            n.children@[field_from(n, f, i)],
            f,
        )),
    decreases n.children@.len() - i,
{
    if 0 <= i < n.children@.len() && !fills(n.children@[i], f) {
        lemma_field_from_bounds(n, f, i + 1);
    }
}

pub proof fn lemma_plain_from_bounds(n: CstNode, i: int)
    ensures
        plain_from(n, i) == -1 || (0 <= i <= plain_from(n, i) < n.children@.len() && plain(
            n.children@[plain_from(n, i)],
        )),
    decreases n.children@.len() - i,
{
    if 0 <= i < n.children@.len() && !plain(n.children@[i]) {
        lemma_plain_from_bounds(n, i + 1);
    }
}

/// Whether the node has kind `k`.
pub fn kind_is(n: &CstNode, k: &str) -> (b: bool)
    ensures
        b == (n.kind@ == k@),
{
    str_eq(n.kind.as_str(), k)
}

/// Whether `c` is a plain child.
pub fn is_plain(c: &CstNode) -> (b: bool)
    ensures
        b == plain(*c),
{
    c.field.is_none() && c.named && !c.extra
}

/// Whether `c` fills field `f`.
pub fn fills_field(c: &CstNode, f: &str) -> (b: bool)
    ensures
        b == fills(*c, f@),
{
    match &c.field {
        Some(s) => str_eq(s.as_str(), f),
        None => false,
    }
}

/// The child that fills field `f`, if any.
pub fn field_child<'a>(n: &'a CstNode, f: &str) -> (r: Option<&'a CstNode>)
    ensures
        field_at(*n, f@) == -1 ==> r is None,
        field_at(*n, f@) != -1 ==> r == Some(&n.children@[field_at(*n, f@)]),
        field_at(*n, f@) != -1 ==> 0 <= field_at(*n, f@) < n.children@.len(),
{
    proof { lemma_field_from_bounds(*n, f@, 0); }
    let mut i: usize = 0;
    while i < n.children.len()
        invariant
            i <= n.children@.len(),
            field_at(*n, f@) == field_from(*n, f@, i as int),
        decreases n.children@.len() - i,
    {
        if fills_field(&n.children[i], f) {
            return Some(&n.children[i]);
        }
        i = i + 1;
    }
    None
}

/// The first plain child, if any.
pub fn first_plain_child(n: &CstNode) -> (r: Option<&CstNode>)
    ensures
        first_plain(*n) == -1 ==> r is None,
        first_plain(*n) != -1 ==> r == Some(&n.children@[first_plain(*n)]),
        first_plain(*n) != -1 ==> 0 <= first_plain(*n) < n.children@.len(),
{
    proof { lemma_plain_from_bounds(*n, 0); }
    let mut i: usize = 0;
    while i < n.children.len()
        invariant
            i <= n.children@.len(),
            first_plain(*n) == plain_from(*n, i as int),
        decreases n.children@.len() - i,
    {
        if is_plain(&n.children[i]) {
            return Some(&n.children[i]);
        }
        i = i + 1;
    }
    None
}

/// The number of plain children.
pub fn count_plain(n: &CstNode) -> (k: usize)
    ensures
        k == plain_count(*n, 0),
{
    let mut i = n.children.len();
    let mut k: usize = 0;
    while i > 0
        invariant
            i <= n.children@.len(),
            k == plain_count(*n, i as int),
            k <= n.children@.len() - i,
        decreases i,
    {
        i = i - 1;
        assert(k + 1 <= n.children.len());
        if is_plain(&n.children[i]) {
            k = k + 1;
        }
    }
    k
}

/// The source text of a node, as `text_of` says.
pub fn node_text(n: &CstNode, src: &[u8]) -> (s: String)
    ensures
        s@ == text_of(*n, src@),
{
    let (a, b) = (n.span.start_byte, n.span.end_byte);
    if a <= b && b <= src.len() {
        let bytes = slice_of(src, a, b);
        match utf8_text(bytes) {
            Some(t) => t,
            None => String::new(),
        }
    } else {
        String::new()
    }
}

/// `src[a..b]`.
fn slice_of(src: &[u8], a: usize, b: usize) -> (r: &[u8])
    requires
        a <= b <= src@.len(),
    ensures
        r@ == src@.subrange(a as int, b as int),
{
    vstd::slice::slice_subrange(src, a, b)
}

} // verus!
