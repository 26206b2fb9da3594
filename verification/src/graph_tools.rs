//! Answers about call relationships: callers, callees, what is reachable from
//! a symbol, and dead code, as graph data and readable text.

use vstd::prelude::*;

use crate::callgraph::{
    sym_pos,
    CallGraph, EntryV, KindV, Symbol, SymbolEntry, SymbolKind, SymV, callees_list, callers_list,
    call_edges_view, copy_symbol, entries_view, entry_index, entry_rows_ok, graph_edges,
    graph_table, lemma_graph_table_rows, reach_set, syms_view,
};
use crate::construct::{nat_string, nat_text};
use crate::repo::Repo;
use crate::text::{chars_of, str_eq};

verus! {

/// The text of a symbol: `pkg_dir/name`.
pub open spec fn disp(s: SymV) -> Seq<char> {
    s.0 + "/"@ + s.1
}

/// Lexicographic order of texts by character code.
pub open spec fn text_lt(a: Seq<char>, b: Seq<char>) -> bool
    decreases a.len(),
{
    if a.len() == 0 {
        b.len() > 0
    } else if b.len() == 0 {
        false
    } else if a[0] != b[0] {
        (a[0] as u32) < (b[0] as u32)
    } else {
        text_lt(a.drop_first(), b.drop_first())
    }
}

/// Inserts `x` after the last element whose key is not greater than its own.
pub open spec fn insert_keyed<A>(s: Seq<(Seq<char>, A)>, x: (Seq<char>, A)) -> Seq<(Seq<char>, A)>
    decreases s.len(),
{
    if s.len() == 0 {
        seq![x]
    } else if text_lt(x.0, s.last().0) {
        insert_keyed(s.drop_last(), x).push(s.last())
    } else {
        s.push(x)
    }
}

/// A stable sort by key.
pub open spec fn sort_keyed<A>(s: Seq<(Seq<char>, A)>) -> Seq<(Seq<char>, A)>
    decreases s.len(),
{
    if s.len() == 0 {
        Seq::empty()
    } else {
        insert_keyed(sort_keyed(s.drop_last()), s.last())
    }
}

/// The views of keyed items.
pub open spec fn keyed_view<T>(v: Seq<(String, T)>) -> Seq<(Seq<char>, T)> {
    v.map_values(|x: (String, T)| (x.0@, x.1))
}

/// Symbols keyed by their text.
pub open spec fn by_text(s: Seq<SymV>) -> Seq<(Seq<char>, SymV)> {
    s.map_values(|x: SymV| (disp(x), x))
}

/// Symbols sorted by their text, stably.
pub open spec fn sort_by_text(s: Seq<SymV>) -> Seq<SymV> {
    sort_keyed(by_text(s)).map_values(|x: (Seq<char>, SymV)| x.1)
}

/// Lexicographic order of two texts by character code.
pub fn text_less(a: &str, b: &str) -> (r: bool)
    ensures
        r == text_lt(a@, b@),
{
    let x = chars_of(a);
    let y = chars_of(b);
    let mut i: usize = 0;
    proof {
        assert(x@.skip(0) =~= x@);
        assert(y@.skip(0) =~= y@);
    }
    while i < x.len() && i < y.len()
        invariant
            i <= x@.len(),
            i <= y@.len(),
            x@ == a@,
            y@ == b@,
            text_lt(a@, b@) == text_lt(x@.skip(i as int), y@.skip(i as int)),
        decreases x@.len() - i,
    {
        proof {
            assert(x@.skip(i as int)[0] == x@[i as int]);
            assert(y@.skip(i as int)[0] == y@[i as int]);
            assert(x@.skip(i as int).drop_first() =~= x@.skip(i + 1));
            assert(y@.skip(i as int).drop_first() =~= y@.skip(i + 1));
        }
        if x[i] != y[i] {
            return (x[i] as u32) < (y[i] as u32);
        }
        i = i + 1;
    }
    proof {
        if i == x@.len() {
            assert(x@.skip(i as int).len() == 0);
        } else {
            assert(y@.skip(i as int).len() == 0);
        }
    }
    i == x.len() && i < y.len()
}

/// Inserts an item into a list sorted by key, after the items whose key is
/// not greater than its own.
fn insert_keyed_exec<T>(v: &mut Vec<(String, T)>, x: (String, T))
    ensures
        keyed_view(final(v)@) == insert_keyed(keyed_view(old(v)@), (x.0@, x.1)),
{
    let ghost s = keyed_view(v@);
    let ghost xv = (x.0@, x.1);
    let mut p: usize = v.len();
    let mut searching = true;
    proof {
        assert(s.take(p as int) =~= s);
        assert(s.skip(p as int) =~= Seq::<(Seq<char>, T)>::empty());
        assert(s + Seq::<(Seq<char>, T)>::empty() =~= s);
    }
    while searching
        invariant
            p <= v@.len(),
            s == keyed_view(v@),
            xv == (x.0@, x.1),
            insert_keyed(s, xv) == insert_keyed(s.take(p as int), xv) + s.skip(p as int),
            !searching ==> (p == 0 || !text_lt(xv.0, s[p - 1].0)),
        decreases p + (if searching { 1int } else { 0int }),
    {
        if p == 0 {
            searching = false;
        } else {
            proof {
                assert(s[p - 1].0 == v@[p - 1].0@);
            }
            if text_less(x.0.as_str(), v[p - 1].0.as_str()) {
                proof {
                    let t = s.take(p as int);
                    assert(t.drop_last() =~= s.take(p - 1));
                    assert(t.last() == s[p - 1]);
                    assert(insert_keyed(t, xv) == insert_keyed(s.take(p - 1), xv).push(s[p - 1]));
                    assert(insert_keyed(s.take(p - 1), xv).push(s[p - 1]) + s.skip(p as int) =~= insert_keyed(
                        s.take(p - 1),
                        xv,
                    ) + s.skip(p - 1));
                }
                p = p - 1;
            } else {
                searching = false;
            }
        }
    }
    proof {
        let t = s.take(p as int);
        if p == 0 {
            assert(t =~= Seq::<(Seq<char>, T)>::empty());
            assert(insert_keyed(t, xv) == seq![xv]);
        } else {
            assert(t.last() == s[p - 1]);
            assert(insert_keyed(t, xv) == t.push(xv));
        }
    }
    v.insert(p, x);
    proof {
        assert(keyed_view(v@) =~= s.take(p as int).push(xv) + s.skip(p as int));
    }
}

/// Items sorted by key, stably.
pub fn sort_keyed_exec<T>(v: Vec<(String, T)>) -> (r: Vec<(String, T)>)
    ensures
        keyed_view(r@) == sort_keyed(keyed_view(v@)),
{
    let ghost s = keyed_view(v@);
    let mut v = v;
    let mut rest: Vec<(String, T)> = Vec::new();
    let ghost mut done: int = 0;
    proof {
        assert(s.skip(0) =~= s);
        assert(s.take(0) =~= Seq::<(Seq<char>, T)>::empty());
    }
    while v.len() > 0
        invariant
            0 <= done <= s.len(),
            keyed_view(v@) == s.skip(done),
            keyed_view(rest@) == sort_keyed(s.take(done)),
        decreases v.len(),
    {
        let ghost before = keyed_view(v@);
        let ghost vv = v@;
        proof {
            assert(before.len() == v@.len());
            assert(done < s.len());
            assert(before[0] == s[done]);
        }
        let x = v.remove(0);
        proof {
            assert(x == vv[0]);
            assert(s.take(done + 1).drop_last() =~= s.take(done));
            assert(s.take(done + 1).last() == s[done]);
            assert(v@ == vv.remove(0));
            assert forall|k: int| 0 <= k < keyed_view(v@).len() implies keyed_view(v@)[k] == s.skip(done + 1)[k] by {
                assert(v@[k] == vv[k + 1]);
                assert(keyed_view(vv)[k + 1] == before[k + 1]);
            }
            assert(keyed_view(v@) =~= s.skip(done + 1));
        }
        insert_keyed_exec(&mut rest, x);
        proof {
            done = done + 1;
        }
    }
    proof {
        assert(s.take(done) =~= s);
    }
    rest
}

/// Inserting commutes with changing payloads that keep keys.
pub proof fn lemma_insert_map<A, B>(s: Seq<(Seq<char>, A)>, x: (Seq<char>, A), f: spec_fn((Seq<char>, A)) -> (Seq<char>, B))
    requires
        forall|y: (Seq<char>, A)| #[trigger] f(y).0 == y.0,
    ensures
        insert_keyed(s.map_values(f), f(x)) == insert_keyed(s, x).map_values(f),
    decreases s.len(),
{
    if s.len() == 0 {
        assert(insert_keyed(s, x).map_values(f) =~= seq![f(x)]);
    } else {
        assert(s.map_values(f).last() == f(s.last()));
        assert(s.map_values(f).drop_last() =~= s.drop_last().map_values(f));
        assert(f(x).0 == x.0);
        assert(f(s.last()).0 == s.last().0);
        if text_lt(x.0, s.last().0) {
            lemma_insert_map(s.drop_last(), x, f);
            assert(insert_keyed(s.drop_last(), x).push(s.last()).map_values(f) =~= insert_keyed(s.drop_last(), x).map_values(f).push(
                f(s.last()),
            ));
        } else {
            assert(s.push(x).map_values(f) =~= s.map_values(f).push(f(x)));
        }
    }
}

/// Sorting commutes with changing payloads that keep keys.
pub proof fn lemma_sort_map<A, B>(s: Seq<(Seq<char>, A)>, f: spec_fn((Seq<char>, A)) -> (Seq<char>, B))
    requires
        forall|y: (Seq<char>, A)| #[trigger] f(y).0 == y.0,
    ensures
        sort_keyed(s.map_values(f)) == sort_keyed(s).map_values(f),
    decreases s.len(),
{
    if s.len() == 0 {
        assert(s.map_values(f) =~= Seq::<(Seq<char>, B)>::empty());
        assert(sort_keyed(s).map_values(f) =~= Seq::<(Seq<char>, B)>::empty());
    } else {
        assert(s.map_values(f).drop_last() =~= s.drop_last().map_values(f));
        assert(s.map_values(f).last() == f(s.last()));
        lemma_sort_map(s.drop_last(), f);
        lemma_insert_map(sort_keyed(s.drop_last()), s.last(), f);
    }
}

/// Symbols sorted by their text, stably.
pub fn sort_symbols(v: Vec<Symbol>) -> (r: Vec<Symbol>)
    ensures
        syms_view(r@) == sort_by_text(syms_view(v@)),
{
    let ghost s = syms_view(v@);
    let ghost f = |x: (Seq<char>, Symbol)| (x.0, x.1@);
    let mut v = v;
    let mut keyed: Vec<(String, Symbol)> = Vec::new();
    let ghost mut done: int = 0;
    proof {
        assert(s.skip(0) =~= s);
    }
    while v.len() > 0
        invariant
            0 <= done <= s.len(),
            syms_view(v@) == s.skip(done),
            f == (|x: (Seq<char>, Symbol)| (x.0, x.1@)),
            keyed_view(keyed@).map_values(f) == by_text(s.take(done)),
        decreases v.len(),
    {
        let ghost vv = v@;
        let ghost k0 = keyed_view(keyed@);
        proof {
            assert(syms_view(vv).len() == vv.len());
            assert(done < s.len());
            assert(syms_view(vv)[0] == s[done]);
        }
        let x = v.remove(0);
        let d = x.display();
        proof {
            assert(x == vv[0]);
            assert(v@ == vv.remove(0));
            assert forall|k: int| 0 <= k < syms_view(v@).len() implies syms_view(v@)[k] == s.skip(done + 1)[k] by {
                assert(v@[k] == vv[k + 1]);
                assert(syms_view(vv)[k + 1] == s.skip(done)[k + 1]);
                assert(s.skip(done)[k + 1] == s[done + k + 1]);
            }
            assert(syms_view(v@) =~= s.skip(done + 1));
        }
        let ghost xd = (d@, x);
        keyed.push((d, x));
        proof {
            assert(keyed_view(keyed@) =~= k0.push(xd));
            assert(keyed_view(keyed@).map_values(f) =~= k0.map_values(f).push(f(xd)));
            assert(by_text(s.take(done + 1)) =~= by_text(s.take(done)).push((disp(s[done]), s[done])));
            done = done + 1;
        }
    }
    proof {
        assert(s.take(done) =~= s);
        assert forall|y: (Seq<char>, Symbol)| #[trigger] f(y).0 == y.0 by {}
        lemma_sort_map(keyed_view(keyed@), f);
    }
    let sorted = sort_keyed_exec(keyed);
    let ghost sv = keyed_view(sorted@);
    let mut out: Vec<Symbol> = Vec::new();
    let mut i: usize = 0;
    let mut sorted = sorted;
    let ghost mut taken: int = 0;
    proof {
        assert(sv.skip(0) =~= sv);
    }
    while sorted.len() > 0
        invariant
            0 <= taken <= sv.len(),
            keyed_view(sorted@) == sv.skip(taken),
            syms_view(out@) == sv.take(taken).map_values(|x: (Seq<char>, Symbol)| x.1@),
        decreases sorted.len(),
    {
        let ghost ss = sorted@;
        proof {
            assert(keyed_view(ss).len() == ss.len());
            assert(taken < sv.len());
            assert(keyed_view(ss)[0] == sv[taken]);
        }
        let (_, x) = sorted.remove(0);
        proof {
            assert(x == ss[0].1);
            assert(sorted@ == ss.remove(0));
            assert forall|k: int| 0 <= k < keyed_view(sorted@).len() implies keyed_view(sorted@)[k] == sv.skip(taken + 1)[k] by {
                assert(sorted@[k] == ss[k + 1]);
                assert(keyed_view(ss)[k + 1] == sv.skip(taken)[k + 1]);
                assert(sv.skip(taken)[k + 1] == sv[taken + k + 1]);
            }
            assert(keyed_view(sorted@) =~= sv.skip(taken + 1));
        }
        let ghost o0 = syms_view(out@);
        let ghost xv = x@;
        out.push(x);
        proof {
            assert(syms_view(out@) =~= o0.push(xv));
            assert(sv.take(taken + 1).map_values(|x: (Seq<char>, Symbol)| x.1@) =~= sv.take(taken).map_values(
                |x: (Seq<char>, Symbol)| x.1@,
            ).push(sv[taken].1@));
            taken = taken + 1;
        }
    }
    proof {
        assert(sv.take(taken) =~= sv);
        assert(sort_keyed(by_text(s)) == sv.map_values(f));
        assert(syms_view(out@) =~= sort_keyed(by_text(s)).map_values(|x: (Seq<char>, SymV)| x.1));
    }
    out
}

/// A node of an answer: a symbol's text, its file and line.
#[derive(Debug)]
pub struct CallGraphNode {
    pub symbol: String,
    pub file: String,
    pub line: usize,
}

/// An edge of an answer, between symbol texts.
#[derive(Debug)]
pub struct CallGraphEdge {
    pub from: String,
    pub to: String,
}

/// An answer: nodes, edges, and readable text.
#[derive(Debug)]
pub struct CallGraphResult {
    pub nodes: Vec<CallGraphNode>,
    pub edges: Vec<CallGraphEdge>,
    pub text: String,
}

/// View of a node: symbol text, file, line.
pub type NodeV = (Seq<char>, Seq<char>, usize);

/// View of an edge: from, to.
pub type GEdgeV = (Seq<char>, Seq<char>);

impl View for CallGraphNode {
    type V = NodeV;

    open spec fn view(&self) -> NodeV {
        (self.symbol@, self.file@, self.line)
    }
}

impl View for CallGraphEdge {
    type V = GEdgeV;

    open spec fn view(&self) -> GEdgeV {
        (self.from@, self.to@)
    }
}

/// The views of a list of nodes.
pub open spec fn nodes_view(ns: Seq<CallGraphNode>) -> Seq<NodeV> {
    ns.map_values(|n: CallGraphNode| n@)
}

/// The views of a list of edges.
pub open spec fn gedges_view(es: Seq<CallGraphEdge>) -> Seq<GEdgeV> {
    es.map_values(|e: CallGraphEdge| e@)
}

/// The table entry of a symbol.
pub open spec fn entry_for(t: Seq<EntryV>, s: SymV) -> Option<EntryV> {
    match entry_index(t, s) {
        Some(i) => Some(t[i]),
        None => None,
    }
}

/// The 1-based line of an entry.
pub open spec fn entry_line(e: EntryV) -> usize {
    (e.2.start_row + 1) as usize
}

/// The node of a symbol with its entry.
pub open spec fn node_of(s: SymV, e: EntryV) -> NodeV {
    (disp(s), e.3, entry_line(e))
}

/// `file:line` of an entry.
pub open spec fn loc_text(e: EntryV) -> Seq<char> {
    e.3 + ":"@ + nat_text(entry_line(e) as nat)
}

/// The symbols of table entries named `name`, in table order.
pub open spec fn named_symbols(t: Seq<EntryV>, name: Seq<char>) -> Seq<SymV> {
    t.filter_map(|e: EntryV| if e.0.1 == name { Some(e.0) } else { None })
}

/// The neighbours listed for a symbol: its callers (`up`) or callees, sorted
/// by text.
pub open spec fn neighbours(es: Seq<(SymV, SymV)>, s: SymV, up: bool) -> Seq<SymV> {
    sort_by_text(if up { callers_list(es, s) } else { callees_list(es, s) })
}

/// The text lines of the neighbours that have table entries.
pub open spec fn neighbour_lines(t: Seq<EntryV>, ns: Seq<SymV>, up: bool) -> Seq<char>
    decreases ns.len(),
{
    if ns.len() == 0 {
        Seq::empty()
    } else {
        neighbour_lines(t, ns.drop_last(), up) + match entry_for(t, ns.last()) {
            Some(e) => (if up { "  <- "@ } else { "  -> "@ }) + ns.last().1 + " ("@ + loc_text(e) + ")\n"@,
            None => Seq::empty(),
        }
    }
}

/// The nodes of the neighbours that have table entries.
pub open spec fn neighbour_nodes(t: Seq<EntryV>, ns: Seq<SymV>) -> Seq<NodeV>
    decreases ns.len(),
{
    if ns.len() == 0 {
        Seq::empty()
    } else {
        neighbour_nodes(t, ns.drop_last()) + match entry_for(t, ns.last()) {
            Some(e) => seq![node_of(ns.last(), e)],
            None => Seq::empty(),
        }
    }
}

/// The edges between a symbol and its neighbours that have table entries,
/// from caller to callee.
pub open spec fn neighbour_edges(t: Seq<EntryV>, s: SymV, ns: Seq<SymV>, up: bool) -> Seq<GEdgeV>
    decreases ns.len(),
{
    if ns.len() == 0 {
        Seq::empty()
    } else {
        neighbour_edges(t, s, ns.drop_last(), up) + match entry_for(t, ns.last()) {
            Some(_) => seq![if up { (disp(ns.last()), disp(s)) } else { (disp(s), disp(ns.last())) }],
            None => Seq::empty(),
        }
    }
}

/// The text of a callers or callees answer: for each symbol, its name on a
/// line, then one line per neighbour.
pub open spec fn around_text(t: Seq<EntryV>, es: Seq<(SymV, SymV)>, ss: Seq<SymV>, up: bool) -> Seq<char>
    decreases ss.len(),
{
    if ss.len() == 0 {
        Seq::empty()
    } else {
        around_text(t, es, ss.drop_last(), up) + ss.last().1 + "\n"@ + neighbour_lines(
            t,
            neighbours(es, ss.last(), up),
            up,
        )
    }
}

/// The neighbour nodes of a callers or callees answer.
pub open spec fn around_nodes(t: Seq<EntryV>, es: Seq<(SymV, SymV)>, ss: Seq<SymV>, up: bool) -> Seq<NodeV>
    decreases ss.len(),
{
    if ss.len() == 0 {
        Seq::empty()
    } else {
        around_nodes(t, es, ss.drop_last(), up) + neighbour_nodes(t, neighbours(es, ss.last(), up))
    }
}

/// The edges of a callers or callees answer.
pub open spec fn around_edges(t: Seq<EntryV>, es: Seq<(SymV, SymV)>, ss: Seq<SymV>, up: bool) -> Seq<GEdgeV>
    decreases ss.len(),
{
    if ss.len() == 0 {
        Seq::empty()
    } else {
        around_edges(t, es, ss.drop_last(), up) + neighbour_edges(t, ss.last(), neighbours(es, ss.last(), up), up)
    }
}

/// The nodes of the symbols themselves, for those with entries.
pub open spec fn self_nodes(t: Seq<EntryV>, ss: Seq<SymV>) -> Seq<NodeV> {
    neighbour_nodes(t, ss)
}


/// The text lines of nodes: `  symbol (file:line)`.
pub open spec fn node_lines(ns: Seq<NodeV>) -> Seq<char>
    decreases ns.len(),
{
    if ns.len() == 0 {
        Seq::empty()
    } else {
        node_lines(ns.drop_last()) + "  "@ + ns.last().0 + " ("@ + ns.last().1 + ":"@ + nat_text(ns.last().2 as nat) + ")\n"@
    }
}

/// The entry points of dead-code analysis: exported symbols, `main`, `init`,
/// and types, in table order.
pub open spec fn dead_code_roots(t: Seq<EntryV>) -> Seq<SymV> {
    t.filter_map(
        |e: EntryV| if e.4 || e.0.1 == "main"@ || e.0.1 == "init"@ || e.1 is Type {
            Some(e.0)
        } else {
            None
        },
    )
}

/// Which action a call-graph request asks for.
#[derive(Debug, Clone, Copy, PartialEq, Eq, Structural)]
pub enum CallGraphAction {
    Callers,
    Callees,
    ReachableFrom,
    DeadCode,
}

/// A call-graph request.
#[derive(Debug)]
pub struct CallGraphInput {
    pub action: CallGraphAction,
    pub symbol: Option<String>,
}

/// Why a call-graph request could not be answered.
#[derive(Debug)]
pub enum CallGraphError {
    /// The repository could not be loaded.
    State(String),
    /// No symbol has the requested name.
    SymbolNotFound(String),
    /// The action needs a symbol and none was given; holds the action's name.
    MissingSymbol(String),
}

impl CallGraphError {
    /// The message of the error.
    pub fn message(&self) -> (s: String)
        ensures
            s@ == match self {
                CallGraphError::State(m) => "state error: "@ + m@,
                CallGraphError::SymbolNotFound(m) => "symbol not found: "@ + m@,
                CallGraphError::MissingSymbol(m) => m@ + " action requires a symbol parameter"@,
            },
    {
        let mut s = String::new();
        match self {
            CallGraphError::State(m) => {
                s.append("state error: ");
                s.append(m.as_str());
            },
            CallGraphError::SymbolNotFound(m) => {
                s.append("symbol not found: ");
                s.append(m.as_str());
            },
            CallGraphError::MissingSymbol(m) => {
                s.append(m.as_str());
                s.append(" action requires a symbol parameter");
            },
        }
        s
    }
}

/// The symbols of table entries named `name`, in table order.
pub fn find_symbols_by_name(g: &CallGraph, name: &str) -> (r: Vec<Symbol>)
    ensures
        syms_view(r@) == named_symbols(entries_view(g.symbols@), name@),
{
    let ghost t = entries_view(g.symbols@);
    let ghost f = |e: EntryV| if e.0.1 == name@ { Some(e.0) } else { None };
    let mut out: Vec<Symbol> = Vec::new();
    let mut i: usize = 0;
    while i < g.symbols.len()
        invariant
            i <= g.symbols@.len(),
            t == entries_view(g.symbols@),
            f == (|e: EntryV| if e.0.1 == name@ { Some(e.0) } else { None }),
            syms_view(out@) == t.take(i as int).filter_map(f),
        decreases g.symbols@.len() - i,
    {
        proof {
            assert(t.take(i + 1).drop_last() =~= t.take(i as int));
            assert(t.take(i + 1).last() == g.symbols@[i as int]@);
        }
        if str_eq(g.symbols[i].symbol.name.as_str(), name) {
            let ghost o0 = syms_view(out@);
            out.push(copy_symbol(&g.symbols[i].symbol));
            proof {
                assert(syms_view(out@) =~= o0.push(g.symbols@[i as int].symbol@));
            }
        }
        i = i + 1;
    }
    proof {
        assert(t.take(i as int) =~= t);
    }
    out
}

/// `file:line` of an entry.
fn loc_string(e: &SymbolEntry) -> (s: String)
    requires
        e.span.start_row < usize::MAX,
    ensures
        s@ == loc_text(e@),
{
    let mut s = e.file.clone();
    s.append(":");
    let line = e.span.start_row + 1;
    let d = nat_string(line as u64);
    s.append(d.as_str());
    s
}

/// The node of a symbol with its entry.
fn node_for(s: &Symbol, e: &SymbolEntry) -> (n: CallGraphNode)
    requires
        e.span.start_row < usize::MAX,
    ensures
        n@ == node_of(s@, e@),
{
    CallGraphNode { symbol: s.display(), file: e.file.clone(), line: e.span.start_row + 1 }
}

/// The text line of a node.
fn node_line(n: &CallGraphNode) -> (s: String)
    ensures
        s@ == "  "@ + n.symbol@ + " ("@ + n.file@ + ":"@ + nat_text(n.line as nat) + ")\n"@,
{
    let mut s = String::new();
    s.append("  ");
    s.append(n.symbol.as_str());
    s.append(" (");
    s.append(n.file.as_str());
    s.append(":");
    let d = nat_string(n.line as u64);
    s.append(d.as_str());
    s.append(")\n");
    s
}

/// The table entry of a symbol, with the fact that its row fits.
fn entry_of_fit<'a>(g: &'a CallGraph, s: &Symbol) -> (r: Option<&'a SymbolEntry>)
    requires
        entry_rows_ok(entries_view(g.symbols@)),
    ensures
        match r {
            Some(e) => entry_for(entries_view(g.symbols@), s@) == Some(e@) && e.span.start_row < usize::MAX,
            None => entry_for(entries_view(g.symbols@), s@) is None,
        },
{
    match g.entry_of(s) {
        Some(e) => {
            proof {
                let i = entry_index(entries_view(g.symbols@), s@)->0;
                assert(entries_view(g.symbols@)[i].2.start_row < usize::MAX);
            }
            Some(e)
        },
        None => None,
    }
}



/// The text line of a neighbour with its entry.
fn neighbour_line(c: &Symbol, e: &SymbolEntry, up: bool) -> (s: String)
    requires
        e.span.start_row < usize::MAX,
    ensures
        s@ == (if up { "  <- "@ } else { "  -> "@ }) + c.name@ + " ("@ + loc_text(e@) + ")\n"@,
{
    let mut s = String::new();
    if up {
        s.append("  <- ");
    } else {
        s.append("  -> ");
    }
    s.append(c.name.as_str());
    s.append(" (");
    let loc = loc_string(e);
    s.append(loc.as_str());
    s.append(")\n");
    s
}

/// The edge between a symbol and a neighbour, from caller to callee.
fn edge_for(target: &Symbol, c: &Symbol, up: bool) -> (r: CallGraphEdge)
    ensures
        r@ == if up { (disp(c@), disp(target@)) } else { (disp(target@), disp(c@)) },
{
    if up {
        CallGraphEdge { from: c.display(), to: target.display() }
    } else {
        CallGraphEdge { from: target.display(), to: c.display() }
    }
}

/// Appends the lines, nodes and edges of the neighbours of `target` that have
/// table entries.
fn add_neighbours(
    g: &CallGraph,
    target: &Symbol,
    sorted: &Vec<Symbol>,
    up: bool,
    text: &mut String,
    nodes: &mut Vec<CallGraphNode>,
    edges: &mut Vec<CallGraphEdge>,
)
    requires
        entry_rows_ok(entries_view(g.symbols@)),
    ensures
        final(text)@ == old(text)@ + neighbour_lines(entries_view(g.symbols@), syms_view(sorted@), up),
        nodes_view(final(nodes)@) == nodes_view(old(nodes)@) + neighbour_nodes(entries_view(g.symbols@), syms_view(sorted@)),
        gedges_view(final(edges)@) == gedges_view(old(edges)@) + neighbour_edges(
            entries_view(g.symbols@),
            target@,
            syms_view(sorted@),
            up,
        ),
{
    let ghost t = entries_view(g.symbols@);
    let ghost ns = syms_view(sorted@);
    let ghost text0 = text@;
    let ghost nodes0 = nodes_view(nodes@);
    let ghost edges0 = gedges_view(edges@);
    let mut k: usize = 0;
    while k < sorted.len()
        invariant
            k <= sorted@.len(),
            ns == syms_view(sorted@),
            t == entries_view(g.symbols@),
            entry_rows_ok(t),
            text@ == text0 + neighbour_lines(t, ns.take(k as int), up),
            nodes_view(nodes@) == nodes0 + neighbour_nodes(t, ns.take(k as int)),
            gedges_view(edges@) == edges0 + neighbour_edges(t, target@, ns.take(k as int), up),
        decreases sorted@.len() - k,
    {
        let c = &sorted[k];
        proof {
            assert(ns.take(k + 1).drop_last() =~= ns.take(k as int));
            assert(ns.take(k + 1).last() == c@);
        }
        let ghost tk = ns.take(k as int);
        let ghost tk1 = ns.take(k + 1);
        proof {
            assert(tk1.drop_last() == tk);
            assert(tk1.last() == c@);
        }
        match entry_of_fit(g, c) {
            Some(e) => {
                let line = neighbour_line(c, e, up);
                let ghost tv = text@;
                text.append(line.as_str());
                proof {
                    assert(neighbour_lines(t, tk1, up) == neighbour_lines(t, tk, up) + line@);
                    assert(text@ =~= text0 + neighbour_lines(t, tk1, up));
                }
                let ghost n0 = nodes_view(nodes@);
                nodes.push(node_for(c, e));
                proof {
                    assert(nodes_view(nodes@) =~= n0.push(nodes@.last()@));
                    assert(neighbour_nodes(t, tk1) == neighbour_nodes(t, tk).push(node_of(c@, e@)));
                    assert(nodes_view(nodes@) =~= nodes0 + neighbour_nodes(t, tk1));
                }
                let ghost e0 = gedges_view(edges@);
                edges.push(edge_for(target, c, up));
                proof {
                    assert(gedges_view(edges@) =~= e0.push(edges@.last()@));
                    assert(gedges_view(edges@) =~= edges0 + neighbour_edges(t, target@, tk1, up));
                }
            },
            None => {
                proof {
                    assert(neighbour_lines(t, tk1, up) == neighbour_lines(t, tk, up) + Seq::<char>::empty());
                    assert(text@ =~= text0 + neighbour_lines(t, tk1, up));
                    assert(nodes_view(nodes@) =~= nodes0 + neighbour_nodes(t, tk1));
                    assert(gedges_view(edges@) =~= edges0 + neighbour_edges(t, target@, tk1, up));
                }
            },
        }
        k = k + 1;
    }
    proof {
        assert(ns.take(k as int) =~= ns);
    }
}

/// The callers (`up`) or callees of every symbol named `name`.
fn around(g: &CallGraph, name: &str, up: bool) -> (r: Result<CallGraphResult, CallGraphError>)
    requires
        entry_rows_ok(entries_view(g.symbols@)),
    ensures
        ({
            let t = entries_view(g.symbols@);
            let es = call_edges_view(g.edges@);
            let ss = named_symbols(t, name@);
            match r {
                Ok(res) => ss.len() > 0 && res.text@ == around_text(t, es, ss, up) && nodes_view(res.nodes@)
                    == around_nodes(t, es, ss, up) + self_nodes(t, ss) && gedges_view(res.edges@) == around_edges(
                    t,
                    es,
                    ss,
                    up,
                ),
                Err(e) => ss.len() == 0 && (e matches CallGraphError::SymbolNotFound(n) && n@ == name@),
            }
        }),
{
    let ghost t = entries_view(g.symbols@);
    let ghost es = call_edges_view(g.edges@);
    let targets = find_symbols_by_name(g, name);
    let ghost ss = syms_view(targets@);
    if targets.len() == 0 {
        return Err(CallGraphError::SymbolNotFound(name.to_string()));
    }
    let mut text = String::new();
    let mut nodes: Vec<CallGraphNode> = Vec::new();
    let mut edges: Vec<CallGraphEdge> = Vec::new();
    let mut i: usize = 0;
    while i < targets.len()
        invariant
            i <= targets@.len(),
            ss == syms_view(targets@),
            t == entries_view(g.symbols@),
            es == call_edges_view(g.edges@),
            entry_rows_ok(t),
            text@ == around_text(t, es, ss.take(i as int), up),
            nodes_view(nodes@) == around_nodes(t, es, ss.take(i as int), up),
            gedges_view(edges@) == around_edges(t, es, ss.take(i as int), up),
        decreases targets@.len() - i,
    {
        let target = &targets[i];
        proof {
            assert(ss.take(i + 1).drop_last() =~= ss.take(i as int));
            assert(ss.take(i + 1).last() == target@);
        }
        text.append(target.name.as_str());
        text.append("\n");
        let list = if up {
            g.callers_of(target)
        } else {
            g.callees_of(target)
        };
        let sorted = sort_symbols(list);
        let ghost ns = syms_view(sorted@);
        proof {
            assert(ns == neighbours(es, target@, up));
        }
        add_neighbours(g, target, &sorted, up, &mut text, &mut nodes, &mut edges);
        proof {
            assert(text@ =~= around_text(t, es, ss.take(i + 1), up));
            assert(nodes_view(nodes@) =~= around_nodes(t, es, ss.take(i + 1), up));
            assert(gedges_view(edges@) =~= around_edges(t, es, ss.take(i + 1), up));
        }
        i = i + 1;
    }
    proof {
        assert(ss.take(i as int) =~= ss);
    }
    let ghost before_self = nodes_view(nodes@);
    let mut i: usize = 0;
    while i < targets.len()
        invariant
            i <= targets@.len(),
            ss == syms_view(targets@),
            t == entries_view(g.symbols@),
            entry_rows_ok(t),
            nodes_view(nodes@) == before_self + neighbour_nodes(t, ss.take(i as int)),
        decreases targets@.len() - i,
    {
        proof {
            assert(ss.take(i + 1).drop_last() =~= ss.take(i as int));
            assert(ss.take(i + 1).last() == targets@[i as int]@);
        }
        match entry_of_fit(g, &targets[i]) {
            Some(e) => {
                let ghost n0 = nodes_view(nodes@);
                nodes.push(node_for(&targets[i], e));
                proof {
                    assert(nodes_view(nodes@) =~= n0.push(nodes@.last()@));
                    assert(nodes_view(nodes@) =~= before_self + neighbour_nodes(t, ss.take(i + 1)));
                }
            },
            None => {
                proof {
                    assert(nodes_view(nodes@) =~= before_self + neighbour_nodes(t, ss.take(i + 1)));
                }
            },
        }
        i = i + 1;
    }
    proof {
        assert(ss.take(i as int) =~= ss);
    }
    Ok(CallGraphResult { nodes, edges, text })
}


/// The edges between reachable symbols, as texts, in edge order.
pub open spec fn reach_edges(es: Seq<(SymV, SymV)>, r: Set<SymV>) -> Seq<GEdgeV> {
    es.filter_map(
        |e: (SymV, SymV)| if r.contains(e.0) && r.contains(e.1) {
            Some((disp(e.0), disp(e.1)))
        } else {
            None
        },
    )
}

/// A copy of a list of symbols.
fn copy_symbols(v: &Vec<Symbol>) -> (r: Vec<Symbol>)
    ensures
        syms_view(r@) == syms_view(v@),
{
    let mut r: Vec<Symbol> = Vec::new();
    let mut i: usize = 0;
    while i < v.len()
        invariant
            i <= v@.len(),
            syms_view(r@) == syms_view(v@).take(i as int),
        decreases v@.len() - i,
    {
        let ghost r0 = syms_view(r@);
        let x = copy_symbol(&v[i]);
        let ghost xv = x@;
        r.push(x);
        proof {
            assert(syms_view(r@) =~= r0.push(xv));
            assert(syms_view(v@)[i as int] == v@[i as int]@);
            assert(syms_view(r@) =~= syms_view(v@).take(i + 1));
        }
        i = i + 1;
    }
    proof {
        assert(syms_view(v@).take(i as int) =~= syms_view(v@));
    }
    r
}

/// The nodes of the symbols of a list that have table entries, and their lines.
fn nodes_and_lines(g: &CallGraph, ss: &Vec<Symbol>, text: &mut String) -> (r: Vec<CallGraphNode>)
    requires
        entry_rows_ok(entries_view(g.symbols@)),
    ensures
        nodes_view(r@) == neighbour_nodes(entries_view(g.symbols@), syms_view(ss@)),
        final(text)@ == old(text)@ + node_lines(nodes_view(r@)),
{
    let ghost t = entries_view(g.symbols@);
    let ghost ns = syms_view(ss@);
    let ghost text0 = text@;
    let mut nodes: Vec<CallGraphNode> = Vec::new();
    let mut k: usize = 0;
    while k < ss.len()
        invariant
            k <= ss@.len(),
            ns == syms_view(ss@),
            t == entries_view(g.symbols@),
            entry_rows_ok(t),
            nodes_view(nodes@) == neighbour_nodes(t, ns.take(k as int)),
            text@ == text0 + node_lines(nodes_view(nodes@)),
        decreases ss@.len() - k,
    {
        let ghost tk = ns.take(k as int);
        let ghost tk1 = ns.take(k + 1);
        proof {
            assert(tk1.drop_last() =~= tk);
            assert(tk1.last() == ss@[k as int]@);
        }
        match entry_of_fit(g, &ss[k]) {
            Some(e) => {
                let n = node_for(&ss[k], e);
                let line = node_line(&n);
                let ghost n0 = nodes_view(nodes@);
                let ghost nv = n@;
                text.append(line.as_str());
                nodes.push(n);
                proof {
                    assert(nodes_view(nodes@) =~= n0.push(nv));
                    assert(nodes_view(nodes@).drop_last() =~= n0);
                    assert(text@ =~= text0 + node_lines(nodes_view(nodes@)));
                }
            },
            None => {},
        }
        k = k + 1;
    }
    proof {
        assert(ns.take(k as int) =~= ns);
    }
    nodes
}

/// Everything reachable from the symbols named `name`, sorted by text, with
/// the edges among them.
fn reachable(g: &CallGraph, name: &str) -> (r: Result<CallGraphResult, CallGraphError>)
    requires
        entry_rows_ok(entries_view(g.symbols@)),
    ensures
        ({
            let t = entries_view(g.symbols@);
            let es = call_edges_view(g.edges@);
            let ss = named_symbols(t, name@);
            let rs = reach_set(ss.to_set(), es, t);
            match r {
                Ok(res) => ss.len() > 0 && (exists|l: Seq<SymV>|
                    #![trigger sort_by_text(l)]
                    l.no_duplicates() && l.to_set() == rs && nodes_view(res.nodes@) == neighbour_nodes(
                        t,
                        sort_by_text(l),
                    )) && res.text@ == "Reachable from "@ + name@ + ":\n"@ + node_lines(nodes_view(res.nodes@))
                    && gedges_view(res.edges@) == reach_edges(es, rs),
                Err(e) => ss.len() == 0 && (e matches CallGraphError::SymbolNotFound(n) && n@ == name@),
            }
        }),
{
    let ghost t = entries_view(g.symbols@);
    let ghost es = call_edges_view(g.edges@);
    let targets = find_symbols_by_name(g, name);
    if targets.len() == 0 {
        return Err(CallGraphError::SymbolNotFound(name.to_string()));
    }
    let reach = g.reachable_from(targets.as_slice());
    let ghost rs = reach_set(syms_view(targets@).to_set(), es, t);
    let sorted = sort_symbols(copy_symbols(&reach));
    let mut text = String::new();
    text.append("Reachable from ");
    text.append(name);
    text.append(":\n");
    let nodes = nodes_and_lines(g, &sorted, &mut text);
    let ghost f = |e: (SymV, SymV)| if rs.contains(e.0) && rs.contains(e.1) {
        Some((disp(e.0), disp(e.1)))
    } else {
        None
    };
    let mut edges: Vec<CallGraphEdge> = Vec::new();
    let mut i: usize = 0;
    while i < g.edges.len()
        invariant
            i <= g.edges@.len(),
            es == call_edges_view(g.edges@),
            syms_view(reach@).to_set() == rs,
            f == (|e: (SymV, SymV)| if rs.contains(e.0) && rs.contains(e.1) {
                Some((disp(e.0), disp(e.1)))
            } else {
                None
            }),
            gedges_view(edges@) == es.take(i as int).filter_map(f),
        decreases g.edges@.len() - i,
    {
        proof {
            assert(es.take(i + 1).drop_last() =~= es.take(i as int));
            assert(es.take(i + 1).last() == g.edges@[i as int]@);
        }
        let a = sym_pos(&reach, &g.edges[i].caller);
        let b = sym_pos(&reach, &g.edges[i].callee);
        proof {
            match a {
                Some(p) => {
                    assert(syms_view(reach@)[p as int] == g.edges@[i as int].caller@);
                },
                None => {},
            }
            match b {
                Some(p) => {
                    assert(syms_view(reach@)[p as int] == g.edges@[i as int].callee@);
                },
                None => {},
            }
        }
        if a.is_some() && b.is_some() {
            let ghost e0 = gedges_view(edges@);
            edges.push(CallGraphEdge { from: g.edges[i].caller.display(), to: g.edges[i].callee.display() });
            proof {
                assert(gedges_view(edges@) =~= e0.push(edges@.last()@));
            }
        }
        i = i + 1;
    }
    proof {
        assert(es.take(i as int) =~= es);
        assert(syms_view(targets@) == named_symbols(t, name@));
    }
    Ok(CallGraphResult { nodes, edges, text })
}


/// Inserting keeps a property that every item has.
proof fn lemma_insert_keeps<A>(s: Seq<(Seq<char>, A)>, x: (Seq<char>, A), q: spec_fn((Seq<char>, A)) -> bool)
    requires
        forall|i: int| 0 <= i < s.len() ==> q(#[trigger] s[i]),
        q(x),
    ensures
        forall|i: int| 0 <= i < insert_keyed(s, x).len() ==> q(#[trigger] insert_keyed(s, x)[i]),
    decreases s.len(),
{
    if s.len() > 0 {
        let d = s.drop_last();
        assert forall|i: int| 0 <= i < d.len() implies q(#[trigger] d[i]) by {
            assert(d[i] == s[i]);
        }
        lemma_insert_keeps(d, x, q);
        assert(q(s[s.len() - 1]));
        let r = insert_keyed(s, x);
        if text_lt(x.0, s.last().0) {
            let r0 = insert_keyed(d, x);
            assert forall|i: int| 0 <= i < r.len() implies q(#[trigger] r[i]) by {
                if i < r0.len() {
                    assert(r[i] == r0[i]);
                }
            }
        } else {
            assert forall|i: int| 0 <= i < r.len() implies q(#[trigger] r[i]) by {
                if i < s.len() {
                    assert(r[i] == s[i]);
                }
            }
        }
    }
}

/// Sorting keeps a property that every item has.
proof fn lemma_sort_keeps<A>(s: Seq<(Seq<char>, A)>, q: spec_fn((Seq<char>, A)) -> bool)
    requires
        forall|i: int| 0 <= i < s.len() ==> q(#[trigger] s[i]),
    ensures
        forall|i: int| 0 <= i < sort_keyed(s).len() ==> q(#[trigger] sort_keyed(s)[i]),
    decreases s.len(),
{
    if s.len() > 0 {
        let d = s.drop_last();
        assert forall|i: int| 0 <= i < d.len() implies q(#[trigger] d[i]) by {
            assert(d[i] == s[i]);
        }
        lemma_sort_keeps(d, q);
        assert(q(s[s.len() - 1]));
        lemma_insert_keeps(sort_keyed(d), s.last(), q);
    }
}

/// The unreachable entries of a table, in table order.
pub open spec fn dead_entries(t: Seq<EntryV>, r: Set<SymV>) -> Seq<EntryV> {
    t.filter_map(|x: EntryV| if r.contains(x.0) { None } else { Some(x) })
}

/// Entries of a table all have fitting rows; so do those kept by a filter.
proof fn lemma_dead_rows(t: Seq<EntryV>, r: Set<SymV>)
    requires
        entry_rows_ok(t),
    ensures
        entry_rows_ok(dead_entries(t, r)),
    decreases t.len(),
{
    if t.len() > 0 {
        assert(entry_rows_ok(t.drop_last())) by {
            assert forall|k: int| 0 <= k < t.drop_last().len() implies (#[trigger] t.drop_last()[k]).2.start_row < usize::MAX by {
                assert(t.drop_last()[k] == t[k]);
            }
        }
        lemma_dead_rows(t.drop_last(), r);
        assert(t.last().2.start_row < usize::MAX);
        let d0 = dead_entries(t.drop_last(), r);
        let d = dead_entries(t, r);
        assert forall|k: int| 0 <= k < d.len() implies (#[trigger] d[k]).2.start_row < usize::MAX by {
            if k < d0.len() {
                assert(d[k] == d0[k]);
            }
        }
    }
}

/// The dead-code answer's nodes: the unreachable entries, sorted by their
/// symbols' text.
pub open spec fn dead_nodes(t: Seq<EntryV>, r: Set<SymV>) -> Seq<NodeV> {
    sort_keyed(dead_entries(t, r).map_values(|x: EntryV| (disp(x.0), x))).map_values(
        |y: (Seq<char>, EntryV)| node_of(y.1.0, y.1),
    )
}

/// The symbols not reachable from the exported symbols, `main`, `init` and
/// the types, sorted by text.
fn dead_code(g: &CallGraph) -> (res: CallGraphResult)
    requires
        entry_rows_ok(entries_view(g.symbols@)),
    ensures
        ({
            let t = entries_view(g.symbols@);
            let rs = reach_set(dead_code_roots(t).to_set(), call_edges_view(g.edges@), t);
            &&& nodes_view(res.nodes@) == dead_nodes(t, rs)
            &&& res.edges@.len() == 0
            &&& res.text@ == "Dead code (unreachable symbols):\n"@ + node_lines(nodes_view(res.nodes@))
        }),
{
    let ghost t = entries_view(g.symbols@);
    let ghost fr = |e: EntryV| if e.4 || e.0.1 == "main"@ || e.0.1 == "init"@ || e.1 is Type {
        Some(e.0)
    } else {
        None
    };
    let mut roots: Vec<Symbol> = Vec::new();
    let mut i: usize = 0;
    while i < g.symbols.len()
        invariant
            i <= g.symbols@.len(),
            t == entries_view(g.symbols@),
            fr == (|e: EntryV| if e.4 || e.0.1 == "main"@ || e.0.1 == "init"@ || e.1 is Type {
                Some(e.0)
            } else {
                None
            }),
            syms_view(roots@) == t.take(i as int).filter_map(fr),
        decreases g.symbols@.len() - i,
    {
        proof {
            assert(t.take(i + 1).drop_last() =~= t.take(i as int));
            assert(t.take(i + 1).last() == g.symbols@[i as int]@);
            reveal_strlit("main");
            reveal_strlit("init");
        }
        let e = &g.symbols[i];
        let is_type = match e.kind {
            SymbolKind::Type => true,
            _ => false,
        };
        if e.exported || str_eq(e.symbol.name.as_str(), "main") || str_eq(e.symbol.name.as_str(), "init") || is_type {
            let ghost r0 = syms_view(roots@);
            roots.push(copy_symbol(&e.symbol));
            proof {
                assert(syms_view(roots@) =~= r0.push(e.symbol@));
            }
        }
        i = i + 1;
    }
    proof {
        assert(t.take(i as int) =~= t);
    }
    let dead = g.unreachable_from(roots.as_slice());
    let ghost rs = reach_set(syms_view(roots@).to_set(), call_edges_view(g.edges@), t);
    let ghost dv = dead@.map_values(|e: &SymbolEntry| e@);
    let ghost kf = |x: (Seq<char>, &SymbolEntry)| (x.0, x.1@);
    let mut keyed: Vec<(String, &SymbolEntry)> = Vec::new();
    let mut i: usize = 0;
    while i < dead.len()
        invariant
            i <= dead@.len(),
            dv == dead@.map_values(|e: &SymbolEntry| e@),
            kf == (|x: (Seq<char>, &SymbolEntry)| (x.0, x.1@)),
            keyed_view(keyed@).map_values(kf) == dv.take(i as int).map_values(|x: EntryV| (disp(x.0), x)),
        decreases dead@.len() - i,
    {
        let ghost k0 = keyed_view(keyed@);
        let e: &SymbolEntry = dead[i];
        let d = e.symbol.display();
        let ghost item = (d@, e);
        keyed.push((d, e));
        proof {
            assert(keyed_view(keyed@) =~= k0.push(item));
            assert(dv[i as int] == e@);
            assert(kf(item) == (disp(dv[i as int].0), dv[i as int]));
            assert(keyed_view(keyed@).map_values(kf) =~= k0.map_values(kf).push(kf(item)));
            assert(dv.take(i + 1).map_values(|x: EntryV| (disp(x.0), x)) =~= dv.take(i as int).map_values(
                |x: EntryV| (disp(x.0), x),
            ).push((disp(dv[i as int].0), dv[i as int])));
            assert(keyed_view(keyed@).map_values(kf) =~= dv.take(i + 1).map_values(|x: EntryV| (disp(x.0), x)));
        }
        i = i + 1;
    }
    proof {
        assert(dv.take(i as int) =~= dv);
        assert forall|y: (Seq<char>, &SymbolEntry)| #[trigger] kf(y).0 == y.0 by {}
        lemma_sort_map(keyed_view(keyed@), kf);
        lemma_dead_rows(t, rs);
        let src = dv.map_values(|x: EntryV| (disp(x.0), x));
        let q = |y: (Seq<char>, EntryV)| y.1.2.start_row < usize::MAX;
        assert forall|k: int| 0 <= k < src.len() implies q(#[trigger] src[k]) by {
            assert(src[k].1 == dv[k]);
        }
        lemma_sort_keeps(src, q);
    }
    let sorted = sort_keyed_exec(keyed);
    let ghost sv = keyed_view(sorted@);
    proof {
        assert(sort_keyed(dv.map_values(|x: EntryV| (disp(x.0), x))) == sv.map_values(kf));
    }
    let mut text = String::new();
    text.append("Dead code (unreachable symbols):\n");
    let ghost text0 = text@;
    let mut nodes: Vec<CallGraphNode> = Vec::new();
    let mut k: usize = 0;
    while k < sorted.len()
        invariant
            k <= sorted@.len(),
            sv == keyed_view(sorted@),
            kf == (|x: (Seq<char>, &SymbolEntry)| (x.0, x.1@)),
            forall|j: int| 0 <= j < sv.len() ==> (#[trigger] sv.map_values(kf)[j]).1.2.start_row < usize::MAX,
            nodes_view(nodes@) == sv.take(k as int).map_values(|y: (Seq<char>, &SymbolEntry)| node_of(y.1.symbol@, y.1@)),
            text@ == text0 + node_lines(nodes_view(nodes@)),
        decreases sorted@.len() - k,
    {
        let e: &SymbolEntry = sorted[k].1;
        proof {
            assert(sv.map_values(kf)[k as int].1 == e@);
        }
        let n = node_for(&e.symbol, e);
        let line = node_line(&n);
        let ghost n0 = nodes_view(nodes@);
        let ghost nv = n@;
        text.append(line.as_str());
        nodes.push(n);
        proof {
            assert(nodes_view(nodes@) =~= n0.push(nv));
            assert(nodes_view(nodes@).drop_last() =~= n0);
            assert(nodes_view(nodes@) =~= sv.take(k + 1).map_values(|y: (Seq<char>, &SymbolEntry)| node_of(y.1.symbol@, y.1@)));
        }
        k = k + 1;
    }
    proof {
        assert(sv.take(k as int) =~= sv);
        assert(syms_view(roots@) == dead_code_roots(t));
        assert(nodes_view(nodes@) =~= dead_nodes(t, rs));
    }
    CallGraphResult { nodes, edges: Vec::new(), text }
}

/// Answers a call-graph request over a loaded repository: callers and callees
/// of the symbols with the given name, what they reach, or dead code. The
/// first three need a symbol name.
pub fn handle_call_graph(repo: &Repo, input: &CallGraphInput) -> (r: Result<CallGraphResult, CallGraphError>)
    ensures
        ({
            let fs = repo.spec_files();
            let t = graph_table(fs);
            let es = graph_edges(fs);
            match input.action {
                CallGraphAction::DeadCode => match r {
                    Ok(res) => {
                        let rs = reach_set(dead_code_roots(t).to_set(), es, t);
                        &&& nodes_view(res.nodes@) == dead_nodes(t, rs)
                        &&& res.edges@.len() == 0
                        &&& res.text@ == "Dead code (unreachable symbols):\n"@ + node_lines(nodes_view(res.nodes@))
                    },
                    Err(_) => false,
                },
                _ => match input.symbol {
                    None => r matches Err(CallGraphError::MissingSymbol(m)) && m@ == match input.action {
                        CallGraphAction::Callers => "callers"@,
                        CallGraphAction::Callees => "callees"@,
                        _ => "reachable_from"@,
                    },
                    Some(name) => {
                        let ss = named_symbols(t, name@);
                        match r {
                            Err(e) => ss.len() == 0 && (e matches CallGraphError::SymbolNotFound(n) && n@ == name@),
                            Ok(res) => ss.len() > 0 && match input.action {
                                CallGraphAction::Callers => res.text@ == around_text(t, es, ss, true) && nodes_view(res.nodes@)
                                    == around_nodes(t, es, ss, true) + self_nodes(t, ss) && gedges_view(res.edges@)
                                    == around_edges(t, es, ss, true),
                                CallGraphAction::Callees => res.text@ == around_text(t, es, ss, false) && nodes_view(res.nodes@)
                                    == around_nodes(t, es, ss, false) + self_nodes(t, ss) && gedges_view(res.edges@)
                                    == around_edges(t, es, ss, false),
                                _ => {
                                    let rs = reach_set(ss.to_set(), es, t);
                                    &&& exists|l: Seq<SymV>|
                                        #![trigger sort_by_text(l)]
                                        l.no_duplicates() && l.to_set() == rs && nodes_view(res.nodes@) == neighbour_nodes(
                                            t,
                                            sort_by_text(l),
                                        )
                                    &&& res.text@ == "Reachable from "@ + name@ + ":\n"@ + node_lines(nodes_view(res.nodes@))
                                    &&& gedges_view(res.edges@) == reach_edges(es, rs)
                                },
                            },
                        }
                    },
                },
            }
        }),
{
    let files = repo.files();
    let g = CallGraph::build(repo);
    proof {
        assert(files@ == repo.spec_files());
        lemma_graph_table_rows(repo.spec_files());
    }
    match input.action {
        CallGraphAction::DeadCode => Ok(dead_code(&g)),
        CallGraphAction::Callers => match &input.symbol {
            Some(name) => around(&g, name.as_str(), true),
            None => Err(CallGraphError::MissingSymbol("callers".to_string())),
        },
        CallGraphAction::Callees => match &input.symbol {
            Some(name) => around(&g, name.as_str(), false),
            None => Err(CallGraphError::MissingSymbol("callees".to_string())),
        },
        CallGraphAction::ReachableFrom => match &input.symbol {
            Some(name) => reachable(&g, name.as_str()),
            None => Err(CallGraphError::MissingSymbol("reachable_from".to_string())),
        },
    }
}

} // verus!
