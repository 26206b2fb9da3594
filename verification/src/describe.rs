//! Overviews of a module: its name from `go.mod`, and per package the files
//! and the numbers of declarations.

use vstd::prelude::*;

use crate::ast::{SourceFile, TopLevelDecl};
use crate::graph_tools::{keyed_view, sort_keyed, sort_keyed_exec};
use crate::text::{chars_of, ends_with, str_eq, string_from_chars};

verus! {

/// Whether `c` has the Unicode `White_Space` property, which is what std's
/// `char::is_whitespace` tests: tab to carriage return, space, next line,
/// no-break space, ogham space mark, the spaces U+2000 to U+200A, the line and
/// paragraph separators, narrow no-break space, medium mathematical space and
/// ideographic space.
pub open spec fn spec_is_whitespace(c: char) -> bool {
    let u = c as u32;
    (0x09 <= u <= 0x0D) || u == 0x20 || u == 0x85 || u == 0xA0 || u == 0x1680 || (0x2000 <= u <= 0x200A)
        || u == 0x2028 || u == 0x2029 || u == 0x202F || u == 0x205F || u == 0x3000
}

/// Whether `c` is Unicode whitespace.
fn char_is_whitespace(c: char) -> (b: bool)
    ensures
        b == spec_is_whitespace(c),
{
    let u = c as u32;
    (0x09 <= u && u <= 0x0D) || u == 0x20 || u == 0x85 || u == 0xA0 || u == 0x1680 || (0x2000 <= u && u
        <= 0x200A) || u == 0x2028 || u == 0x2029 || u == 0x202F || u == 0x205F || u == 0x3000
}

/// The text without leading whitespace.
pub open spec fn trim_start(s: Seq<char>) -> Seq<char>
    decreases s.len(),
{
    if s.len() > 0 && spec_is_whitespace(s[0]) {
        trim_start(s.drop_first())
    } else {
        s
    }
}

/// The text without trailing whitespace.
pub open spec fn trim_end(s: Seq<char>) -> Seq<char>
    decreases s.len(),
{
    if s.len() > 0 && spec_is_whitespace(s.last()) {
        trim_end(s.drop_last())
    } else {
        s
    }
}

/// The text without leading and trailing whitespace, as `str::trim`.
pub open spec fn trim(s: Seq<char>) -> Seq<char> {
    trim_end(trim_start(s))
}

/// The position of the first newline, or the length.
pub open spec fn line_end_of(s: Seq<char>) -> int
    decreases s.len(),
{
    if s.len() == 0 {
        0
    } else if s[0] == '\n' {
        0
    } else {
        1 + line_end_of(s.drop_first())
    }
}

/// The end of the first line lies within the text.
pub proof fn lemma_line_end_bounds(s: Seq<char>)
    ensures
        0 <= line_end_of(s) <= s.len(),
    decreases s.len(),
{
    if s.len() > 0 && s[0] != '\n' {
        lemma_line_end_bounds(s.drop_first());
    }
}

/// The first line as `str::lines` gives it: up to the first newline, without
/// a carriage return just before that newline.
pub open spec fn first_line(s: Seq<char>) -> Seq<char> {
    let e = line_end_of(s);
    let raw = s.take(e);
    if e < s.len() && raw.len() > 0 && raw.last() == '\r' {
        raw.drop_last()
    } else {
        raw
    }
}

/// The module path of a `go.mod` text: after `module ` on the first line
/// that starts with it once trimmed, itself trimmed.
pub open spec fn find_module(s: Seq<char>) -> Option<Seq<char>>
    decreases s.len(),
{
    if s.len() == 0 {
        None
    } else {
        let t = trim(first_line(s));
        let e = line_end_of(s);
        if t.len() >= 7 && t.take(7) == "module "@ {
            Some(trim(t.skip(7)))
        } else if e < s.len() {
            proof {
                lemma_line_end_bounds(s);
            }
            find_module(s.skip(e + 1))
        } else {
            None
        }
    }
}

/// The name of a module: from its `go.mod` text when it declares one, else the
/// name of its directory, else `.`.
pub open spec fn module_name_text(go_mod: Option<Seq<char>>, dir_name: Option<Seq<char>>) -> Seq<char> {
    match go_mod {
        Some(c) => match find_module(c) {
            Some(m) => m,
            None => match dir_name {
                Some(d) => d,
                None => "."@,
            },
        },
        None => match dir_name {
            Some(d) => d,
            None => "."@,
        },
    }
}

/// `s[from..to]` without leading and trailing whitespace.
fn trim_range(cs: &Vec<char>, from: usize, to: usize) -> (r: String)
    requires
        from <= to <= cs@.len(),
    ensures
        r@ == trim(cs@.subrange(from as int, to as int)),
{
    let mut a = from;
    proof {
        assert(cs@.subrange(from as int, to as int) =~= cs@.subrange(a as int, to as int));
    }
    while a < to && char_is_whitespace(cs[a])
        invariant
            from <= a <= to <= cs@.len(),
            trim_start(cs@.subrange(from as int, to as int)) == trim_start(cs@.subrange(a as int, to as int)),
        decreases to - a,
    {
        proof {
            assert(cs@.subrange(a as int, to as int)[0] == cs@[a as int]);
            assert(cs@.subrange(a as int, to as int).drop_first() =~= cs@.subrange(a + 1, to as int));
        }
        a = a + 1;
    }
    proof {
        if a < to {
            assert(cs@.subrange(a as int, to as int)[0] == cs@[a as int]);
        }
    }
    let mut b = to;
    while b > a && char_is_whitespace(cs[b - 1])
        invariant
            a <= b <= to <= cs@.len(),
            trim_end(cs@.subrange(a as int, to as int)) == trim_end(cs@.subrange(a as int, b as int)),
        decreases b - a,
    {
        proof {
            assert(cs@.subrange(a as int, b as int).last() == cs@[b - 1]);
            assert(cs@.subrange(a as int, b as int).drop_last() =~= cs@.subrange(a as int, b - 1));
        }
        b = b - 1;
    }
    proof {
        if b > a {
            assert(cs@.subrange(a as int, b as int).last() == cs@[b - 1]);
        }
    }
    string_from_chars(cs, a, b)
}

/// The module path a `go.mod` text declares, if any.
fn find_module_exec(text: &str) -> (r: Option<String>)
    ensures
        match r {
            Some(m) => find_module(text@) == Some(m@),
            None => find_module(text@) is None,
        },
{
    let cs = chars_of(text);
    let n = cs.len();
    let mut start: usize = 0;
    proof {
        assert(cs@.skip(0) =~= cs@);
    }
    while start < n
        invariant
            start <= n == cs@.len(),
            cs@ == text@,
            find_module(text@) == find_module(cs@.skip(start as int)),
        decreases n - start,
    {
        let ghost s = cs@.skip(start as int);
        let mut e = start;
        while e < n && cs[e] != '\n'
            invariant
                start <= e <= n == cs@.len(),
                s == cs@.skip(start as int),
                line_end_of(s) == (e - start) + line_end_of(cs@.skip(e as int)),
                forall|j: int| start <= j < e ==> cs@[j] != '\n',
            decreases n - e,
        {
            proof {
                assert(cs@.skip(e as int)[0] == cs@[e as int]);
                assert(cs@.skip(e as int).drop_first() =~= cs@.skip(e + 1));
            }
            e = e + 1;
        }
        proof {
            if e < n {
                assert(cs@.skip(e as int)[0] == cs@[e as int]);
            }
            assert(line_end_of(s) == e - start);
            assert(s.take(e - start) =~= cs@.subrange(start as int, e as int));
        }
        let mut line_end = e;
        if e < n && e > start && cs[e - 1] == '\r' {
            line_end = e - 1;
        }
        proof {
            assert(first_line(s) =~= cs@.subrange(start as int, line_end as int));
        }
        let t = trim_range(&cs, start, line_end);
        let tc = chars_of(t.as_str());
        let is_module = tc.len() >= 7 && tc[0] == 'm' && tc[1] == 'o' && tc[2] == 'd' && tc[3] == 'u'
            && tc[4] == 'l' && tc[5] == 'e' && tc[6] == ' ';
        proof {
            reveal_strlit("module ");
            let m = "module "@;
            if tc@.len() >= 7 {
                if is_module {
                    assert(tc@.take(7) =~= m);
                } else if tc@.take(7) == m {
                    assert(tc@.take(7)[0] == m[0]);
                    assert(tc@.take(7)[1] == m[1]);
                    assert(tc@.take(7)[2] == m[2]);
                    assert(tc@.take(7)[3] == m[3]);
                    assert(tc@.take(7)[4] == m[4]);
                    assert(tc@.take(7)[5] == m[5]);
                    assert(tc@.take(7)[6] == m[6]);
                }
            }
        }
        if is_module {
            let m = trim_range(&tc, 7, tc.len());
            proof {
                assert(tc@.subrange(7, tc@.len() as int) =~= t@.skip(7));
            }
            return Some(m);
        }
        if e >= n {
            return None;
        }
        proof {
            assert(s.skip(e - start + 1) =~= cs@.skip(e + 1));
        }
        start = e + 1;
    }
    proof {
        assert(cs@.skip(start as int) =~= Seq::<char>::empty());
    }
    None
}

/// The name of a module: from its `go.mod` text when it declares one, else the
/// name of its directory, else `.`.
pub fn module_name(go_mod: Option<&str>, dir_name: Option<&str>) -> (r: String)
    ensures
        r@ == module_name_text(
            match go_mod {
                Some(c) => Some(c@),
                None => None,
            },
            match dir_name {
                Some(d) => Some(d@),
                None => None,
            },
        ),
{
    match go_mod {
        Some(c) => match find_module_exec(c) {
            Some(m) => {
                return m;
            },
            None => {},
        },
        None => {},
    }
    match dir_name {
        Some(d) => d.to_string(),
        None => ".".to_string(),
    }
}


/// The numbers of types, functions, methods and constants a file declares.
pub open spec fn decl_counts(ds: Seq<TopLevelDecl>) -> (nat, nat, nat, nat)
    decreases ds.len(),
{
    if ds.len() == 0 {
        (0, 0, 0, 0)
    } else {
        let c = decl_counts(ds.drop_last());
        match ds.last() {
            TopLevelDecl::Func(_) => (c.0, c.1 + 1, c.2, c.3),
            TopLevelDecl::Method(_) => (c.0, c.1, c.2 + 1, c.3),
            TopLevelDecl::Type(specs) => (c.0 + specs@.len(), c.1, c.2, c.3),
            TopLevelDecl::Const(specs) => (c.0, c.1, c.2, c.3 + const_names(specs@)),
            TopLevelDecl::Var(_) => c,
        }
    }
}

/// The number of names `const` specifications declare.
pub open spec fn const_names(specs: Seq<crate::ast::ConstSpec>) -> nat
    decreases specs.len(),
{
    if specs.len() == 0 {
        0
    } else {
        const_names(specs.drop_last()) + specs.last().names@.len()
    }
}

/// The numbers of types, functions, methods and constants several files declare.
pub open spec fn files_counts(fs: Seq<(String, &SourceFile)>) -> (nat, nat, nat, nat)
    decreases fs.len(),
{
    if fs.len() == 0 {
        (0, 0, 0, 0)
    } else {
        let a = files_counts(fs.drop_last());
        let b = decl_counts(fs.last().1.decls@);
        (a.0 + b.0, a.1 + b.1, a.2 + b.2, a.3 + b.3)
    }
}

/// The package name of several files: the first one that is not empty.
pub open spec fn first_package(fs: Seq<(String, &SourceFile)>) -> Seq<char>
    decreases fs.len(),
{
    if fs.len() == 0 {
        Seq::empty()
    } else {
        let p = first_package(fs.drop_last());
        if p.len() == 0 {
            fs.last().1.package.name@
        } else {
            p
        }
    }
}

/// A package of a module: its name, import path, directory, file names and
/// the numbers of its declarations.
#[derive(Debug)]
pub struct PackageOverview {
    pub name: String,
    pub import_path: String,
    pub path: String,
    pub files: Vec<String>,
    pub types: usize,
    pub functions: usize,
    pub methods: usize,
    pub constants: usize,
    pub doc: Option<String>,
}

/// A module and its packages.
#[derive(Debug)]
pub struct ModuleOverview {
    pub module: String,
    pub path: String,
    pub packages: Vec<PackageOverview>,
}

/// Whether the counts of several files fit in machine integers.
pub open spec fn counts_fit(fs: Seq<(String, &SourceFile)>) -> bool {
    let c = files_counts(fs);
    c.0 <= usize::MAX && c.1 <= usize::MAX && c.2 <= usize::MAX && c.3 <= usize::MAX
}

/// The counts of one file's declarations, added to running counts.
fn add_counts(ds: &Vec<TopLevelDecl>, c: (usize, usize, usize, usize), Ghost(total): Ghost<(nat, nat, nat, nat)>) -> (r: (usize, usize, usize, usize))
    requires
        c.0 + decl_counts(ds@).0 <= total.0,
        c.1 + decl_counts(ds@).1 <= total.1,
        c.2 + decl_counts(ds@).2 <= total.2,
        c.3 + decl_counts(ds@).3 <= total.3,
        total.0 <= usize::MAX,
        total.1 <= usize::MAX,
        total.2 <= usize::MAX,
        total.3 <= usize::MAX,
    ensures
        r.0 == c.0 + decl_counts(ds@).0,
        r.1 == c.1 + decl_counts(ds@).1,
        r.2 == c.2 + decl_counts(ds@).2,
        r.3 == c.3 + decl_counts(ds@).3,
{
    let mut r = c;
    let mut j: usize = 0;
    while j < ds.len()
        invariant
            j <= ds@.len(),
            c.0 + decl_counts(ds@).0 <= total.0 <= usize::MAX,
            c.1 + decl_counts(ds@).1 <= total.1 <= usize::MAX,
            c.2 + decl_counts(ds@).2 <= total.2 <= usize::MAX,
            c.3 + decl_counts(ds@).3 <= total.3 <= usize::MAX,
            r.0 == c.0 + decl_counts(ds@.take(j as int)).0,
            r.1 == c.1 + decl_counts(ds@.take(j as int)).1,
            r.2 == c.2 + decl_counts(ds@.take(j as int)).2,
            r.3 == c.3 + decl_counts(ds@.take(j as int)).3,
        decreases ds@.len() - j,
    {
        proof {
            assert(ds@.take(j + 1).drop_last() =~= ds@.take(j as int));
            assert(ds@.take(j + 1).last() == ds@[j as int]);
            lemma_counts_prefix(ds@, j + 1);
        }
        match &ds[j] {
            TopLevelDecl::Func(_) => {
                r = (r.0, r.1 + 1, r.2, r.3);
            },
            TopLevelDecl::Method(_) => {
                r = (r.0, r.1, r.2 + 1, r.3);
            },
            TopLevelDecl::Type(specs) => {
                r = (r.0 + specs.len(), r.1, r.2, r.3);
            },
            TopLevelDecl::Const(specs) => {
                let mut k: usize = 0;
                let mut n: usize = r.3;
                while k < specs.len()
                    invariant
                        k <= specs@.len(),
                        n == r.3 + const_names(specs@.take(k as int)),
                        r.3 + const_names(specs@) <= total.3 <= usize::MAX,
                    decreases specs@.len() - k,
                {
                    proof {
                        assert(specs@.take(k + 1).drop_last() =~= specs@.take(k as int));
                        assert(specs@.take(k + 1).last() == specs@[k as int]);
                        lemma_const_names_prefix(specs@, k + 1);
                    }
                    n = n + specs[k].names.len();
                    k = k + 1;
                }
                proof {
                    assert(specs@.take(k as int) =~= specs@);
                }
                r = (r.0, r.1, r.2, n);
            },
            TopLevelDecl::Var(_) => {},
        }
        j = j + 1;
    }
    proof {
        assert(ds@.take(j as int) =~= ds@);
    }
    r
}

/// Counts only grow along a file's declarations.
proof fn lemma_counts_prefix(ds: Seq<TopLevelDecl>, k: int)
    requires
        0 <= k <= ds.len(),
    ensures
        decl_counts(ds.take(k)).0 <= decl_counts(ds).0,
        decl_counts(ds.take(k)).1 <= decl_counts(ds).1,
        decl_counts(ds.take(k)).2 <= decl_counts(ds).2,
        decl_counts(ds.take(k)).3 <= decl_counts(ds).3,
    decreases ds.len(),
{
    if k < ds.len() {
        assert(ds.drop_last().take(k) =~= ds.take(k));
        lemma_counts_prefix(ds.drop_last(), k);
    } else {
        assert(ds.take(k) =~= ds);
    }
}

/// Name counts only grow along `const` specifications.
proof fn lemma_const_names_prefix(specs: Seq<crate::ast::ConstSpec>, k: int)
    requires
        0 <= k <= specs.len(),
    ensures
        const_names(specs.take(k)) <= const_names(specs),
    decreases specs.len(),
{
    if k < specs.len() {
        assert(specs.drop_last().take(k) =~= specs.take(k));
        lemma_const_names_prefix(specs.drop_last(), k);
    } else {
        assert(specs.take(k) =~= specs);
    }
}

/// File counts only grow along the files.
proof fn lemma_files_counts_prefix(fs: Seq<(String, &SourceFile)>, k: int)
    requires
        0 <= k <= fs.len(),
    ensures
        files_counts(fs.take(k)).0 <= files_counts(fs).0,
        files_counts(fs.take(k)).1 <= files_counts(fs).1,
        files_counts(fs.take(k)).2 <= files_counts(fs).2,
        files_counts(fs.take(k)).3 <= files_counts(fs).3,
    decreases fs.len(),
{
    if k < fs.len() {
        assert(fs.drop_last().take(k) =~= fs.take(k));
        lemma_files_counts_prefix(fs.drop_last(), k);
    } else {
        assert(fs.take(k) =~= fs);
    }
}

/// The names of files, sorted.
pub open spec fn sorted_names(fs: Seq<(String, &SourceFile)>) -> Seq<Seq<char>> {
    sort_keyed(fs.map_values(|x: (String, &SourceFile)| (x.0@, ()))).map_values(|y: (Seq<char>, ())| y.0)
}

/// The import path of a package at `rel` below the module root.
pub open spec fn import_path_text(module: Seq<char>, rel: Seq<char>) -> Seq<char> {
    if rel.len() == 0 {
        module
    } else {
        module + "/"@ + rel
    }
}

/// The overview of a package from its parsed files (with their names): the
/// first non-empty package name, the import path, the sorted file names and
/// the numbers of types, functions, methods and constants.
pub fn build_package_overview(dir: &str, rel: &str, module: &str, files: &[(String, &SourceFile)]) -> (p: PackageOverview)
    requires
        counts_fit(files@),
    ensures
        p.name@ == first_package(files@),
        p.import_path@ == import_path_text(module@, rel@),
        p.path@ == dir@,
        p.files@.map_values(|s: String| s@) == sorted_names(files@),
        p.types == files_counts(files@).0,
        p.functions == files_counts(files@).1,
        p.methods == files_counts(files@).2,
        p.constants == files_counts(files@).3,
        p.doc is None,
{
    let ghost total = files_counts(files@);
    let mut name = String::new();
    let mut c: (usize, usize, usize, usize) = (0, 0, 0, 0);
    let mut keyed: Vec<(String, ())> = Vec::new();
    let mut i: usize = 0;
    while i < files.len()
        invariant
            i <= files@.len(),
            total == files_counts(files@),
            counts_fit(files@),
            name@ == first_package(files@.take(i as int)),
            c.0 == files_counts(files@.take(i as int)).0,
            c.1 == files_counts(files@.take(i as int)).1,
            c.2 == files_counts(files@.take(i as int)).2,
            c.3 == files_counts(files@.take(i as int)).3,
            keyed_view(keyed@) == files@.take(i as int).map_values(|x: (String, &SourceFile)| (x.0@, ())),
        decreases files@.len() - i,
    {
        proof {
            assert(files@.take(i + 1).drop_last() =~= files@.take(i as int));
            assert(files@.take(i + 1).last() == files@[i as int]);
            lemma_files_counts_prefix(files@, i + 1);
        }
        let sf: &SourceFile = files[i].1;
        if name.as_str().is_empty() {
            name = sf.package.name.clone();
        }
        c = add_counts(&sf.decls, c, Ghost(total));
        let ghost k0 = keyed_view(keyed@);
        keyed.push((files[i].0.clone(), ()));
        proof {
            assert(keyed_view(keyed@) =~= k0.push((files@[i as int].0@, ())));
            assert(files@.take(i + 1).map_values(|x: (String, &SourceFile)| (x.0@, ())) =~= files@.take(i as int).map_values(
                |x: (String, &SourceFile)| (x.0@, ()),
            ).push((files@[i as int].0@, ())));
        }
        i = i + 1;
    }
    proof {
        assert(files@.take(i as int) =~= files@);
    }
    let sorted = sort_keyed_exec(keyed);
    let mut names: Vec<String> = Vec::new();
    let mut k: usize = 0;
    while k < sorted.len()
        invariant
            k <= sorted@.len(),
            names@.map_values(|s: String| s@) == keyed_view(sorted@).take(k as int).map_values(|y: (Seq<char>, ())| y.0),
        decreases sorted@.len() - k,
    {
        let ghost n0 = names@.map_values(|s: String| s@);
        names.push(sorted[k].0.clone());
        proof {
            assert(names@.map_values(|s: String| s@) =~= n0.push(sorted@[k as int].0@));
            assert(keyed_view(sorted@).take(k + 1).map_values(|y: (Seq<char>, ())| y.0) =~= keyed_view(sorted@).take(
                k as int,
            ).map_values(|y: (Seq<char>, ())| y.0).push(keyed_view(sorted@)[k as int].0));
        }
        k = k + 1;
    }
    proof {
        assert(keyed_view(sorted@).take(k as int) =~= keyed_view(sorted@));
    }
    let import_path = if rel.is_empty() {
        module.to_string()
    } else {
        let mut s = module.to_string();
        s.append("/");
        s.append(rel);
        s
    };
    PackageOverview {
        name,
        import_path,
        path: dir.to_string(),
        files: names,
        types: c.0,
        functions: c.1,
        methods: c.2,
        constants: c.3,
        doc: None,
    }
}

/// Whether the counts of several files fit in machine integers.
pub fn package_counts_fit(files: &[(String, &SourceFile)]) -> (b: bool)
    ensures
        b == counts_fit(files@),
{
    let mut c: (usize, usize, usize, usize) = (0, 0, 0, 0);
    let mut i: usize = 0;
    while i < files.len()
        invariant
            i <= files@.len(),
            c.0 == files_counts(files@.take(i as int)).0,
            c.1 == files_counts(files@.take(i as int)).1,
            c.2 == files_counts(files@.take(i as int)).2,
            c.3 == files_counts(files@.take(i as int)).3,
        decreases files@.len() - i,
    {
        proof {
            assert(files@.take(i + 1).drop_last() =~= files@.take(i as int));
            assert(files@.take(i + 1).last() == files@[i as int]);
            lemma_files_counts_prefix(files@, i + 1);
        }
        match file_counts(&files[i].1.decls) {
            None => {
                return false;
            },
            Some(d) => {
                let a0 = c.0.checked_add(d.0);
                let a1 = c.1.checked_add(d.1);
                let a2 = c.2.checked_add(d.2);
                let a3 = c.3.checked_add(d.3);
                match (a0, a1, a2, a3) {
                    (Some(n0), Some(n1), Some(n2), Some(n3)) => {
                        c = (n0, n1, n2, n3);
                    },
                    _ => {
                        return false;
                    },
                }
            },
        }
        i = i + 1;
    }
    proof {
        assert(files@.take(i as int) =~= files@);
    }
    true
}

/// The counts of one file's declarations, or `None` when one of them exceeds
/// `usize::MAX`.
fn file_counts(ds: &Vec<TopLevelDecl>) -> (r: Option<(usize, usize, usize, usize)>)
    ensures
        match r {
            Some(c) => c.0 == decl_counts(ds@).0 && c.1 == decl_counts(ds@).1 && c.2 == decl_counts(ds@).2
                && c.3 == decl_counts(ds@).3,
            None => decl_counts(ds@).0 > usize::MAX || decl_counts(ds@).3 > usize::MAX,
        },
{
    let mut r: (usize, usize, usize, usize) = (0, 0, 0, 0);
    let mut j: usize = 0;
    while j < ds.len()
        invariant
            j <= ds@.len(),
            r.0 == decl_counts(ds@.take(j as int)).0,
            r.1 == decl_counts(ds@.take(j as int)).1,
            r.2 == decl_counts(ds@.take(j as int)).2,
            r.3 == decl_counts(ds@.take(j as int)).3,
            r.1 <= j && r.2 <= j,
        decreases ds@.len() - j,
    {
        proof {
            assert(ds@.take(j + 1).drop_last() =~= ds@.take(j as int));
            assert(ds@.take(j + 1).last() == ds@[j as int]);
            lemma_counts_prefix(ds@, j + 1);
        }
        match &ds[j] {
            TopLevelDecl::Func(_) => {
                r = (r.0, r.1 + 1, r.2, r.3);
            },
            TopLevelDecl::Method(_) => {
                r = (r.0, r.1, r.2 + 1, r.3);
            },
            TopLevelDecl::Type(specs) => {
                match r.0.checked_add(specs.len()) {
                    Some(n) => {
                        r = (n, r.1, r.2, r.3);
                    },
                    None => {
                        return None;
                    },
                }
            },
            TopLevelDecl::Const(specs) => {
                let mut k: usize = 0;
                let mut n: usize = r.3;
                while k < specs.len()
                    invariant
                        k <= specs@.len(),
                        n == r.3 + const_names(specs@.take(k as int)),
                        r.3 + const_names(specs@) <= decl_counts(ds@).3,
                    decreases specs@.len() - k,
                {
                    proof {
                        assert(specs@.take(k + 1).drop_last() =~= specs@.take(k as int));
                        assert(specs@.take(k + 1).last() == specs@[k as int]);
                        lemma_const_names_prefix(specs@, k + 1);
                    }
                    match n.checked_add(specs[k].names.len()) {
                        Some(m) => {
                            n = m;
                        },
                        None => {
                            return None;
                        },
                    }
                    k = k + 1;
                }
                proof {
                    assert(specs@.take(k as int) =~= specs@);
                }
                r = (r.0, r.1, r.2, n);
            },
            TopLevelDecl::Var(_) => {},
        }
        j = j + 1;
    }
    proof {
        assert(ds@.take(j as int) =~= ds@);
    }
    Some(r)
}

/// Packages sorted by import path; packages with the same import path keep
/// their order.
pub open spec fn sorted_packages(ps: Seq<PackageOverview>) -> Seq<PackageOverview> {
    sort_keyed(ps.map_values(|p: PackageOverview| (p.import_path@, p))).map_values(
        |y: (Seq<char>, PackageOverview)| y.1,
    )
}

/// Packages sorted by import path, stably.
pub fn sort_packages(ps: Vec<PackageOverview>) -> (r: Vec<PackageOverview>)
    ensures
        r@ == sorted_packages(ps@),
{
    let ghost pv = ps@;
    let mut ps = ps;
    let mut keyed: Vec<(String, PackageOverview)> = Vec::new();
    let ghost mut done: int = 0;
    while ps.len() > 0
        invariant
            0 <= done <= pv.len(),
            ps@ == pv.skip(done),
            keyed_view(keyed@) == pv.take(done).map_values(|p: PackageOverview| (p.import_path@, p)),
        decreases ps.len(),
    {
        let ghost before = ps@;
        let p = ps.remove(0);
        proof {
            assert(before[0] == pv[done]);
            assert(ps@ =~= pv.skip(done + 1));
        }
        let k = p.import_path.clone();
        let ghost k0 = keyed_view(keyed@);
        let ghost item = (k@, p);
        keyed.push((k, p));
        proof {
            assert(keyed_view(keyed@) =~= k0.push(item));
            assert(pv.take(done + 1).map_values(|p: PackageOverview| (p.import_path@, p)) =~= pv.take(done).map_values(
                |p: PackageOverview| (p.import_path@, p),
            ).push((pv[done].import_path@, pv[done])));
            done = done + 1;
        }
    }
    proof {
        assert(pv.take(done) =~= pv);
    }
    let sorted = sort_keyed_exec(keyed);
    let ghost sv = keyed_view(sorted@);
    let mut out: Vec<PackageOverview> = Vec::new();
    let mut sorted = sorted;
    let ghost mut taken: int = 0;
    proof {
        assert(sv.skip(0) =~= sv);
        lemma_sort_len(pv.map_values(|p: PackageOverview| (p.import_path@, p)));
    }
    while sorted.len() > 0
        invariant
            0 <= taken <= sv.len(),
            keyed_view(sorted@) == sv.skip(taken),
            out@ == sv.take(taken).map_values(|y: (Seq<char>, PackageOverview)| y.1),
        decreases sorted.len(),
    {
        let ghost ss = sorted@;
        proof {
            assert(keyed_view(ss).len() == ss.len());
            assert(taken < sv.len());
            assert(keyed_view(ss)[0] == sv[taken]);
        }
        let (_, p) = sorted.remove(0);
        proof {
            assert(p == ss[0].1);
            assert(sorted@ == ss.remove(0));
            assert forall|k: int| 0 <= k < keyed_view(sorted@).len() implies keyed_view(sorted@)[k] == sv.skip(taken + 1)[k] by {
                assert(sorted@[k] == ss[k + 1]);
                assert(keyed_view(ss)[k + 1] == sv.skip(taken)[k + 1]);
                assert(sv.skip(taken)[k + 1] == sv[taken + k + 1]);
            }
            assert(keyed_view(sorted@) =~= sv.skip(taken + 1));
        }
        out.push(p);
        proof {
            assert(sv.take(taken + 1).map_values(|y: (Seq<char>, PackageOverview)| y.1) =~= sv.take(
                taken,
            ).map_values(|y: (Seq<char>, PackageOverview)| y.1).push(sv[taken].1));
            taken = taken + 1;
        }
    }
    proof {
        assert(sv.take(taken) =~= sv);
    }
    out
}

/// Sorting keeps the number of items.
pub proof fn lemma_sort_len<A>(s: Seq<(Seq<char>, A)>)
    ensures
        sort_keyed(s).len() == s.len(),
    decreases s.len(),
{
    if s.len() > 0 {
        lemma_sort_len(s.drop_last());
        lemma_insert_len(sort_keyed(s.drop_last()), s.last());
    }
}

/// Inserting adds one item.
pub proof fn lemma_insert_len<A>(s: Seq<(Seq<char>, A)>, x: (Seq<char>, A))
    ensures
        crate::graph_tools::insert_keyed(s, x).len() == s.len() + 1,
    decreases s.len(),
{
    if s.len() > 0 {
        lemma_insert_len(s.drop_last(), x);
    }
}

/// A request to describe one file.
#[derive(Debug)]
pub struct DescribeFileInput {
    pub path: String,
    pub include_docs: bool,
}

/// A request to describe the module, with an optional limit on how deep
/// directories are scanned.
#[derive(Debug)]
pub struct DescribeModuleInput {
    pub depth: Option<usize>,
    pub include_docs: bool,
}

/// Why a description failed.
#[derive(Debug)]
pub enum DescribeError {
    State(String),
    FileNotFound { path: String, message: String },
    ParseFailed { path: String, message: String },
}

/// The message of a description error.
pub open spec fn describe_error_text(e: DescribeError) -> Seq<char> {
    match e {
        DescribeError::State(m) => "state error: "@ + m@,
        DescribeError::FileNotFound { path, message } => "file not found at "@ + path@ + ": "@ + message@,
        DescribeError::ParseFailed { path, message } => "failed to parse "@ + path@ + ": "@ + message@,
    }
}

impl DescribeError {
    /// The message of the error.
    pub fn message(&self) -> (s: String)
        ensures
            s@ == describe_error_text(*self),
    {
        let mut s = String::new();
        match self {
            DescribeError::State(m) => {
                s.append("state error: ");
                s.append(m.as_str());
            },
            DescribeError::FileNotFound { path, message } => {
                s.append("file not found at ");
                s.append(path.as_str());
                s.append(": ");
                s.append(message.as_str());
            },
            DescribeError::ParseFailed { path, message } => {
                s.append("failed to parse ");
                s.append(path.as_str());
                s.append(": ");
                s.append(message.as_str());
            },
        }
        s
    }
}

/// The error of a description when the repository could not be loaded.
pub fn state_error(e: &crate::state::StateError) -> (d: DescribeError)
    ensures
        d matches DescribeError::State(m) && m@ == crate::state::state_error_text(*e),
{
    DescribeError::State(e.message())
}

/// `p` taken relative to `root` unless it is absolute, as `Path::join` does.
pub open spec fn joined_path(root: Seq<char>, p: Seq<char>) -> Seq<char> {
    if p.len() > 0 && p[0] == '/' {
        p
    } else if root.len() == 0 {
        p
    } else if root.last() == '/' {
        root + p
    } else {
        root + "/"@ + p
    }
}

/// The path of the file a request names: the request's path, relative to
/// the repository root unless it is absolute.
pub fn describe_target_path(root: &str, path: &str) -> (r: String)
    ensures
        r@ == joined_path(root@, path@),
{
    let p = chars_of(path);
    if p.len() > 0 && p[0] == '/' {
        return path.to_string();
    }
    let rc = chars_of(root);
    if rc.len() == 0 {
        return path.to_string();
    }
    let mut s = root.to_string();
    if rc[rc.len() - 1] != '/' {
        s.append("/");
    }
    s.append(path);
    s
}

/// Whether a scan at `current_depth` goes on into subdirectories.
pub fn scan_descends(current_depth: usize, max_depth: Option<usize>) -> (b: bool)
    ensures
        b == match max_depth {
            Some(m) => current_depth < m,
            None => true,
        },
{
    match max_depth {
        Some(m) => current_depth < m,
        None => true,
    }
}

/// The directories a scan skips: hidden ones, `vendor` and `node_modules`.
pub open spec fn dir_skipped(name: Seq<char>) -> bool {
    (name.len() > 0 && name[0] == '.') || name == "vendor"@ || name == "node_modules"@
}

/// Whether a scan enters the directory called `name`.
pub fn scans_dir(name: &str) -> (b: bool)
    ensures
        b == !dir_skipped(name@),
{
    let cs = chars_of(name);
    if cs.len() > 0 && cs[0] == '.' {
        return false;
    }
    !(str_eq(name, "vendor") || str_eq(name, "node_modules"))
}

/// Whether a file name has the extension `go` (as `Path::extension` gives it:
/// the part after the last dot, when that dot does not begin the name).
pub open spec fn is_go_name(name: Seq<char>) -> bool {
    name.len() >= 4 && name.skip(name.len() - 3) == ".go"@
}

/// Whether the file called `name` is a Go source file.
pub fn is_go_file_name(name: &str) -> (b: bool)
    ensures
        b == is_go_name(name@),
{
    let r = ends_with(name, ".go");
    let n = chars_of(name).len();
    proof {
        reveal_strlit(".go");
        if name@.len() >= 3 {
            assert(name@.subrange(name@.len() - 3, name@.len() as int) =~= name@.skip(name@.len() - 3));
        }
    }
    r && n >= 4
}

/// The overview of the module: its name, root, and the packages the scan
/// found, sorted by import path.
pub fn handle_describe_module(repo: &crate::repo::Repo, module_name: String, packages: Vec<PackageOverview>) -> (o: ModuleOverview)
    ensures
        o.module == module_name,
        o.path@ == repo.spec_root(),
        o.packages@ == sorted_packages(packages@),
{
    let root = repo.root().to_string();
    let packages = sort_packages(packages);
    ModuleOverview { module: module_name, path: root, packages }
}

} // verus!
