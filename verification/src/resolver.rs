//! Import resolution: which local name stands for which import path in a file.

use vstd::prelude::*;

use crate::ast::{ImportAlias, ImportSpec, SourceFile};
use crate::leaf::{literal_value, StringLit};
use crate::text::{last_segment, last_segment_of, str_eq};

verus! {

/// A string literal whose value can be read: its first and last characters
/// are ASCII, as the quotes of every parsed literal are.
pub open spec fn literal_ok(lit: StringLit) -> bool {
    lit.raw@.len() > 0 ==> (lit.raw@[0] as u32) < 0x80 && (lit.raw@.last() as u32) < 0x80
}

/// Every import path of the file is a readable literal.
pub open spec fn imports_ok(sf: SourceFile) -> bool {
    forall|i: int| 0 <= i < sf.imports@.len() ==> literal_ok(#[trigger] sf.imports@[i].path)
}

impl SourceFile {
    /// Whether every import path of the file is a readable literal.
    pub fn imports_ok(&self) -> (b: bool)
        ensures
            b == imports_ok(*self),
    {
        let mut i: usize = 0;
        while i < self.imports.len()
            invariant
                i <= self.imports@.len(),
                forall|k: int| 0 <= k < i ==> literal_ok(#[trigger] self.imports@[k].path),
            decreases self.imports.len() - i,
        {
            let raw = self.imports[i].path.raw.as_str();
            let n = vstd::string::StrSliceExecFns::unicode_len(raw);
            if n > 0 {
                let first = vstd::string::StrSliceExecFns::get_char(raw, 0);
                let last = vstd::string::StrSliceExecFns::get_char(raw, n - 1);
                if (first as u32) >= 0x80 || (last as u32) >= 0x80 {
                    return false;
                }
            }
            i = i + 1;
        }
        true
    }
}

/// The local name an import introduces: `.` for dot imports, the alias for
/// named imports, the last path component otherwise; none for blank imports.
pub open spec fn alias_key(imp: ImportSpec) -> Option<Seq<char>> {
    match imp.alias {
        ImportAlias::Blank => None,
        ImportAlias::Dot => Some("."@),
        ImportAlias::Named(id) => Some(id.name@),
        ImportAlias::Implicit => Some(last_segment(literal_value(imp.path.raw@), '/')),
    }
}

/// The alias map of a list of imports: later imports overwrite earlier ones.
pub open spec fn alias_map_of(imports: Seq<ImportSpec>) -> Map<Seq<char>, Seq<char>>
    decreases imports.len(),
{
    if imports.len() == 0 {
        Map::empty()
    } else {
        let m = alias_map_of(imports.drop_last());
        match alias_key(imports.last()) {
            Some(k) => m.insert(k, literal_value(imports.last().path.raw@)),
            None => m,
        }
    }
}

/// A map from each local import name to its import path, for one file.
#[derive(Debug)]
pub struct AliasMap {
    entries: Vec<(String, String)>,
}

/// The map that a list of distinct-keyed entries stands for.
pub open spec fn entries_map(es: Seq<(String, String)>) -> Map<Seq<char>, Seq<char>>
    decreases es.len(),
{
    if es.len() == 0 {
        Map::empty()
    } else {
        entries_map(es.drop_last()).insert(es.last().0@, es.last().1@)
    }
}

/// No key occurs twice.
pub open spec fn distinct_keys(es: Seq<(String, String)>) -> bool {
    forall|i: int, j: int| 0 <= i < j < es.len() ==> es[i].0@ != es[j].0@
}

/// The keys of the map are exactly the entries' keys, each with its value.
proof fn lemma_entries_map(es: Seq<(String, String)>)
    requires
        distinct_keys(es),
    ensures
        forall|k: Seq<char>|
            entries_map(es).dom().contains(k) <==> exists|i: int| 0 <= i < es.len() && #[trigger] es[i].0@ == k,
        forall|i: int| 0 <= i < es.len() ==> entries_map(es)[#[trigger] es[i].0@] == es[i].1@,
        entries_map(es).dom().finite(),
        entries_map(es).dom().len() == es.len(),
    decreases es.len(),
{
    if es.len() > 0 {
        let p = es.drop_last();
        assert(distinct_keys(p));
        lemma_entries_map(p);
        assert forall|k: Seq<char>|
            entries_map(es).dom().contains(k) <==> exists|i: int| 0 <= i < es.len() && #[trigger] es[i].0@ == k by {
            if entries_map(es).dom().contains(k) && k != es.last().0@ {
                let i = choose|i: int| 0 <= i < p.len() && #[trigger] p[i].0@ == k;
                assert(es[i].0@ == k);
            }
            if exists|i: int| 0 <= i < es.len() && #[trigger] es[i].0@ == k {
                let i = choose|i: int| 0 <= i < es.len() && #[trigger] es[i].0@ == k;
                if i < es.len() - 1 {
                    assert(p[i].0@ == k);
                }
            }
        }
        assert forall|i: int| 0 <= i < es.len() implies entries_map(es)[#[trigger] es[i].0@] == es[i].1@ by {
            if i < es.len() - 1 {
                assert(p[i] == es[i]);
            }
        }
        assert(!entries_map(p).dom().contains(es.last().0@)) by {
            if entries_map(p).dom().contains(es.last().0@) {
                let i = choose|i: int| 0 <= i < p.len() && #[trigger] p[i].0@ == es.last().0@;
                assert(es[i].0@ == es[es.len() - 1].0@);
            }
        }
    }
}

impl View for AliasMap {
    type V = Map<Seq<char>, Seq<char>>;

    closed spec fn view(&self) -> Map<Seq<char>, Seq<char>> {
        entries_map(self.entries@)
    }
}

impl AliasMap {
    /// The map's internal invariant: no local name appears twice.
    pub closed spec fn wf(&self) -> bool {
        distinct_keys(self.entries@)
    }

    /// An empty alias map.
    pub fn new() -> (m: AliasMap)
        ensures
            m.wf(),
            m@ == Map::<Seq<char>, Seq<char>>::empty(),
    {
        AliasMap { entries: Vec::new() }
    }

    /// Maps `key` to `value`, replacing any earlier value of `key`.
    pub fn insert(&mut self, key: String, value: String)
        requires
            old(self).wf(),
        ensures
            final(self).wf(),
            final(self)@ == old(self)@.insert(key@, value@),
    {
        let ghost before = self.entries@;
        proof { lemma_entries_map(before); }
        let mut i: usize = 0;
        while i < self.entries.len()
            invariant
                self.entries@ == before,
                old(self).entries@ == before,
                distinct_keys(before),
                i <= before.len(),
                forall|j: int| 0 <= j < i ==> before[j].0@ != key@,
            decreases self.entries.len() - i,
        {
            if self.entries[i].0 == key {
                let mut e = Vec::new();
                e.append(&mut self.entries);
                e.set(i, (key, value));
                self.entries = e;
                proof {
                    let after = self.entries@;
                    assert(after == before.update(i as int, after[i as int]));
                    assert(after[i as int].0@ == key@);
                    assert(distinct_keys(after));
                    lemma_entries_map(after);
                    lemma_entries_map(before);
                    assert(entries_map(after) =~= entries_map(before).insert(key@, value@)) by {
                        assert forall|k: Seq<char>| #[trigger] entries_map(after).dom().contains(k)
                            <==> entries_map(before).insert(key@, value@).dom().contains(k) by {
                            if exists|j: int| 0 <= j < before.len() && #[trigger] before[j].0@ == k {
                                let j = choose|j: int| 0 <= j < before.len() && #[trigger] before[j].0@ == k;
                                assert(after[j].0@ == k);
                            }
                            if exists|j: int| 0 <= j < after.len() && #[trigger] after[j].0@ == k {
                                let j = choose|j: int| 0 <= j < after.len() && #[trigger] after[j].0@ == k;
                                if j != i {
                                    assert(before[j].0@ == k);
                                }
                            }
                        }
                        assert forall|k: Seq<char>| #[trigger] entries_map(after).dom().contains(k)
                            implies entries_map(after)[k] == entries_map(before).insert(key@, value@)[k] by {
                            let j = choose|j: int| 0 <= j < after.len() && #[trigger] after[j].0@ == k;
                            if j != i {
                                assert(before[j] == after[j]);
                            }
                        }
                    }
                }
                assert(self@ == entries_map(before).insert(key@, value@));
                return;
            }
            i = i + 1;
        }
        self.entries.push((key, value));
        proof {
            let after = self.entries@;
            assert(after.drop_last() == before);
            assert(distinct_keys(after));
        }
    }

    /// The import path for a local name, if it has one.
    pub fn get(&self, key: &str) -> (r: Option<&String>)
        requires
            self.wf(),
        ensures
            r is Some <==> self@.dom().contains(key@),
            r matches Some(v) ==> v@ == self@[key@],
    {
        proof { lemma_entries_map(self.entries@); }
        let mut i: usize = 0;
        while i < self.entries.len()
            invariant
                i <= self.entries@.len(),
                distinct_keys(self.entries@),
                forall|j: int| 0 <= j < i ==> self.entries@[j].0@ != key@,
            decreases self.entries.len() - i,
        {
            if str_eq(self.entries[i].0.as_str(), key) {
                proof {
                    lemma_entries_map(self.entries@);
                    assert(self.entries@[i as int].0@ == key@);
                }
                return Some(&self.entries[i].1);
            }
            i = i + 1;
        }
        proof {
            lemma_entries_map(self.entries@);
            if entries_map(self.entries@).dom().contains(key@) {
                let j = choose|j: int| 0 <= j < self.entries@.len() && #[trigger] self.entries@[j].0@ == key@;
                assert(false);
            }
        }
        None
    }

    /// Whether a local name has an import path.
    pub fn contains_key(&self, key: &str) -> (b: bool)
        requires
            self.wf(),
        ensures
            b == self@.dom().contains(key@),
    {
        self.get(key).is_some()
    }

    /// The number of local names.
    pub fn len(&self) -> (n: usize)
        requires
            self.wf(),
        ensures
            n == self@.dom().len(),
    {
        proof { lemma_entries_map(self.entries@); }
        self.entries.len()
    }

    /// Whether no local name is mapped.
    pub fn is_empty(&self) -> (b: bool)
        requires
            self.wf(),
        ensures
            b == (self@.dom().len() == 0),
    {
        proof { lemma_entries_map(self.entries@); }
        self.entries.len() == 0
    }
}

/// Builds the alias map of a source file: each import's local name mapped to
/// its unquoted path. Blank imports introduce no name and are skipped; dot
/// imports are recorded under `"."`; later imports overwrite earlier ones.
pub fn build_alias_map(sf: &SourceFile) -> (m: AliasMap)
    requires
        imports_ok(*sf),
    ensures
        m.wf(),
        m@ == alias_map_of(sf.imports@),
{
    let mut map = AliasMap::new();
    let mut i: usize = 0;
    assert(sf.imports@.take(0) == Seq::<ImportSpec>::empty());
    while i < sf.imports.len()
        invariant
            i <= sf.imports@.len(),
            imports_ok(*sf),
            map.wf(),
            map@ == alias_map_of(sf.imports@.take(i as int)),
        decreases sf.imports.len() - i,
    {
        let imp = &sf.imports[i];
        assert(literal_ok(sf.imports@[i as int].path));
        assert(sf.imports@.take(i + 1).drop_last() == sf.imports@.take(i as int));
        let path = imp.path.value();
        match &imp.alias {
            ImportAlias::Blank => {},
            ImportAlias::Dot => {
                map.insert(".".to_string(), path);
            },
            ImportAlias::Named(id) => {
                map.insert(id.name.clone(), path);
            },
            ImportAlias::Implicit => {
                let alias = last_segment_of(path.as_str(), '/');
                map.insert(alias, path);
            },
        }
        i = i + 1;
    }
    assert(sf.imports@.take(sf.imports@.len() as int) == sf.imports@);
    map
}

/// A later import of the same local name wins: after adding an import, its
/// name maps to its path.
pub proof fn law_last_import_wins(imports: Seq<ImportSpec>, imp: ImportSpec)
    requires
        alias_key(imp) is Some,
    ensures
        alias_map_of(imports.push(imp))[alias_key(imp)->0] == literal_value(imp.path.raw@),
        alias_map_of(imports.push(imp)).dom().contains(alias_key(imp)->0),
{
    assert(imports.push(imp).drop_last() =~= imports);
}

/// A blank import introduces no name: adding one leaves the alias map as it was.
pub proof fn law_blank_import_adds_nothing(imports: Seq<ImportSpec>, imp: ImportSpec)
    requires
        imp.alias is Blank,
    ensures
        alias_map_of(imports.push(imp)) == alias_map_of(imports),
{
    assert(imports.push(imp).drop_last() =~= imports);
}

} // verus!
