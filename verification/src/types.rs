//! Structural comparison of types and signatures, ignoring spans and the
//! names of parameters, and the accessors of type specifications.

use vstd::prelude::*;

use crate::ast::{ChanDir, Expr, FieldDecl, FuncType, InterfaceElem, ParamDecl, TypeExpr, TypeSpec, TypeTermElem};
use crate::leaf::Ident;
use crate::span::Span;
use crate::text::str_eq;

verus! {

/// How many flattened entries a parameter declaration stands for: one per
/// name, or one when it is unnamed.
pub open spec fn param_count(p: ParamDecl) -> nat {
    if p.names@.len() == 0 {
        1
    } else {
        p.names@.len()
    }
}

/// A parameter list flattened to one `(type, variadic)` entry per parameter:
/// `(a, b int, c string)` becomes `[(int, false), (int, false), (string, false)]`.
pub open spec fn flatten(ps: Seq<ParamDecl>) -> Seq<(TypeExpr, bool)>
    decreases ps.len(),
{
    if ps.len() == 0 {
        Seq::empty()
    } else {
        Seq::new(param_count(ps[0]), |i: int| (ps[0].ty, ps[0].variadic)) + flatten(ps.skip(1))
    }
}

/// Structural type equality ignoring spans and parameter names. Array lengths
/// are not compared; interfaces compare their elements in order (method names
/// and signatures, embedded types, type terms) and structs their fields in
/// order (names, types, and whether a field is embedded). Two interfaces
/// whose methods share names but not signatures are therefore different
/// types: the comparison is structural all the way down, not by counts and
/// names alone.
pub open spec fn spec_type_eq(a: TypeExpr, b: TypeExpr) -> bool
    decreases a, 0nat,
{
    match (a, b) {
        (TypeExpr::Named(x), TypeExpr::Named(y)) => x.name@ == y.name@,
        (
            TypeExpr::Qualified { package: pa, name: na },
            TypeExpr::Qualified { package: pb, name: nb },
        ) => pa.name@ == pb.name@ && na.name@ == nb.name@,
        (TypeExpr::Pointer(x), TypeExpr::Pointer(y)) => spec_type_eq(*x, *y),
        (TypeExpr::Array { elem: ea, .. }, TypeExpr::Array { elem: eb, .. }) => spec_type_eq(*ea, *eb),
        (TypeExpr::Slice(x), TypeExpr::Slice(y)) => spec_type_eq(*x, *y),
        (TypeExpr::MapType { key: ka, value: va }, TypeExpr::MapType { key: kb, value: vb }) =>
            spec_type_eq(*ka, *kb) && spec_type_eq(*va, *vb),
        (
            TypeExpr::Channel { direction: da, elem: ea },
            TypeExpr::Channel { direction: db, elem: eb },
        ) => da == db && spec_type_eq(*ea, *eb),
        (TypeExpr::Func(fa), TypeExpr::Func(fb)) => params_flat_eq(fa.params@, flatten(fb.params@))
            && params_flat_eq(fa.results@, flatten(fb.results@)),
        (TypeExpr::Interface(x), TypeExpr::Interface(y)) => elems_eq(x.elements@, y.elements@),
        (TypeExpr::Struct(x), TypeExpr::Struct(y)) => fields_eq(x.fields@, y.fields@),
        (TypeExpr::Generic { base: ba, args: aa }, TypeExpr::Generic { base: bb, args: ab }) =>
            spec_type_eq(*ba, *bb) && types_eq(aa@, ab@),
        _ => false,
    }
}

/// Whether two identifier lists hold the same names, in order.
pub open spec fn names_eq(a: Seq<Ident>, b: Seq<Ident>) -> bool {
    a.len() == b.len() && forall|i: int| 0 <= i < a.len() ==> #[trigger] a[i].name@ == b[i].name@
}

/// Pairwise equality of interface elements: methods by name and signature,
/// embedded types and type terms structurally.
pub open spec fn elems_eq(a: Seq<InterfaceElem>, b: Seq<InterfaceElem>) -> bool
    decreases a, 0nat,
{
    if a.len() == 0 {
        b.len() == 0
    } else {
        b.len() > 0 && match (a[0], b[0]) {
            (InterfaceElem::Method { name: na, ty: ta, .. }, InterfaceElem::Method { name: nb, ty: tb, .. }) => na.name@
                == nb.name@ && params_flat_eq(ta.params@, flatten(tb.params@)) && params_flat_eq(
                ta.results@,
                flatten(tb.results@),
            ),
            (InterfaceElem::Embedded(x), InterfaceElem::Embedded(y)) => spec_type_eq(x, y),
            (InterfaceElem::TypeTerm(x), InterfaceElem::TypeTerm(y)) => terms_eq(x.terms@, y.terms@),
            _ => false,
        } && elems_eq(a.skip(1), b.skip(1))
    }
}

/// Pairwise equality of type-term elements: the same `~` flag and type.
pub open spec fn terms_eq(a: Seq<TypeTermElem>, b: Seq<TypeTermElem>) -> bool
    decreases a, 0nat,
{
    if a.len() == 0 {
        b.len() == 0
    } else {
        b.len() > 0 && a[0].tilde == b[0].tilde && spec_type_eq(a[0].ty, b[0].ty) && terms_eq(a.skip(1), b.skip(1))
    }
}

/// Pairwise equality of struct fields: named fields by their names and type,
/// embedded fields by their type; a named field never equals an embedded one.
pub open spec fn fields_eq(a: Seq<FieldDecl>, b: Seq<FieldDecl>) -> bool
    decreases a, 0nat,
{
    if a.len() == 0 {
        b.len() == 0
    } else {
        b.len() > 0 && match (a[0], b[0]) {
            (FieldDecl::Named { names: na, ty: ta, .. }, FieldDecl::Named { names: nb, ty: tb, .. }) => names_eq(
                na@,
                nb@,
            ) && spec_type_eq(ta, tb),
            (FieldDecl::Embedded { ty: ta, .. }, FieldDecl::Embedded { ty: tb, .. }) => spec_type_eq(ta, tb),
            _ => false,
        } && fields_eq(a.skip(1), b.skip(1))
    }
}

/// Pairwise `spec_type_eq` of two type lists of the same length.
pub open spec fn types_eq(a: Seq<TypeExpr>, b: Seq<TypeExpr>) -> bool
    decreases a, 0nat,
{
    if a.len() == 0 {
        b.len() == 0
    } else {
        b.len() > 0 && spec_type_eq(a[0], b[0]) && types_eq(a.skip(1), b.skip(1))
    }
}

/// Every entry of `fs` has a type `spec_type_eq` to `t` and the variadic flag `v`.
pub open spec fn all_match(t: TypeExpr, v: bool, fs: Seq<(TypeExpr, bool)>) -> bool
    decreases t, fs.len(),
{
    if fs.len() == 0 {
        true
    } else {
        spec_type_eq(t, fs[0].0) && fs[0].1 == v && all_match(t, v, fs.skip(1))
    }
}

/// The flattening of `a` matches the flattened list `fb` entry by entry.
pub open spec fn params_flat_eq(a: Seq<ParamDecl>, fb: Seq<(TypeExpr, bool)>) -> bool
    decreases a, 0nat,
{
    if a.len() == 0 {
        fb.len() == 0
    } else {
        param_count(a[0]) <= fb.len() && all_match(a[0].ty, a[0].variadic, fb.take(param_count(a[0]) as int)) && params_flat_eq(
            a.skip(1),
            fb.skip(param_count(a[0]) as int),
        )
    }
}

/// Two parameter lists match when their flattenings agree entry by entry.
pub open spec fn params_match(a: Seq<ParamDecl>, b: Seq<ParamDecl>) -> bool {
    params_flat_eq(a, flatten(b))
}

/// Two signatures match when parameters and results match.
pub open spec fn signature_match(a: FuncType, b: FuncType) -> bool {
    params_match(a.params@, b.params@) && params_match(a.results@, b.results@)
}

/// The entries that one parameter declaration contributes to a flattening.
pub open spec fn chunk(p: ParamDecl) -> Seq<(TypeExpr, bool)> {
    Seq::new(param_count(p), |i: int| (p.ty, p.variadic))
}

/// Flattening distributes over appending one declaration.
pub proof fn lemma_flatten_push(ps: Seq<ParamDecl>, p: ParamDecl)
    ensures
        flatten(ps.push(p)) == flatten(ps) + chunk(p),
    decreases ps.len(),
{
    if ps.len() == 0 {
        assert(ps.push(p).skip(1) == Seq::<ParamDecl>::empty());
        assert(flatten(Seq::<ParamDecl>::empty()) == Seq::<(TypeExpr, bool)>::empty());
        assert(ps.push(p)[0] == p);
        assert(flatten(ps.push(p)) =~= chunk(p) + Seq::<(TypeExpr, bool)>::empty());
        assert(flatten(ps) == Seq::<(TypeExpr, bool)>::empty());
    } else {
        assert(ps.push(p).skip(1) == ps.skip(1).push(p));
        lemma_flatten_push(ps.skip(1), p);
        assert(flatten(ps.push(p)) =~= flatten(ps) + chunk(p));
    }
}

/// Flattens a parameter list to one `(type, variadic)` entry per parameter.
pub fn flatten_params(ps: &Vec<ParamDecl>) -> (r: Vec<(&TypeExpr, bool)>)
    ensures
        r@.len() == flatten(ps@).len(),
        forall|i: int| 0 <= i < r@.len() ==> (*r@[i].0, r@[i].1) == #[trigger] flatten(ps@)[i],
{
    let mut r: Vec<(&TypeExpr, bool)> = Vec::new();
    let mut k: usize = 0;
    assert(ps@.take(0) == Seq::<ParamDecl>::empty());
    while k < ps.len()
        invariant
            k <= ps@.len(),
            r@.len() == flatten(ps@.take(k as int)).len(),
            forall|i: int| 0 <= i < r@.len() ==> (*r@[i].0, r@[i].1) == #[trigger] flatten(ps@.take(k as int))[i],
        decreases ps.len() - k,
    {
        let p = &ps[k];
        let count = if p.names.len() == 0 { 1 } else { p.names.len() };
        let ghost before = r@;
        let mut j: usize = 0;
        while j < count
            invariant
                j <= count,
                count == param_count(*p),
                r@.len() == before.len() + j,
                forall|i: int| 0 <= i < before.len() ==> r@[i] == before[i],
                forall|i: int| before.len() <= i < r@.len() ==> (*r@[i].0, r@[i].1) == (p.ty, p.variadic),
            decreases count - j,
        {
            r.push((&p.ty, p.variadic));
            j = j + 1;
        }
        proof {
            lemma_flatten_push(ps@.take(k as int), *p);
            assert(ps@.take(k + 1) == ps@.take(k as int).push(*p));
        }
        k = k + 1;
    }
    assert(ps@.take(ps.len() as int) == ps@);
    r
}

/// Structural type equality, ignoring spans and parameter names. Array
/// lengths are not compared; interface elements and struct fields are
/// compared in order, names included.
pub fn type_eq(a: &TypeExpr, b: &TypeExpr) -> (r: bool)
    ensures
        r == spec_type_eq(*a, *b),
    decreases a, 0nat,
{
    match (a, b) {
        (TypeExpr::Named(x), TypeExpr::Named(y)) => x.name == y.name,
        (
            TypeExpr::Qualified { package: pa, name: na },
            TypeExpr::Qualified { package: pb, name: nb },
        ) => pa.name == pb.name && na.name == nb.name,
        (TypeExpr::Pointer(x), TypeExpr::Pointer(y)) => type_eq(x, y),
        (TypeExpr::Array { elem: ea, .. }, TypeExpr::Array { elem: eb, .. }) => type_eq(ea, eb),
        (TypeExpr::Slice(x), TypeExpr::Slice(y)) => type_eq(x, y),
        (TypeExpr::MapType { key: ka, value: va }, TypeExpr::MapType { key: kb, value: vb }) =>
            type_eq(ka, kb) && type_eq(va, vb),
        (
            TypeExpr::Channel { direction: da, elem: ea },
            TypeExpr::Channel { direction: db, elem: eb },
        ) => {
            let same_dir = match (da, db) {
                (ChanDir::Both, ChanDir::Both) => true,
                (ChanDir::Recv, ChanDir::Recv) => true,
                (ChanDir::Send, ChanDir::Send) => true,
                _ => false,
            };
            same_dir && type_eq(ea, eb)
        },
        (TypeExpr::Func(fa), TypeExpr::Func(fb)) => params_match_exec(&fa.params, &fb.params)
            && params_match_exec(&fa.results, &fb.results),
        (TypeExpr::Interface(x), TypeExpr::Interface(y)) => elems_eq_exec(&x.elements, &y.elements),
        (TypeExpr::Struct(x), TypeExpr::Struct(y)) => fields_eq_exec(&x.fields, &y.fields),
        (TypeExpr::Generic { base: ba, args: aa }, TypeExpr::Generic { base: bb, args: ab }) =>
            type_eq(ba, bb) && types_eq_exec(aa, ab),
        _ => false,
    }
}

/// Whether two identifier lists hold the same names, in order.
fn names_eq_exec(a: &Vec<Ident>, b: &Vec<Ident>) -> (r: bool)
    ensures
        r == names_eq(a@, b@),
{
    if a.len() != b.len() {
        return false;
    }
    let mut i: usize = 0;
    while i < a.len()
        invariant
            i <= a@.len(),
            a@.len() == b@.len(),
            forall|k: int| 0 <= k < i ==> #[trigger] a@[k].name@ == b@[k].name@,
        decreases a.len() - i,
    {
        if !str_eq(a[i].name.as_str(), b[i].name.as_str()) {
            return false;
        }
        i = i + 1;
    }
    true
}

/// Pairwise equality of interface elements.
fn elems_eq_exec(a: &Vec<InterfaceElem>, b: &Vec<InterfaceElem>) -> (r: bool)
    ensures
        r == elems_eq(a@, b@),
    decreases a, 0nat,
{
    let mut i: usize = 0;
    assert(a@.skip(0) == a@ && b@.skip(0) == b@);
    while i < a.len()
        invariant
            i <= a@.len(),
            i <= b@.len(),
            elems_eq(a@, b@) == elems_eq(a@.skip(i as int), b@.skip(i as int)),
        decreases a.len() - i,
    {
        assert(a@.skip(i as int).skip(1) == a@.skip(i + 1));
        assert(a@.skip(i as int)[0] == a@[i as int]);
        if i >= b.len() {
            assert(b@.skip(i as int).len() == 0);
            return false;
        }
        assert(b@.skip(i as int).skip(1) == b@.skip(i + 1));
        assert(b@.skip(i as int)[0] == b@[i as int]);
        let same = match (&a[i], &b[i]) {
            (InterfaceElem::Method { name: na, ty: ta, .. }, InterfaceElem::Method { name: nb, ty: tb, .. }) => str_eq(
                na.name.as_str(),
                nb.name.as_str(),
            ) && params_match_exec(&ta.params, &tb.params) && params_match_exec(&ta.results, &tb.results),
            (InterfaceElem::Embedded(x), InterfaceElem::Embedded(y)) => type_eq(x, y),
            (InterfaceElem::TypeTerm(x), InterfaceElem::TypeTerm(y)) => terms_eq_exec(&x.terms, &y.terms),
            _ => false,
        };
        if !same {
            return false;
        }
        i = i + 1;
    }
    assert(a@.skip(i as int).len() == 0);
    assert(b@.skip(i as int).len() == b@.len() - i);
    i == b.len()
}

/// Pairwise equality of type-term elements.
fn terms_eq_exec(a: &Vec<TypeTermElem>, b: &Vec<TypeTermElem>) -> (r: bool)
    ensures
        r == terms_eq(a@, b@),
    decreases a, 0nat,
{
    let mut i: usize = 0;
    assert(a@.skip(0) == a@ && b@.skip(0) == b@);
    while i < a.len()
        invariant
            i <= a@.len(),
            i <= b@.len(),
            terms_eq(a@, b@) == terms_eq(a@.skip(i as int), b@.skip(i as int)),
        decreases a.len() - i,
    {
        assert(a@.skip(i as int).skip(1) == a@.skip(i + 1));
        assert(a@.skip(i as int)[0] == a@[i as int]);
        if i >= b.len() {
            assert(b@.skip(i as int).len() == 0);
            return false;
        }
        assert(b@.skip(i as int).skip(1) == b@.skip(i + 1));
        assert(b@.skip(i as int)[0] == b@[i as int]);
        if a[i].tilde != b[i].tilde || !type_eq(&a[i].ty, &b[i].ty) {
            return false;
        }
        i = i + 1;
    }
    assert(a@.skip(i as int).len() == 0);
    assert(b@.skip(i as int).len() == b@.len() - i);
    i == b.len()
}

/// Pairwise equality of struct fields.
fn fields_eq_exec(a: &Vec<FieldDecl>, b: &Vec<FieldDecl>) -> (r: bool)
    ensures
        r == fields_eq(a@, b@),
    decreases a, 0nat,
{
    let mut i: usize = 0;
    assert(a@.skip(0) == a@ && b@.skip(0) == b@);
    while i < a.len()
        invariant
            i <= a@.len(),
            i <= b@.len(),
            fields_eq(a@, b@) == fields_eq(a@.skip(i as int), b@.skip(i as int)),
        decreases a.len() - i,
    {
        assert(a@.skip(i as int).skip(1) == a@.skip(i + 1));
        assert(a@.skip(i as int)[0] == a@[i as int]);
        if i >= b.len() {
            assert(b@.skip(i as int).len() == 0);
            return false;
        }
        assert(b@.skip(i as int).skip(1) == b@.skip(i + 1));
        assert(b@.skip(i as int)[0] == b@[i as int]);
        let same = match (&a[i], &b[i]) {
            (FieldDecl::Named { names: na, ty: ta, .. }, FieldDecl::Named { names: nb, ty: tb, .. }) => names_eq_exec(
                na,
                nb,
            ) && type_eq(ta, tb),
            (FieldDecl::Embedded { ty: ta, .. }, FieldDecl::Embedded { ty: tb, .. }) => type_eq(ta, tb),
            _ => false,
        };
        if !same {
            return false;
        }
        i = i + 1;
    }
    assert(a@.skip(i as int).len() == 0);
    assert(b@.skip(i as int).len() == b@.len() - i);
    i == b.len()
}

/// Pairwise structural equality of two type lists.
fn types_eq_exec(a: &Vec<TypeExpr>, b: &Vec<TypeExpr>) -> (r: bool)
    ensures
        r == types_eq(a@, b@),
    decreases a, 0nat,
{
    if a.len() != b.len() {
        proof { lemma_types_eq_len(a@, b@); }
        return false;
    }
    let mut i: usize = 0;
    assert(a@.skip(0) == a@ && b@.skip(0) == b@);
    while i < a.len()
        invariant
            i <= a@.len(),
            a@.len() == b@.len(),
            types_eq(a@, b@) == types_eq(a@.skip(i as int), b@.skip(i as int)),
        decreases a.len() - i,
    {
        assert(a@.skip(i as int).skip(1) == a@.skip(i + 1));
        assert(b@.skip(i as int).skip(1) == b@.skip(i + 1));
        if !type_eq(&a[i], &b[i]) {
            return false;
        }
        i = i + 1;
    }
    assert(a@.skip(i as int).len() == 0);
    true
}

/// Lists of different lengths are never pairwise equal.
proof fn lemma_types_eq_len(a: Seq<TypeExpr>, b: Seq<TypeExpr>)
    ensures
        types_eq(a, b) ==> a.len() == b.len(),
    decreases a.len(),
{
    if a.len() > 0 && b.len() > 0 {
        lemma_types_eq_len(a.skip(1), b.skip(1));
    }
}

/// Compares two parameter lists structurally, ignoring names and spans.
fn params_match_exec(a: &Vec<ParamDecl>, b: &Vec<ParamDecl>) -> (r: bool)
    ensures
        r == params_match(a@, b@),
    decreases a, 0nat,
{
    let fb = flatten_params(b);
    let ghost flat = flatten(b@);
    let mut i: usize = 0;
    let mut j: usize = 0;
    assert(a@.skip(0) == a@ && flat.skip(0) == flat);
    while i < a.len()
        invariant
            i <= a@.len(),
            j <= fb@.len(),
            fb@.len() == flat.len(),
            flat == flatten(b@),
            forall|k: int| 0 <= k < fb@.len() ==> (*fb@[k].0, fb@[k].1) == #[trigger] flat[k],
            params_match(a@, b@) == params_flat_eq(a@.skip(i as int), flat.skip(j as int)),
        decreases a.len() - i,
    {
        let p = &a[i];
        let count = if p.names.len() == 0 { 1 } else { p.names.len() };
        let ghost rest = flat.skip(j as int);
        assert(a@.skip(i as int)[0] == *p);
        assert(a@.skip(i as int).skip(1) == a@.skip(i + 1));
        if count > fb.len() - j {
            return false;
        }
        let ghost chunk = rest.take(count as int);
        let mut m: usize = 0;
        assert(chunk.skip(0) == chunk);
        assert(params_flat_eq(a@.skip(i as int), rest) == (all_match(p.ty, p.variadic, chunk)
            && params_flat_eq(a@.skip(i + 1), rest.skip(count as int))));
        while m < count
            invariant
                m <= count,
                i < a@.len(),
                *p == a@[i as int],
                count == param_count(*p),
                j + count <= fb.len(),
                fb@.len() == fb.len(),
                params_match(a@, b@) == params_flat_eq(a@.skip(i as int), rest),
                params_flat_eq(a@.skip(i as int), rest) == (all_match(p.ty, p.variadic, chunk)
                    && params_flat_eq(a@.skip(i + 1), rest.skip(count as int))),
                fb@.len() == flat.len(),
                rest == flat.skip(j as int),
                chunk == rest.take(count as int),
                forall|k: int| 0 <= k < fb@.len() ==> (*fb@[k].0, fb@[k].1) == #[trigger] flat[k],
                all_match(p.ty, p.variadic, chunk) == all_match(p.ty, p.variadic, chunk.skip(m as int)),
            decreases count - m,
        {
            let (t, v) = fb[j + m];
            assert(chunk[m as int] == flat[j + m]);
            assert(chunk.skip(m as int)[0] == chunk[m as int]);
            assert(chunk.skip(m as int).skip(1) == chunk.skip(m + 1));
            if v != p.variadic || !type_eq(&p.ty, t) {
                return false;
            }
            m = m + 1;
        }
        assert(chunk.skip(count as int).len() == 0);
        assert(rest.skip(count as int) == flat.skip(j + count));
        j = j + count;
        i = i + 1;
    }
    assert(a@.skip(i as int).len() == 0);
    j == fb.len()
}

impl FuncType {
    /// Two signatures are compatible when their parameter and result types and
    /// variadic flags agree, ignoring parameter names and spans.
    pub fn signature_matches(&self, other: &FuncType) -> (r: bool)
        ensures
            r == signature_match(*self, *other),
    {
        params_match_exec(&self.params, &other.params) && params_match_exec(
            &self.results,
            &other.results,
        )
    }
}

impl TypeSpec {
    /// The declared name of a type specification.
    pub open spec fn spec_name(&self) -> Ident {
        match self {
            TypeSpec::Alias { name, .. } => *name,
            TypeSpec::Def { name, .. } => *name,
        }
    }

    /// The span of a type specification.
    pub open spec fn spec_span(&self) -> Span {
        match self {
            TypeSpec::Alias { span, .. } => *span,
            TypeSpec::Def { span, .. } => *span,
        }
    }

    /// The type expression of a type specification.
    pub open spec fn spec_ty(&self) -> TypeExpr {
        match self {
            TypeSpec::Alias { ty, .. } => *ty,
            TypeSpec::Def { ty, .. } => *ty,
        }
    }

    /// Whether this is a definition of a struct type.
    pub open spec fn spec_is_struct(&self) -> bool {
        self matches TypeSpec::Def { ty: TypeExpr::Struct(_), .. }
    }

    /// Whether this is a definition of an interface type.
    pub open spec fn spec_is_interface(&self) -> bool {
        self matches TypeSpec::Def { ty: TypeExpr::Interface(_), .. }
    }

    /// Returns the declared type name.
    pub fn name(&self) -> (n: &Ident)
        ensures
            *n == self.spec_name(),
    {
        match self {
            TypeSpec::Alias { name, .. } => name,
            TypeSpec::Def { name, .. } => name,
        }
    }

    /// Returns the source span of this type spec.
    pub fn span(&self) -> (s: Span)
        ensures
            s == self.spec_span(),
    {
        match self {
            TypeSpec::Alias { span, .. } => *span,
            TypeSpec::Def { span, .. } => *span,
        }
    }

    /// Returns the underlying type expression.
    pub fn ty(&self) -> (t: &TypeExpr)
        ensures
            *t == self.spec_ty(),
    {
        match self {
            TypeSpec::Alias { ty, .. } => ty,
            TypeSpec::Def { ty, .. } => ty,
        }
    }

    /// Returns `true` if this is a struct type definition.
    pub fn is_struct(&self) -> (b: bool)
        ensures
            b == self.spec_is_struct(),
    {
        match self {
            TypeSpec::Def { ty: TypeExpr::Struct(_), .. } => true,
            _ => false,
        }
    }

    /// Returns `true` if this is an interface type definition.
    pub fn is_interface(&self) -> (b: bool)
        ensures
            b == self.spec_is_interface(),
    {
        match self {
            TypeSpec::Def { ty: TypeExpr::Interface(_), .. } => true,
            _ => false,
        }
    }
}


/// A list of entries all equal to `(t, v)` matches `t` and `v`, when `t` is
/// `spec_type_eq` to itself.
proof fn lemma_all_match_const(t: TypeExpr, v: bool, fs: Seq<(TypeExpr, bool)>)
    requires
        spec_type_eq(t, t),
        forall|i: int| 0 <= i < fs.len() ==> #[trigger] fs[i] == (t, v),
    ensures
        all_match(t, v, fs),
    decreases fs.len(),
{
    if fs.len() > 0 {
        assert(fs[0] == (t, v));
        assert forall|i: int| 0 <= i < fs.skip(1).len() implies #[trigger] fs.skip(1)[i] == (t, v) by {
            assert(fs[i + 1] == (t, v));
        }
        lemma_all_match_const(t, v, fs.skip(1));
    }
}

/// Every type is `spec_type_eq` to itself; with the two laws below, `spec_type_eq` is an
/// equivalence relation on types.
pub proof fn law_type_eq_reflexive(a: TypeExpr)
    ensures
        spec_type_eq(a, a),
    decreases a, 0nat,
{
    match a {
        TypeExpr::Pointer(x) => law_type_eq_reflexive(*x),
        TypeExpr::Array { elem, .. } => law_type_eq_reflexive(*elem),
        TypeExpr::Slice(x) => law_type_eq_reflexive(*x),
        TypeExpr::MapType { key, value } => {
            law_type_eq_reflexive(*key);
            law_type_eq_reflexive(*value);
        },
        TypeExpr::Channel { elem, .. } => law_type_eq_reflexive(*elem),
        TypeExpr::Func(f) => {
            lemma_params_refl(f.params@);
            lemma_params_refl(f.results@);
        },
        TypeExpr::Interface(x) => lemma_elems_refl(x.elements@),
        TypeExpr::Struct(x) => lemma_fields_refl(x.fields@),
        TypeExpr::Generic { base, args } => {
            law_type_eq_reflexive(*base);
            lemma_types_refl(args@);
        },
        _ => {},
    }
}

/// Every parameter list matches its own flattening.
pub proof fn lemma_params_refl(ps: Seq<ParamDecl>)
    ensures
        params_flat_eq(ps, flatten(ps)),
    decreases ps, 0nat,
{
    if ps.len() > 0 {
        let p = ps[0];
        let n = param_count(p) as int;
        let f = flatten(ps);
        assert(f == chunk(p) + flatten(ps.skip(1)));
        assert(f.take(n) =~= chunk(p));
        assert(f.skip(n) =~= flatten(ps.skip(1)));
        law_type_eq_reflexive(p.ty);
        lemma_all_match_const(p.ty, p.variadic, f.take(n));
        lemma_params_refl(ps.skip(1));
    }
}

/// Every interface element list is `elems_eq` to itself.
pub proof fn lemma_elems_refl(es: Seq<InterfaceElem>)
    ensures
        elems_eq(es, es),
    decreases es, 0nat,
{
    if es.len() > 0 {
        match es[0] {
            InterfaceElem::Method { ty, .. } => {
                lemma_params_refl(ty.params@);
                lemma_params_refl(ty.results@);
            },
            InterfaceElem::Embedded(x) => law_type_eq_reflexive(x),
            InterfaceElem::TypeTerm(x) => lemma_terms_refl(x.terms@),
        }
        lemma_elems_refl(es.skip(1));
    }
}

/// Every type-term list is `terms_eq` to itself.
pub proof fn lemma_terms_refl(ts: Seq<TypeTermElem>)
    ensures
        terms_eq(ts, ts),
    decreases ts, 0nat,
{
    if ts.len() > 0 {
        law_type_eq_reflexive(ts[0].ty);
        lemma_terms_refl(ts.skip(1));
    }
}

/// Every field list is `fields_eq` to itself.
pub proof fn lemma_fields_refl(fs: Seq<FieldDecl>)
    ensures
        fields_eq(fs, fs),
    decreases fs, 0nat,
{
    if fs.len() > 0 {
        match fs[0] {
            FieldDecl::Named { ty, .. } => law_type_eq_reflexive(ty),
            FieldDecl::Embedded { ty, .. } => law_type_eq_reflexive(ty),
        }
        lemma_fields_refl(fs.skip(1));
    }
}

/// Every type list is `types_eq` to itself.
pub proof fn lemma_types_refl(ts: Seq<TypeExpr>)
    ensures
        types_eq(ts, ts),
    decreases ts, 0nat,
{
    if ts.len() > 0 {
        law_type_eq_reflexive(ts[0]);
        lemma_types_refl(ts.skip(1));
    }
}


/// Entry-by-entry agreement of two flattened parameter lists.
pub open spec fn flat_eq(fa: Seq<(TypeExpr, bool)>, fb: Seq<(TypeExpr, bool)>) -> bool {
    fa.len() == fb.len() && forall|i: int| 0 <= i < fa.len() ==> spec_type_eq((#[trigger] fa[i]).0, fb[i].0) && fa[i].1 == fb[i].1
}

/// `all_match` says that every entry has a type `spec_type_eq` to `t` and the flag `v`.
proof fn lemma_all_match_iff(t: TypeExpr, v: bool, fs: Seq<(TypeExpr, bool)>)
    ensures
        all_match(t, v, fs) <==> (forall|i: int| 0 <= i < fs.len() ==> spec_type_eq(t, (#[trigger] fs[i]).0) && fs[i].1 == v),
    decreases fs.len(),
{
    if fs.len() > 0 {
        let r = fs.skip(1);
        lemma_all_match_iff(t, v, r);
        if all_match(t, v, fs) {
            assert forall|i: int| 0 <= i < fs.len() implies spec_type_eq(t, (#[trigger] fs[i]).0) && fs[i].1 == v by {
                if i > 0 {
                    assert(fs[i] == r[i - 1]);
                }
            }
        }
        if forall|i: int| 0 <= i < fs.len() ==> spec_type_eq(t, (#[trigger] fs[i]).0) && fs[i].1 == v {
            assert(spec_type_eq(t, fs[0].0) && fs[0].1 == v);
            assert forall|i: int| 0 <= i < r.len() implies spec_type_eq(t, (#[trigger] r[i]).0) && r[i].1 == v by {
                assert(r[i] == fs[i + 1]);
            }
        }
    }
}

/// Matching a parameter list against a flattened list is entry-by-entry
/// agreement of its own flattening with that list.
proof fn lemma_params_flat_iff(a: Seq<ParamDecl>, fb: Seq<(TypeExpr, bool)>)
    ensures
        params_flat_eq(a, fb) <==> flat_eq(flatten(a), fb),
    decreases a.len(),
{
    if a.len() == 0 {
        assert(flatten(a) == Seq::<(TypeExpr, bool)>::empty());
    } else {
        let p = a[0];
        let n = param_count(p) as int;
        let rest = a.skip(1);
        let f = flatten(a);
        let fr = flatten(rest);
        assert(f == chunk(p) + fr);
        lemma_params_flat_iff(rest, fb.skip(n));
        if n <= fb.len() {
            let head = fb.take(n);
            let tail = fb.skip(n);
            lemma_all_match_iff(p.ty, p.variadic, head);
            if params_flat_eq(a, fb) {
                assert forall|i: int| 0 <= i < f.len() implies spec_type_eq((#[trigger] f[i]).0, fb[i].0) && f[i].1 == fb[i].1 by {
                    if i < n {
                        assert(f[i] == (p.ty, p.variadic));
                        assert(head[i] == fb[i]);
                    } else {
                        assert(f[i] == fr[i - n]);
                        assert(tail[i - n] == fb[i]);
                    }
                }
            }
            if flat_eq(f, fb) {
                assert forall|i: int| 0 <= i < head.len() implies spec_type_eq(p.ty, (#[trigger] head[i]).0) && head[i].1 == p.variadic by {
                    assert(f[i] == (p.ty, p.variadic));
                    assert(head[i] == fb[i]);
                }
                assert forall|i: int| 0 <= i < fr.len() implies spec_type_eq((#[trigger] fr[i]).0, tail[i].0) && fr[i].1 == tail[i].1 by {
                    assert(f[i + n] == fr[i]);
                    assert(tail[i] == fb[i + n]);
                }
            }
        }
    }
}

/// `spec_type_eq` is symmetric.
pub proof fn law_type_eq_symmetric(a: TypeExpr, b: TypeExpr)
    requires
        spec_type_eq(a, b),
    ensures
        spec_type_eq(b, a),
    decreases a, 1nat,
{
    match (a, b) {
        (TypeExpr::Pointer(x), TypeExpr::Pointer(y)) => law_type_eq_symmetric(*x, *y),
        (TypeExpr::Array { elem: ea, .. }, TypeExpr::Array { elem: eb, .. }) => law_type_eq_symmetric(*ea, *eb),
        (TypeExpr::Slice(x), TypeExpr::Slice(y)) => law_type_eq_symmetric(*x, *y),
        (TypeExpr::MapType { key: ka, value: va }, TypeExpr::MapType { key: kb, value: vb }) => {
            law_type_eq_symmetric(*ka, *kb);
            law_type_eq_symmetric(*va, *vb);
        },
        (TypeExpr::Channel { elem: ea, .. }, TypeExpr::Channel { elem: eb, .. }) => law_type_eq_symmetric(*ea, *eb),
        (TypeExpr::Func(fa), TypeExpr::Func(fb)) => {
            lemma_params_symm(fa.params@, fb.params@);
            lemma_params_symm(fa.results@, fb.results@);
        },
        (TypeExpr::Interface(x), TypeExpr::Interface(y)) => lemma_elems_symm(x.elements@, y.elements@),
        (TypeExpr::Struct(x), TypeExpr::Struct(y)) => lemma_fields_symm(x.fields@, y.fields@),
        (TypeExpr::Generic { base: ba, args: aa }, TypeExpr::Generic { base: bb, args: ab }) => {
            law_type_eq_symmetric(*ba, *bb);
            lemma_types_symm(aa@, ab@);
        },
        _ => {},
    }
}

/// Entry-by-entry agreement with a parameter list's flattening is symmetric.
proof fn lemma_flat_symm(ps: Seq<ParamDecl>, fb: Seq<(TypeExpr, bool)>)
    requires
        flat_eq(flatten(ps), fb),
    ensures
        flat_eq(fb, flatten(ps)),
    decreases ps, 0nat,
{
    if ps.len() > 0 {
        let p = ps[0];
        let n = param_count(p) as int;
        let f = flatten(ps);
        let fr = flatten(ps.skip(1));
        assert(f == chunk(p) + fr);
        let tail = fb.skip(n);
        assert forall|i: int| 0 <= i < fr.len() implies spec_type_eq((#[trigger] fr[i]).0, tail[i].0) && fr[i].1 == tail[i].1 by {
            assert(f[i + n] == fr[i]);
            assert(tail[i] == fb[i + n]);
        }
        lemma_flat_symm(ps.skip(1), tail);
        assert forall|i: int| 0 <= i < fb.len() implies spec_type_eq((#[trigger] fb[i]).0, f[i].0) && fb[i].1 == f[i].1 by {
            if i < n {
                assert(f[i] == (p.ty, p.variadic));
                law_type_eq_symmetric(p.ty, fb[i].0);
            } else {
                assert(f[i] == fr[i - n]);
                assert(tail[i - n] == fb[i]);
            }
        }
    }
}

/// Parameter-list matching is symmetric.
pub proof fn lemma_params_symm(ps: Seq<ParamDecl>, qs: Seq<ParamDecl>)
    requires
        params_flat_eq(ps, flatten(qs)),
    ensures
        params_flat_eq(qs, flatten(ps)),
    decreases ps, 2nat,
{
    lemma_params_flat_iff(ps, flatten(qs));
    lemma_flat_symm(ps, flatten(qs));
    lemma_params_flat_iff(qs, flatten(ps));
}

/// `elems_eq` is symmetric.
pub proof fn lemma_elems_symm(a: Seq<InterfaceElem>, b: Seq<InterfaceElem>)
    requires
        elems_eq(a, b),
    ensures
        elems_eq(b, a),
    decreases a, 1nat,
{
    if a.len() > 0 {
        match (a[0], b[0]) {
            (InterfaceElem::Method { ty: ta, .. }, InterfaceElem::Method { ty: tb, .. }) => {
                lemma_params_symm(ta.params@, tb.params@);
                lemma_params_symm(ta.results@, tb.results@);
            },
            (InterfaceElem::Embedded(x), InterfaceElem::Embedded(y)) => law_type_eq_symmetric(x, y),
            (InterfaceElem::TypeTerm(x), InterfaceElem::TypeTerm(y)) => lemma_terms_symm(x.terms@, y.terms@),
            _ => {},
        }
        lemma_elems_symm(a.skip(1), b.skip(1));
    }
}

/// `terms_eq` is symmetric.
pub proof fn lemma_terms_symm(a: Seq<TypeTermElem>, b: Seq<TypeTermElem>)
    requires
        terms_eq(a, b),
    ensures
        terms_eq(b, a),
    decreases a, 1nat,
{
    if a.len() > 0 {
        law_type_eq_symmetric(a[0].ty, b[0].ty);
        lemma_terms_symm(a.skip(1), b.skip(1));
    }
}

/// `fields_eq` is symmetric.
pub proof fn lemma_fields_symm(a: Seq<FieldDecl>, b: Seq<FieldDecl>)
    requires
        fields_eq(a, b),
    ensures
        fields_eq(b, a),
    decreases a, 1nat,
{
    if a.len() > 0 {
        match (a[0], b[0]) {
            (FieldDecl::Named { names: na, ty: ta, .. }, FieldDecl::Named { names: nb, ty: tb, .. }) => {
                assert forall|i: int| 0 <= i < nb@.len() implies #[trigger] nb@[i].name@ == na@[i].name@ by {
                    assert(na@[i].name@ == nb@[i].name@);
                }
                law_type_eq_symmetric(ta, tb);
            },
            (FieldDecl::Embedded { ty: ta, .. }, FieldDecl::Embedded { ty: tb, .. }) => law_type_eq_symmetric(ta, tb),
            _ => {},
        }
        lemma_fields_symm(a.skip(1), b.skip(1));
    }
}

/// `types_eq` is symmetric.
pub proof fn lemma_types_symm(a: Seq<TypeExpr>, b: Seq<TypeExpr>)
    requires
        types_eq(a, b),
    ensures
        types_eq(b, a),
    decreases a, 1nat,
{
    if a.len() > 0 {
        law_type_eq_symmetric(a[0], b[0]);
        lemma_types_symm(a.skip(1), b.skip(1));
    }
}


/// `spec_type_eq` is transitive.
pub proof fn law_type_eq_transitive(a: TypeExpr, b: TypeExpr, c: TypeExpr)
    requires
        spec_type_eq(a, b),
        spec_type_eq(b, c),
    ensures
        spec_type_eq(a, c),
    decreases a, 1nat,
{
    match (a, b, c) {
        (TypeExpr::Pointer(x), TypeExpr::Pointer(y), TypeExpr::Pointer(z)) => law_type_eq_transitive(*x, *y, *z),
        (TypeExpr::Array { elem: x, .. }, TypeExpr::Array { elem: y, .. }, TypeExpr::Array { elem: z, .. }) =>
            law_type_eq_transitive(*x, *y, *z),
        (TypeExpr::Slice(x), TypeExpr::Slice(y), TypeExpr::Slice(z)) => law_type_eq_transitive(*x, *y, *z),
        (
            TypeExpr::MapType { key: ka, value: va },
            TypeExpr::MapType { key: kb, value: vb },
            TypeExpr::MapType { key: kc, value: vc },
        ) => {
            law_type_eq_transitive(*ka, *kb, *kc);
            law_type_eq_transitive(*va, *vb, *vc);
        },
        (TypeExpr::Channel { elem: x, .. }, TypeExpr::Channel { elem: y, .. }, TypeExpr::Channel { elem: z, .. }) =>
            law_type_eq_transitive(*x, *y, *z),
        (TypeExpr::Func(fa), TypeExpr::Func(fb), TypeExpr::Func(fc)) => {
            lemma_params_trans(fa.params@, fb.params@, fc.params@);
            lemma_params_trans(fa.results@, fb.results@, fc.results@);
        },
        (TypeExpr::Interface(x), TypeExpr::Interface(y), TypeExpr::Interface(z)) => lemma_elems_trans(
            x.elements@,
            y.elements@,
            z.elements@,
        ),
        (TypeExpr::Struct(x), TypeExpr::Struct(y), TypeExpr::Struct(z)) => lemma_fields_trans(x.fields@, y.fields@, z.fields@),
        (
            TypeExpr::Generic { base: ba, args: aa },
            TypeExpr::Generic { base: bb, args: ab },
            TypeExpr::Generic { base: bc, args: ac },
        ) => {
            law_type_eq_transitive(*ba, *bb, *bc);
            lemma_types_trans(aa@, ab@, ac@);
        },
        _ => {},
    }
}

/// Entry-by-entry agreement with a parameter list's flattening chains.
proof fn lemma_flat_trans(ps: Seq<ParamDecl>, fb: Seq<(TypeExpr, bool)>, fc: Seq<(TypeExpr, bool)>)
    requires
        flat_eq(flatten(ps), fb),
        flat_eq(fb, fc),
    ensures
        flat_eq(flatten(ps), fc),
    decreases ps, 0nat,
{
    if ps.len() > 0 {
        let p = ps[0];
        let n = param_count(p) as int;
        let f = flatten(ps);
        let fr = flatten(ps.skip(1));
        assert(f == chunk(p) + fr);
        let tb = fb.skip(n);
        let tc = fc.skip(n);
        assert forall|i: int| 0 <= i < fr.len() implies spec_type_eq((#[trigger] fr[i]).0, tb[i].0) && fr[i].1 == tb[i].1 by {
            assert(f[i + n] == fr[i]);
            assert(tb[i] == fb[i + n]);
        }
        assert forall|i: int| 0 <= i < tb.len() implies spec_type_eq((#[trigger] tb[i]).0, tc[i].0) && tb[i].1 == tc[i].1 by {
            assert(tb[i] == fb[i + n]);
            assert(tc[i] == fc[i + n]);
        }
        lemma_flat_trans(ps.skip(1), tb, tc);
        assert forall|i: int| 0 <= i < f.len() implies spec_type_eq((#[trigger] f[i]).0, fc[i].0) && f[i].1 == fc[i].1 by {
            if i < n {
                assert(f[i] == (p.ty, p.variadic));
                law_type_eq_transitive(p.ty, fb[i].0, fc[i].0);
            } else {
                assert(f[i] == fr[i - n]);
                assert(tc[i - n] == fc[i]);
            }
        }
    }
}

/// Parameter-list matching chains.
pub proof fn lemma_params_trans(ps: Seq<ParamDecl>, qs: Seq<ParamDecl>, rs: Seq<ParamDecl>)
    requires
        params_flat_eq(ps, flatten(qs)),
        params_flat_eq(qs, flatten(rs)),
    ensures
        params_flat_eq(ps, flatten(rs)),
    decreases ps, 2nat,
{
    lemma_params_flat_iff(ps, flatten(qs));
    lemma_params_flat_iff(qs, flatten(rs));
    lemma_flat_trans(ps, flatten(qs), flatten(rs));
    lemma_params_flat_iff(ps, flatten(rs));
}

/// `elems_eq` is transitive.
pub proof fn lemma_elems_trans(a: Seq<InterfaceElem>, b: Seq<InterfaceElem>, c: Seq<InterfaceElem>)
    requires
        elems_eq(a, b),
        elems_eq(b, c),
    ensures
        elems_eq(a, c),
    decreases a, 1nat,
{
    if a.len() > 0 {
        match (a[0], b[0], c[0]) {
            (
                InterfaceElem::Method { ty: ta, .. },
                InterfaceElem::Method { ty: tb, .. },
                InterfaceElem::Method { ty: tc, .. },
            ) => {
                lemma_params_trans(ta.params@, tb.params@, tc.params@);
                lemma_params_trans(ta.results@, tb.results@, tc.results@);
            },
            (InterfaceElem::Embedded(x), InterfaceElem::Embedded(y), InterfaceElem::Embedded(z)) => law_type_eq_transitive(x, y, z),
            (InterfaceElem::TypeTerm(x), InterfaceElem::TypeTerm(y), InterfaceElem::TypeTerm(z)) => lemma_terms_trans(
                x.terms@,
                y.terms@,
                z.terms@,
            ),
            _ => {},
        }
        lemma_elems_trans(a.skip(1), b.skip(1), c.skip(1));
    }
}

/// `terms_eq` is transitive.
pub proof fn lemma_terms_trans(a: Seq<TypeTermElem>, b: Seq<TypeTermElem>, c: Seq<TypeTermElem>)
    requires
        terms_eq(a, b),
        terms_eq(b, c),
    ensures
        terms_eq(a, c),
    decreases a, 1nat,
{
    if a.len() > 0 {
        law_type_eq_transitive(a[0].ty, b[0].ty, c[0].ty);
        lemma_terms_trans(a.skip(1), b.skip(1), c.skip(1));
    }
}

/// `fields_eq` is transitive.
pub proof fn lemma_fields_trans(a: Seq<FieldDecl>, b: Seq<FieldDecl>, c: Seq<FieldDecl>)
    requires
        fields_eq(a, b),
        fields_eq(b, c),
    ensures
        fields_eq(a, c),
    decreases a, 1nat,
{
    if a.len() > 0 {
        match (a[0], b[0], c[0]) {
            (
                FieldDecl::Named { names: na, ty: ta, .. },
                FieldDecl::Named { names: nb, ty: tb, .. },
                FieldDecl::Named { names: nc, ty: tc, .. },
            ) => {
                assert forall|i: int| 0 <= i < na@.len() implies #[trigger] na@[i].name@ == nc@[i].name@ by {
                    assert(na@[i].name@ == nb@[i].name@);
                    assert(nb@[i].name@ == nc@[i].name@);
                }
                law_type_eq_transitive(ta, tb, tc);
            },
            (FieldDecl::Embedded { ty: ta, .. }, FieldDecl::Embedded { ty: tb, .. }, FieldDecl::Embedded { ty: tc, .. }) =>
                law_type_eq_transitive(ta, tb, tc),
            _ => {},
        }
        lemma_fields_trans(a.skip(1), b.skip(1), c.skip(1));
    }
}

/// `types_eq` is transitive.
pub proof fn lemma_types_trans(a: Seq<TypeExpr>, b: Seq<TypeExpr>, c: Seq<TypeExpr>)
    requires
        types_eq(a, b),
        types_eq(b, c),
    ensures
        types_eq(a, c),
    decreases a, 1nat,
{
    if a.len() > 0 {
        law_type_eq_transitive(a[0], b[0], c[0]);
        lemma_types_trans(a.skip(1), b.skip(1), c.skip(1));
    }
}


/// `a` and `b` are the same type once spans are set aside: the same shape,
/// names, channel directions, `~` flags and variadic flags, and parameter
/// declarations with the same number of names. Array lengths, parameter names
/// and field tags are not compared either, so two types that differ only in
/// their spans are always related.
pub open spec fn eq_ignoring_spans(a: TypeExpr, b: TypeExpr) -> bool
    decreases a, 0nat,
{
    match (a, b) {
        (TypeExpr::Named(x), TypeExpr::Named(y)) => x.name@ == y.name@,
        (
            TypeExpr::Qualified { package: pa, name: na },
            TypeExpr::Qualified { package: pb, name: nb },
        ) => pa.name@ == pb.name@ && na.name@ == nb.name@,
        (TypeExpr::Pointer(x), TypeExpr::Pointer(y)) => eq_ignoring_spans(*x, *y),
        (TypeExpr::Array { elem: ea, .. }, TypeExpr::Array { elem: eb, .. }) => eq_ignoring_spans(*ea, *eb),
        (TypeExpr::Slice(x), TypeExpr::Slice(y)) => eq_ignoring_spans(*x, *y),
        (TypeExpr::MapType { key: ka, value: va }, TypeExpr::MapType { key: kb, value: vb }) =>
            eq_ignoring_spans(*ka, *kb) && eq_ignoring_spans(*va, *vb),
        (
            TypeExpr::Channel { direction: da, elem: ea },
            TypeExpr::Channel { direction: db, elem: eb },
        ) => da == db && eq_ignoring_spans(*ea, *eb),
        (TypeExpr::Func(fa), TypeExpr::Func(fb)) => params_ignoring_spans(fa.params@, fb.params@)
            && params_ignoring_spans(fa.results@, fb.results@),
        (TypeExpr::Interface(x), TypeExpr::Interface(y)) => elems_ignoring_spans(x.elements@, y.elements@),
        (TypeExpr::Struct(x), TypeExpr::Struct(y)) => fields_ignoring_spans(x.fields@, y.fields@),
        (TypeExpr::Generic { base: ba, args: aa }, TypeExpr::Generic { base: bb, args: ab }) =>
            eq_ignoring_spans(*ba, *bb) && types_ignoring_spans(aa@, ab@),
        _ => false,
    }
}

/// Parameter declarations related one by one, as `eq_ignoring_spans` says.
pub open spec fn params_ignoring_spans(a: Seq<ParamDecl>, b: Seq<ParamDecl>) -> bool
    decreases a, 0nat,
{
    if a.len() == 0 {
        b.len() == 0
    } else {
        b.len() > 0 && a[0].names@.len() == b[0].names@.len() && a[0].variadic == b[0].variadic
            && eq_ignoring_spans(a[0].ty, b[0].ty) && params_ignoring_spans(a.skip(1), b.skip(1))
    }
}

/// Interface elements related one by one, as `eq_ignoring_spans` says.
pub open spec fn elems_ignoring_spans(a: Seq<InterfaceElem>, b: Seq<InterfaceElem>) -> bool
    decreases a, 0nat,
{
    if a.len() == 0 {
        b.len() == 0
    } else {
        b.len() > 0 && match (a[0], b[0]) {
            (InterfaceElem::Method { name: na, ty: ta, .. }, InterfaceElem::Method { name: nb, ty: tb, .. }) => na.name@
                == nb.name@ && params_ignoring_spans(ta.params@, tb.params@) && params_ignoring_spans(
                ta.results@,
                tb.results@,
            ),
            (InterfaceElem::Embedded(x), InterfaceElem::Embedded(y)) => eq_ignoring_spans(x, y),
            (InterfaceElem::TypeTerm(x), InterfaceElem::TypeTerm(y)) => terms_ignoring_spans(x.terms@, y.terms@),
            _ => false,
        } && elems_ignoring_spans(a.skip(1), b.skip(1))
    }
}

/// Type terms related one by one, as `eq_ignoring_spans` says.
pub open spec fn terms_ignoring_spans(a: Seq<TypeTermElem>, b: Seq<TypeTermElem>) -> bool
    decreases a, 0nat,
{
    if a.len() == 0 {
        b.len() == 0
    } else {
        b.len() > 0 && a[0].tilde == b[0].tilde && eq_ignoring_spans(a[0].ty, b[0].ty) && terms_ignoring_spans(
            a.skip(1),
            b.skip(1),
        )
    }
}

/// Struct fields related one by one, as `eq_ignoring_spans` says.
pub open spec fn fields_ignoring_spans(a: Seq<FieldDecl>, b: Seq<FieldDecl>) -> bool
    decreases a, 0nat,
{
    if a.len() == 0 {
        b.len() == 0
    } else {
        b.len() > 0 && match (a[0], b[0]) {
            (FieldDecl::Named { names: na, ty: ta, .. }, FieldDecl::Named { names: nb, ty: tb, .. }) => names_eq(
                na@,
                nb@,
            ) && eq_ignoring_spans(ta, tb),
            (FieldDecl::Embedded { ty: ta, .. }, FieldDecl::Embedded { ty: tb, .. }) => eq_ignoring_spans(ta, tb),
            _ => false,
        } && fields_ignoring_spans(a.skip(1), b.skip(1))
    }
}

/// Type lists related one by one, as `eq_ignoring_spans` says.
pub open spec fn types_ignoring_spans(a: Seq<TypeExpr>, b: Seq<TypeExpr>) -> bool
    decreases a, 0nat,
{
    if a.len() == 0 {
        b.len() == 0
    } else {
        b.len() > 0 && eq_ignoring_spans(a[0], b[0]) && types_ignoring_spans(a.skip(1), b.skip(1))
    }
}

/// Types that differ only in their spans are `spec_type_eq`: in particular the
/// same named type written at two places of a file, and every type with itself.
pub proof fn law_type_eq_ignores_spans(a: TypeExpr, b: TypeExpr)
    requires
        eq_ignoring_spans(a, b),
    ensures
        spec_type_eq(a, b),
    decreases a, 0nat,
{
    match (a, b) {
        (TypeExpr::Pointer(x), TypeExpr::Pointer(y)) => law_type_eq_ignores_spans(*x, *y),
        (TypeExpr::Array { elem: x, .. }, TypeExpr::Array { elem: y, .. }) => law_type_eq_ignores_spans(*x, *y),
        (TypeExpr::Slice(x), TypeExpr::Slice(y)) => law_type_eq_ignores_spans(*x, *y),
        (TypeExpr::MapType { key: ka, value: va }, TypeExpr::MapType { key: kb, value: vb }) => {
            law_type_eq_ignores_spans(*ka, *kb);
            law_type_eq_ignores_spans(*va, *vb);
        },
        (TypeExpr::Channel { elem: x, .. }, TypeExpr::Channel { elem: y, .. }) => law_type_eq_ignores_spans(*x, *y),
        (TypeExpr::Func(fa), TypeExpr::Func(fb)) => {
            lemma_params_ignoring_spans(fa.params@, fb.params@);
            lemma_params_ignoring_spans(fa.results@, fb.results@);
        },
        (TypeExpr::Interface(x), TypeExpr::Interface(y)) => lemma_elems_ignoring_spans(x.elements@, y.elements@),
        (TypeExpr::Struct(x), TypeExpr::Struct(y)) => lemma_fields_ignoring_spans(x.fields@, y.fields@),
        (TypeExpr::Generic { base: ba, args: aa }, TypeExpr::Generic { base: bb, args: ab }) => {
            law_type_eq_ignores_spans(*ba, *bb);
            lemma_types_ignoring_spans(aa@, ab@);
        },
        _ => {},
    }
}

proof fn lemma_params_ignoring_spans(ps: Seq<ParamDecl>, qs: Seq<ParamDecl>)
    requires
        params_ignoring_spans(ps, qs),
    ensures
        params_flat_eq(ps, flatten(qs)),
    decreases ps, 0nat,
{
    if ps.len() > 0 {
        let p = ps[0];
        let q = qs[0];
        let n = param_count(q) as int;
        let f = flatten(qs);
        assert(f == chunk(q) + flatten(qs.skip(1)));
        assert(f.take(n) =~= chunk(q));
        assert(f.skip(n) =~= flatten(qs.skip(1)));
        law_type_eq_ignores_spans(p.ty, q.ty);
        lemma_all_match_iff(p.ty, p.variadic, f.take(n));
        lemma_params_ignoring_spans(ps.skip(1), qs.skip(1));
    }
}

proof fn lemma_elems_ignoring_spans(a: Seq<InterfaceElem>, b: Seq<InterfaceElem>)
    requires
        elems_ignoring_spans(a, b),
    ensures
        elems_eq(a, b),
    decreases a, 0nat,
{
    if a.len() > 0 {
        match (a[0], b[0]) {
            (InterfaceElem::Method { ty: ta, .. }, InterfaceElem::Method { ty: tb, .. }) => {
                lemma_params_ignoring_spans(ta.params@, tb.params@);
                lemma_params_ignoring_spans(ta.results@, tb.results@);
            },
            (InterfaceElem::Embedded(x), InterfaceElem::Embedded(y)) => law_type_eq_ignores_spans(x, y),
            (InterfaceElem::TypeTerm(x), InterfaceElem::TypeTerm(y)) => lemma_terms_ignoring_spans(x.terms@, y.terms@),
            _ => {},
        }
        lemma_elems_ignoring_spans(a.skip(1), b.skip(1));
    }
}

proof fn lemma_terms_ignoring_spans(a: Seq<TypeTermElem>, b: Seq<TypeTermElem>)
    requires
        terms_ignoring_spans(a, b),
    ensures
        terms_eq(a, b),
    decreases a, 0nat,
{
    if a.len() > 0 {
        law_type_eq_ignores_spans(a[0].ty, b[0].ty);
        lemma_terms_ignoring_spans(a.skip(1), b.skip(1));
    }
}

proof fn lemma_fields_ignoring_spans(a: Seq<FieldDecl>, b: Seq<FieldDecl>)
    requires
        fields_ignoring_spans(a, b),
    ensures
        fields_eq(a, b),
    decreases a, 0nat,
{
    if a.len() > 0 {
        match (a[0], b[0]) {
            (FieldDecl::Named { ty: ta, .. }, FieldDecl::Named { ty: tb, .. }) => law_type_eq_ignores_spans(ta, tb),
            (FieldDecl::Embedded { ty: ta, .. }, FieldDecl::Embedded { ty: tb, .. }) => law_type_eq_ignores_spans(ta, tb),
            _ => {},
        }
        lemma_fields_ignoring_spans(a.skip(1), b.skip(1));
    }
}

proof fn lemma_types_ignoring_spans(a: Seq<TypeExpr>, b: Seq<TypeExpr>)
    requires
        types_ignoring_spans(a, b),
    ensures
        types_eq(a, b),
    decreases a, 0nat,
{
    if a.len() > 0 {
        law_type_eq_ignores_spans(a[0], b[0]);
        lemma_types_ignoring_spans(a.skip(1), b.skip(1));
    }
}


/// Named types with different names are not `spec_type_eq`.
pub proof fn law_type_eq_named_differ(x: Ident, y: Ident)
    requires
        x.name@ != y.name@,
    ensures
        !spec_type_eq(TypeExpr::Named(x), TypeExpr::Named(y)),
{
}

/// A pointer to a type is never `spec_type_eq` to the type itself.
pub proof fn law_type_eq_pointer_differs(t: TypeExpr)
    ensures
        !spec_type_eq(TypeExpr::Pointer(Box::new(t)), t),
    decreases t,
{
    if let TypeExpr::Pointer(u) = t {
        law_type_eq_pointer_differs(*u);
    }
}


/// Type equality looks inside pointer, slice, array and channel types: two
/// such types are equal exactly when their element types are (array lengths
/// aside; channels also by direction).
pub proof fn law_type_eq_congruent(x: TypeExpr, y: TypeExpr, lx: Box<Expr>, ly: Box<Expr>, d: ChanDir)
    ensures
        spec_type_eq(TypeExpr::Pointer(Box::new(x)), TypeExpr::Pointer(Box::new(y))) == spec_type_eq(x, y),
        spec_type_eq(TypeExpr::Slice(Box::new(x)), TypeExpr::Slice(Box::new(y))) == spec_type_eq(x, y),
        spec_type_eq(
            TypeExpr::Array { len: lx, elem: Box::new(x) },
            TypeExpr::Array { len: ly, elem: Box::new(y) },
        ) == spec_type_eq(x, y),
        spec_type_eq(
            TypeExpr::Channel { direction: d, elem: Box::new(x) },
            TypeExpr::Channel { direction: d, elem: Box::new(y) },
        ) == spec_type_eq(x, y),
{
}

/// Map types are equal exactly when their key types and value types are.
pub proof fn law_type_eq_map_congruent(k1: TypeExpr, v1: TypeExpr, k2: TypeExpr, v2: TypeExpr)
    ensures
        spec_type_eq(
            TypeExpr::MapType { key: Box::new(k1), value: Box::new(v1) },
            TypeExpr::MapType { key: Box::new(k2), value: Box::new(v2) },
        ) == (spec_type_eq(k1, k2) && spec_type_eq(v1, v2)),
{
}

/// Slices, pointers and arrays of differently named types are different.
pub proof fn law_type_eq_elements_differ(x: Ident, y: Ident, lx: Box<Expr>, ly: Box<Expr>)
    requires
        x.name@ != y.name@,
    ensures
        !spec_type_eq(TypeExpr::Slice(Box::new(TypeExpr::Named(x))), TypeExpr::Slice(Box::new(TypeExpr::Named(y)))),
        !spec_type_eq(TypeExpr::Pointer(Box::new(TypeExpr::Named(x))), TypeExpr::Pointer(Box::new(TypeExpr::Named(y)))),
        !spec_type_eq(
            TypeExpr::Array { len: lx, elem: Box::new(TypeExpr::Named(x)) },
            TypeExpr::Array { len: ly, elem: Box::new(TypeExpr::Named(y)) },
        ),
{
    assert(!spec_type_eq(TypeExpr::Named(x), TypeExpr::Named(y)));
    law_type_eq_congruent(TypeExpr::Named(x), TypeExpr::Named(y), lx, ly, ChanDir::Both);
}


/// Type lists are equal exactly when they have the same length and equal
/// types at each position.
pub proof fn law_types_eq_pairwise(a: Seq<TypeExpr>, b: Seq<TypeExpr>)
    ensures
        types_eq(a, b) <==> (a.len() == b.len() && forall|i: int|
            0 <= i < a.len() ==> spec_type_eq(#[trigger] a[i], b[i])),
    decreases a.len(),
{
    if a.len() > 0 && b.len() > 0 {
        law_types_eq_pairwise(a.skip(1), b.skip(1));
        if a.len() == b.len() && forall|i: int| 0 <= i < a.len() ==> spec_type_eq(#[trigger] a[i], b[i]) {
            assert forall|i: int| 0 <= i < a.skip(1).len() implies spec_type_eq(
                #[trigger] a.skip(1)[i],
                b.skip(1)[i],
            ) by {
                assert(spec_type_eq(a[i + 1], b[i + 1]));
            }
            assert(spec_type_eq(a[0], b[0]));
        }
        if types_eq(a, b) {
            assert forall|i: int| 0 <= i < a.len() implies spec_type_eq(#[trigger] a[i], b[i]) by {
                if i > 0 {
                    assert(a.skip(1)[i - 1] == a[i]);
                    assert(b.skip(1)[i - 1] == b[i]);
                }
            }
        }
    }
}

/// Instantiated generic types are equal exactly when their base types are
/// and their type arguments are, one by one.
pub proof fn law_type_eq_generic_congruent(b1: TypeExpr, a1: Vec<TypeExpr>, b2: TypeExpr, a2: Vec<TypeExpr>)
    ensures
        spec_type_eq(
            TypeExpr::Generic { base: Box::new(b1), args: a1 },
            TypeExpr::Generic { base: Box::new(b2), args: a2 },
        ) <==> (spec_type_eq(b1, b2) && a1@.len() == a2@.len() && forall|i: int|
            0 <= i < a1@.len() ==> spec_type_eq(#[trigger] a1@[i], a2@[i])),
{
    law_types_eq_pairwise(a1@, a2@);
}

/// Qualified types are equal exactly when both the package and the type name
/// agree; a qualified type never equals a plain named one.
pub proof fn law_type_eq_qualified(p1: Ident, n1: Ident, p2: Ident, n2: Ident)
    ensures
        spec_type_eq(
            TypeExpr::Qualified { package: p1, name: n1 },
            TypeExpr::Qualified { package: p2, name: n2 },
        ) <==> (p1.name@ == p2.name@ && n1.name@ == n2.name@),
        !spec_type_eq(TypeExpr::Qualified { package: p1, name: n1 }, TypeExpr::Named(n2)),
{
}


/// Two signatures match exactly when, with each parameter taken once per
/// name, their parameter types agree position by position (variadic flags
/// included), and so do their result types; function types are equal exactly
/// when their signatures match.
pub proof fn law_signature_match_by_positions(a: FuncType, b: FuncType)
    ensures
        signature_match(a, b) <==> (flat_eq(flatten(a.params@), flatten(b.params@)) && flat_eq(
            flatten(a.results@),
            flatten(b.results@),
        )),
        spec_type_eq(TypeExpr::Func(a), TypeExpr::Func(b)) == signature_match(a, b),
{
    lemma_params_flat_iff(a.params@, flatten(b.params@));
    lemma_params_flat_iff(a.results@, flatten(b.results@));
}

} // verus!
