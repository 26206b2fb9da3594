//! Summaries of declarations for tool clients: query results and file
//! overviews, with positions, signatures and documentation.

use vstd::prelude::*;

use crate::ast::{ConstSpec, Expr, FuncDecl, MethodDecl, SourceFile, TopLevelDecl, TypeExpr, TypeSpec, VarSpec};
use crate::leaf::{Ident, spec_is_exported, literal_value};
use crate::printer::Printer;
use crate::printer_spec::{expr_text, receiver_text, signature_text, type_text};
use crate::resolver::{imports_ok, literal_ok};
use crate::span::Span;
use crate::selection::struct_span;

verus! {

/// A row can be turned into a 1-based line number.
pub open spec fn row_ok(sp: Span) -> bool {
    sp.start_row < usize::MAX && sp.end_row < usize::MAX
}

/// A struct definition's field list, when it has a source position, ends
/// after the first byte.
pub open spec fn struct_end_ok(t: TypeSpec) -> bool {
    match struct_span(t) {
        Some(sp) => sp.spec_is_synthetic() || sp.end_byte > 0,
        None => true,
    }
}

/// Every declaration of the file has rows that can be turned into 1-based
/// line numbers, and struct field lists with a source position that end after
/// the first byte.
pub open spec fn spans_fit(sf: SourceFile) -> bool {
    forall|i: int| 0 <= i < sf.decls@.len() ==> decl_rows_ok(#[trigger] sf.decls@[i])
}

/// The rows of a declaration can be turned into 1-based line numbers.
pub open spec fn decl_rows_ok(d: TopLevelDecl) -> bool {
    match d {
        TopLevelDecl::Func(f) => row_ok(f.span),
        TopLevelDecl::Method(m) => row_ok(m.span),
        TopLevelDecl::Type(specs) => forall|k: int|
            0 <= k < specs@.len() ==> row_ok(#[trigger] specs@[k].spec_span()) && struct_end_ok(specs@[k]),
        TopLevelDecl::Var(specs) => forall|k: int| 0 <= k < specs@.len() ==> row_ok(#[trigger] specs@[k].span),
        TopLevelDecl::Const(specs) => forall|k: int| 0 <= k < specs@.len() ==> row_ok(#[trigger] specs@[k].span),
    }
}

/// Whether every declaration of a file has rows that can be turned into
/// 1-based line numbers.
pub fn spans_fit_exec(sf: &SourceFile) -> (b: bool)
    ensures
        b == spans_fit(*sf),
{
    let mut i: usize = 0;
    while i < sf.decls.len()
        invariant
            i <= sf.decls@.len(),
            forall|j: int| 0 <= j < i ==> decl_rows_ok(#[trigger] sf.decls@[j]),
        decreases sf.decls@.len() - i,
    {
        let ok = match &sf.decls[i] {
            TopLevelDecl::Func(f) => f.span.start_row < usize::MAX && f.span.end_row < usize::MAX,
            TopLevelDecl::Method(m) => m.span.start_row < usize::MAX && m.span.end_row < usize::MAX,
            TopLevelDecl::Type(specs) => {
                let mut ok = true;
                let mut k: usize = 0;
                while k < specs.len()
                    invariant
                        k <= specs@.len(),
                        ok == forall|j: int| 0 <= j < k ==> row_ok(#[trigger] specs@[j].spec_span()) && struct_end_ok(specs@[j]),
                    decreases specs@.len() - k,
                {
                    let sp = specs[k].span();
                    let end_ok = match &specs[k] {
                        TypeSpec::Def { ty: TypeExpr::Struct(st), .. } => st.span.is_synthetic() || st.span.end_byte > 0,
                        _ => true,
                    };
                    proof {
                        assert(end_ok == struct_end_ok(specs@[k as int]));
                        assert(sp == specs@[k as int].spec_span());
                    }
                    let ghost old_ok = ok;
                    ok = ok && sp.start_row < usize::MAX && sp.end_row < usize::MAX && end_ok;
                    proof {
                        if !old_ok {
                            let j = choose|j: int| 0 <= j < k && !(row_ok(#[trigger] specs@[j].spec_span()) && struct_end_ok(specs@[j]));
                            assert(!(row_ok(specs@[j].spec_span()) && struct_end_ok(specs@[j])));
                        }
                        if ok {
                            assert forall|j: int| 0 <= j < k + 1 implies row_ok(#[trigger] specs@[j].spec_span()) && struct_end_ok(specs@[j]) by {
                                if j < k {
                                }
                            }
                        } else if old_ok {
                            assert(!(row_ok(specs@[k as int].spec_span()) && struct_end_ok(specs@[k as int])));
                        }
                    }
                    k = k + 1;
                }
                ok
            },
            TopLevelDecl::Var(specs) => {
                let mut ok = true;
                let mut k: usize = 0;
                while k < specs.len()
                    invariant
                        k <= specs@.len(),
                        ok == forall|j: int| 0 <= j < k ==> row_ok(#[trigger] specs@[j].span),
                    decreases specs@.len() - k,
                {
                    let sp = specs[k].span;
                    ok = ok && sp.start_row < usize::MAX && sp.end_row < usize::MAX;
                    k = k + 1;
                }
                ok
            },
            TopLevelDecl::Const(specs) => {
                let mut ok = true;
                let mut k: usize = 0;
                while k < specs.len()
                    invariant
                        k <= specs@.len(),
                        ok == forall|j: int| 0 <= j < k ==> row_ok(#[trigger] specs@[j].span),
                    decreases specs@.len() - k,
                {
                    let sp = specs[k].span;
                    ok = ok && sp.start_row < usize::MAX && sp.end_row < usize::MAX;
                    k = k + 1;
                }
                ok
            },
        };
        if !ok {
            return false;
        }
        i = i + 1;
    }
    true
}

/// A copy of an optional string.
pub fn copy_opt(o: &Option<String>) -> (r: Option<String>)
    ensures
        r == *o,
{
    match o {
        Some(s) => Some(s.clone()),
        None => None,
    }
}

/// The text of a receiver inside its parentheses: `name type`, or the type.
pub fn format_receiver(m: &MethodDecl) -> (s: String)
    ensures
        s@ == receiver_text(*m),
{
    let t = Printer::type_expr(&m.receiver.ty);
    match &m.receiver.name {
        Some(n) => {
            let mut s = n.name.clone();
            s.append(" ");
            s.append(t.as_str());
            s
        },
        None => t,
    }
}

/// The kind word of a type specification: `struct`, `interface` or `type`.
pub open spec fn type_kind(t: TypeSpec) -> Seq<char> {
    match t.spec_ty() {
        TypeExpr::Struct(_) => "struct"@,
        TypeExpr::Interface(_) => "interface"@,
        _ => "type"@,
    }
}

/// The kind word of a type specification.
pub fn type_kind_exec(t: &TypeSpec) -> (s: String)
    ensures
        s@ == type_kind(*t),
{
    match t.ty() {
        TypeExpr::Struct(_) => "struct".to_string(),
        TypeExpr::Interface(_) => "interface".to_string(),
        _ => "type".to_string(),
    }
}

/// The signature shown for a function: `func Name(params) results`.
pub open spec fn func_sig_text(f: FuncDecl) -> Seq<char> {
    "func "@ + f.name.name@ + signature_text(f.ty)
}

/// The signature shown for a method: `func (recv) Name(params) results`.
pub open spec fn method_sig_text(m: MethodDecl) -> Seq<char> {
    "func ("@ + receiver_text(m) + ") "@ + m.name.name@ + signature_text(m.ty)
}

/// The signature shown for a type: `type Name T`.
pub open spec fn type_sig_text(t: TypeSpec) -> Seq<char> {
    "type "@ + t.spec_name().name@ + " "@ + type_text(t.spec_ty())
}

/// The signature shown for a function.
fn func_sig(f: &FuncDecl) -> (s: String)
    ensures
        s@ == func_sig_text(*f),
{
    let mut s = String::new();
    s.append("func ");
    s.append(f.name.name.as_str());
    let g = Printer::signature(&f.ty);
    s.append(g.as_str());
    s
}

/// The signature shown for a method.
fn method_sig(m: &MethodDecl) -> (s: String)
    ensures
        s@ == method_sig_text(*m),
{
    let mut s = String::new();
    s.append("func (");
    let r = format_receiver(m);
    s.append(r.as_str());
    s.append(") ");
    s.append(m.name.name.as_str());
    let g = Printer::signature(&m.ty);
    s.append(g.as_str());
    s
}

/// A declaration found by a query.
#[derive(Debug)]
pub struct QueryItem {
    pub name: String,
    pub kind: String,
    pub receiver: Option<String>,
    pub package: String,
    pub file: String,
    pub line: usize,
    pub end_line: usize,
    pub exported: bool,
    pub signature: String,
    pub doc: Option<String>,
}

impl QueryItem {
    /// The query item of a function declared in `file`.
    pub fn from_func(f: &FuncDecl, file: &str) -> (q: QueryItem)
        requires
            row_ok(f.span),
        ensures
            q.name@ == f.name.name@,
            q.kind@ == "function"@,
            q.receiver is None,
            q.package@ == Seq::<char>::empty(),
            q.file@ == file@,
            q.line == f.span.start_row + 1,
            q.end_line == f.span.end_row + 1,
            q.exported == spec_is_exported(f.name.name@),
            q.signature@ == func_sig_text(*f),
            q.doc == f.doc,
    {
        QueryItem {
            name: f.name.name.clone(),
            kind: "function".to_string(),
            receiver: None,
            package: String::new(),
            file: file.to_string(),
            line: f.span.start_row + 1,
            end_line: f.span.end_row + 1,
            exported: f.name.is_exported(),
            signature: func_sig(f),
            doc: copy_opt(&f.doc),
        }
    }

    /// The query item of a method declared in `file`.
    pub fn from_method(m: &MethodDecl, file: &str) -> (q: QueryItem)
        requires
            row_ok(m.span),
        ensures
            q.name@ == m.name.name@,
            q.kind@ == "method"@,
            q.receiver matches Some(r) && r@ == receiver_text(*m),
            q.package@ == Seq::<char>::empty(),
            q.file@ == file@,
            q.line == m.span.start_row + 1,
            q.end_line == m.span.end_row + 1,
            q.exported == spec_is_exported(m.name.name@),
            q.signature@ == method_sig_text(*m),
            q.doc == m.doc,
    {
        QueryItem {
            name: m.name.name.clone(),
            kind: "method".to_string(),
            receiver: Some(format_receiver(m)),
            package: String::new(),
            file: file.to_string(),
            line: m.span.start_row + 1,
            end_line: m.span.end_row + 1,
            exported: m.name.is_exported(),
            signature: method_sig(m),
            doc: copy_opt(&m.doc),
        }
    }

    /// The query item of a type specification declared in `file`.
    pub fn from_type_spec(t: &TypeSpec, file: &str) -> (q: QueryItem)
        requires
            row_ok(t.spec_span()),
        ensures
            q.name@ == t.spec_name().name@,
            q.kind@ == type_kind(*t),
            q.receiver is None,
            q.package@ == Seq::<char>::empty(),
            q.file@ == file@,
            q.line == t.spec_span().start_row + 1,
            q.end_line == t.spec_span().end_row + 1,
            q.exported == spec_is_exported(t.spec_name().name@),
            q.signature@ == type_sig_text(*t),
            q.doc is None,
    {
        let mut sig = String::new();
        sig.append("type ");
        sig.append(t.name().name.as_str());
        sig.append(" ");
        let ts = Printer::type_expr(t.ty());
        sig.append(ts.as_str());
        QueryItem {
            name: t.name().name.clone(),
            kind: type_kind_exec(t),
            receiver: None,
            package: String::new(),
            file: file.to_string(),
            line: t.span().start_row + 1,
            end_line: t.span().end_row + 1,
            exported: t.name().is_exported(),
            signature: sig,
            doc: None,
        }
    }

    /// The same item, in package `pkg`.
    pub fn with_package(self, pkg: &str) -> (q: QueryItem)
        ensures
            q.package@ == pkg@,
            q.name == self.name,
            q.kind == self.kind,
            q.receiver == self.receiver,
            q.file == self.file,
            q.line == self.line,
            q.end_line == self.end_line,
            q.exported == self.exported,
            q.signature == self.signature,
            q.doc == self.doc,
    {
        QueryItem { package: pkg.to_string(), ..self }
    }
}

/// A type declared in a file.
#[derive(Debug)]
pub struct TypeOverview {
    pub name: String,
    pub kind: String,
    pub line: usize,
    pub exported: bool,
    pub doc: Option<String>,
}

/// A function declared in a file.
#[derive(Debug)]
pub struct FunctionOverview {
    pub name: String,
    pub line: usize,
    pub signature: String,
    pub exported: bool,
    pub doc: Option<String>,
}

/// A method declared in a file.
#[derive(Debug)]
pub struct MethodOverview {
    pub name: String,
    pub receiver: String,
    pub line: usize,
    pub signature: String,
    pub exported: bool,
    pub doc: Option<String>,
}

/// A constant or variable declared in a file, with its value's text when it
/// has one.
#[derive(Debug)]
pub struct ValueOverview {
    pub name: String,
    pub line: usize,
    pub exported: bool,
    pub value: Option<String>,
}

/// The declarations of one file.
#[derive(Debug)]
pub struct FileOverview {
    pub package: String,
    pub file: String,
    pub imports: Vec<String>,
    pub types: Vec<TypeOverview>,
    pub functions: Vec<FunctionOverview>,
    pub methods: Vec<MethodOverview>,
    pub constants: Vec<ValueOverview>,
    pub variables: Vec<ValueOverview>,
}

/// View of a type overview: name, kind, line, exported.
pub type TypeV = (Seq<char>, Seq<char>, usize, bool);

/// View of a function overview: name, line, signature, exported, doc.
pub type FuncV = (Seq<char>, usize, Seq<char>, bool, Option<String>);

/// View of a method overview: name, receiver, line, signature, exported, doc.
pub type MethodV = (Seq<char>, Seq<char>, usize, Seq<char>, bool, Option<String>);

/// View of a value overview: name, line, exported, value text.
pub type ValueV = (Seq<char>, usize, bool, Option<Seq<char>>);

impl View for TypeOverview {
    type V = TypeV;

    open spec fn view(&self) -> TypeV {
        (self.name@, self.kind@, self.line, self.exported)
    }
}

impl View for FunctionOverview {
    type V = FuncV;

    open spec fn view(&self) -> FuncV {
        (self.name@, self.line, self.signature@, self.exported, self.doc)
    }
}

impl View for MethodOverview {
    type V = MethodV;

    open spec fn view(&self) -> MethodV {
        (self.name@, self.receiver@, self.line, self.signature@, self.exported, self.doc)
    }
}

impl View for ValueOverview {
    type V = ValueV;

    open spec fn view(&self) -> ValueV {
        (
            self.name@,
            self.line,
            self.exported,
            match self.value {
                Some(v) => Some(v@),
                None => None,
            },
        )
    }
}

/// The documentation kept in an overview.
pub open spec fn kept_doc(doc: Option<String>, include_docs: bool) -> Option<String> {
    if include_docs {
        doc
    } else {
        None
    }
}

/// The types of a file's declarations, in order.
pub open spec fn overview_types(ds: Seq<TopLevelDecl>) -> Seq<TypeV>
    decreases ds.len(),
{
    if ds.len() == 0 {
        Seq::empty()
    } else {
        overview_types(ds.drop_last()) + match ds.last() {
            TopLevelDecl::Type(specs) => specs@.map_values(
                |t: TypeSpec| (t.spec_name().name@, type_kind(t), (t.spec_span().start_row + 1) as usize, spec_is_exported(t.spec_name().name@)),
            ),
            _ => Seq::empty(),
        }
    }
}

/// The functions of a file's declarations, in order.
pub open spec fn overview_funcs(ds: Seq<TopLevelDecl>, include_docs: bool) -> Seq<FuncV>
    decreases ds.len(),
{
    if ds.len() == 0 {
        Seq::empty()
    } else {
        overview_funcs(ds.drop_last(), include_docs) + match ds.last() {
            TopLevelDecl::Func(f) => seq![
                (f.name.name@, (f.span.start_row + 1) as usize, func_sig_text(*f), spec_is_exported(f.name.name@), kept_doc(f.doc, include_docs)),
            ],
            _ => Seq::empty(),
        }
    }
}

/// The methods of a file's declarations, in order.
pub open spec fn overview_methods(ds: Seq<TopLevelDecl>, include_docs: bool) -> Seq<MethodV>
    decreases ds.len(),
{
    if ds.len() == 0 {
        Seq::empty()
    } else {
        overview_methods(ds.drop_last(), include_docs) + match ds.last() {
            TopLevelDecl::Method(m) => seq![
                (
                    m.name.name@,
                    receiver_text(*m),
                    (m.span.start_row + 1) as usize,
                    method_sig_text(*m),
                    spec_is_exported(m.name.name@),
                    kept_doc(m.doc, include_docs),
                ),
            ],
            _ => Seq::empty(),
        }
    }
}

/// One value per name: the name, the spec's line, whether exported, and the
/// text of the value at the same position, if any.
pub open spec fn named_values(names: Seq<Ident>, values: Seq<Expr>, span: Span) -> Seq<ValueV> {
    Seq::new(
        names.len(),
        |i: int|
            (
                names[i].name@,
                (span.start_row + 1) as usize,
                spec_is_exported(names[i].name@),
                if i < values.len() {
                    Some(expr_text(values[i]))
                } else {
                    None
                },
            ),
    )
}

/// The values of `const` specifications, in order.
pub open spec fn const_values(specs: Seq<ConstSpec>) -> Seq<ValueV>
    decreases specs.len(),
{
    if specs.len() == 0 {
        Seq::empty()
    } else {
        const_values(specs.drop_last()) + named_values(specs.last().names@, specs.last().values@, specs.last().span)
    }
}

/// The values of `var` specifications, in order.
pub open spec fn var_values(specs: Seq<VarSpec>) -> Seq<ValueV>
    decreases specs.len(),
{
    if specs.len() == 0 {
        Seq::empty()
    } else {
        var_values(specs.drop_last()) + named_values(specs.last().names@, specs.last().values@, specs.last().span)
    }
}

/// The constants of a file's declarations, in order.
pub open spec fn overview_consts(ds: Seq<TopLevelDecl>) -> Seq<ValueV>
    decreases ds.len(),
{
    if ds.len() == 0 {
        Seq::empty()
    } else {
        overview_consts(ds.drop_last()) + match ds.last() {
            TopLevelDecl::Const(specs) => const_values(specs@),
            _ => Seq::empty(),
        }
    }
}

/// The variables of a file's declarations, in order.
pub open spec fn overview_vars(ds: Seq<TopLevelDecl>) -> Seq<ValueV>
    decreases ds.len(),
{
    if ds.len() == 0 {
        Seq::empty()
    } else {
        overview_vars(ds.drop_last()) + match ds.last() {
            TopLevelDecl::Var(specs) => var_values(specs@),
            _ => Seq::empty(),
        }
    }
}

/// Appends the values of one `const` or `var` specification: one per name,
/// with the text of the value at the same position.
fn collect_values(names: &Vec<Ident>, values: &Vec<Expr>, span: Span, out: &mut Vec<ValueOverview>)
    requires
        span.start_row < usize::MAX,
    ensures
        final(out)@.map_values(|v: ValueOverview| v@) == old(out)@.map_values(|v: ValueOverview| v@)
            + named_values(names@, values@, span),
{
    let ghost o0 = out@.map_values(|v: ValueOverview| v@);
    let mut i: usize = 0;
    while i < names.len()
        invariant
            i <= names@.len(),
            span.start_row < usize::MAX,
            out@.map_values(|v: ValueOverview| v@) == o0 + named_values(names@, values@, span).take(i as int),
        decreases names@.len() - i,
    {
        let value = if i < values.len() {
            Some(Printer::expr(&values[i]))
        } else {
            None
        };
        let ghost before = out@.map_values(|v: ValueOverview| v@);
        out.push(
            ValueOverview {
                name: names[i].name.clone(),
                line: span.start_row + 1,
                exported: names[i].is_exported(),
                value,
            },
        );
        proof {
            assert(out@.map_values(|v: ValueOverview| v@) =~= before.push(out@.last()@));
            assert(named_values(names@, values@, span).take(i + 1) =~= named_values(names@, values@, span).take(
                i as int,
            ).push(named_values(names@, values@, span)[i as int]));
            assert(out@.map_values(|v: ValueOverview| v@) =~= o0 + named_values(names@, values@, span).take(i + 1));
        }
        i = i + 1;
    }
    proof {
        assert(named_values(names@, values@, span).take(i as int) =~= named_values(names@, values@, span));
    }
}

/// The import paths of a file, decoded.
pub open spec fn import_paths(sf: SourceFile) -> Seq<Seq<char>> {
    sf.imports@.map_values(|imp: crate::ast::ImportSpec| literal_value(imp.path.raw@))
}

/// The overview of a file: package, path, decoded import paths, and its
/// types, functions, methods, constants and variables in declaration order.
/// Documentation is kept only when `include_docs` is set.
pub fn build_file_overview(sf: &SourceFile, file_path: &str, include_docs: bool) -> (o: FileOverview)
    requires
        imports_ok(*sf),
        spans_fit(*sf),
    ensures
        o.package@ == sf.package.name@,
        o.file@ == file_path@,
        o.imports@.map_values(|s: String| s@) == import_paths(*sf),
        o.types@.map_values(|t: TypeOverview| t@) == overview_types(sf.decls@),
        forall|k: int| 0 <= k < o.types@.len() ==> (#[trigger] o.types@[k]).doc is None,
        o.functions@.map_values(|f: FunctionOverview| f@) == overview_funcs(sf.decls@, include_docs),
        o.methods@.map_values(|m: MethodOverview| m@) == overview_methods(sf.decls@, include_docs),
        o.constants@.map_values(|v: ValueOverview| v@) == overview_consts(sf.decls@),
        o.variables@.map_values(|v: ValueOverview| v@) == overview_vars(sf.decls@),
{
    let mut imports: Vec<String> = Vec::new();
    let mut i: usize = 0;
    while i < sf.imports.len()
        invariant
            i <= sf.imports@.len(),
            imports_ok(*sf),
            imports@.map_values(|s: String| s@) == import_paths(*sf).take(i as int),
        decreases sf.imports@.len() - i,
    {
        proof {
            assert(literal_ok(sf.imports@[i as int].path));
        }
        let v = sf.imports[i].path.value();
        let ghost old_imports = imports@;
        let ghost vv = v@;
        imports.push(v);
        proof {
            assert(imports@ == old_imports.push(imports@.last()));
            assert(imports@.last()@ == vv);
            assert(old_imports.map_values(|s: String| s@) == import_paths(*sf).take(i as int));
            assert(imports@.map_values(|s: String| s@) =~= old_imports.map_values(|s: String| s@).push(vv));
            assert(import_paths(*sf).take(i + 1) =~= import_paths(*sf).take(i as int).push(vv));
        }
        i = i + 1;
    }
    proof {
        assert(import_paths(*sf).take(i as int) =~= import_paths(*sf));
    }
    let mut types: Vec<TypeOverview> = Vec::new();
    let mut functions: Vec<FunctionOverview> = Vec::new();
    let mut methods: Vec<MethodOverview> = Vec::new();
    let mut constants: Vec<ValueOverview> = Vec::new();
    let mut variables: Vec<ValueOverview> = Vec::new();
    let ds = &sf.decls;
    let mut j: usize = 0;
    while j < ds.len()
        invariant
            j <= ds@.len(),
            *ds == sf.decls,
            spans_fit(*sf),
            types@.map_values(|t: TypeOverview| t@) == overview_types(ds@.take(j as int)),
            forall|k: int| 0 <= k < types@.len() ==> (#[trigger] types@[k]).doc is None,
            functions@.map_values(|f: FunctionOverview| f@) == overview_funcs(ds@.take(j as int), include_docs),
            methods@.map_values(|m: MethodOverview| m@) == overview_methods(ds@.take(j as int), include_docs),
            constants@.map_values(|v: ValueOverview| v@) == overview_consts(ds@.take(j as int)),
            variables@.map_values(|v: ValueOverview| v@) == overview_vars(ds@.take(j as int)),
        decreases ds@.len() - j,
    {
        proof {
            assert(ds@.take(j + 1).drop_last() =~= ds@.take(j as int));
            assert(ds@.take(j + 1).last() == ds@[j as int]);
            assert(decl_rows_ok(ds@[j as int]));
        }
        let ghost t0 = types@.map_values(|t: TypeOverview| t@);
        let ghost f0 = functions@.map_values(|f: FunctionOverview| f@);
        let ghost m0 = methods@.map_values(|m: MethodOverview| m@);
        let ghost c0 = constants@.map_values(|v: ValueOverview| v@);
        let ghost v0 = variables@.map_values(|v: ValueOverview| v@);
        match &ds[j] {
            TopLevelDecl::Func(f) => {
                let doc = if include_docs {
                    copy_opt(&f.doc)
                } else {
                    None
                };
                functions.push(
                    FunctionOverview {
                        name: f.name.name.clone(),
                        line: f.span.start_row + 1,
                        signature: func_sig(f),
                        exported: f.name.is_exported(),
                        doc,
                    },
                );
                proof {
                    assert(functions@.map_values(|f: FunctionOverview| f@) =~= f0.push(functions@.last()@));
                    assert(types@.map_values(|t: TypeOverview| t@) =~= t0 + Seq::<TypeV>::empty());
                    assert(methods@.map_values(|m: MethodOverview| m@) =~= m0 + Seq::<MethodV>::empty());
                    assert(constants@.map_values(|v: ValueOverview| v@) =~= c0 + Seq::<ValueV>::empty());
                    assert(variables@.map_values(|v: ValueOverview| v@) =~= v0 + Seq::<ValueV>::empty());
                }
            },
            TopLevelDecl::Method(m) => {
                let doc = if include_docs {
                    copy_opt(&m.doc)
                } else {
                    None
                };
                methods.push(
                    MethodOverview {
                        name: m.name.name.clone(),
                        receiver: format_receiver(m),
                        line: m.span.start_row + 1,
                        signature: method_sig(m),
                        exported: m.name.is_exported(),
                        doc,
                    },
                );
                proof {
                    assert(methods@.map_values(|m: MethodOverview| m@) =~= m0.push(methods@.last()@));
                    assert(types@.map_values(|t: TypeOverview| t@) =~= t0 + Seq::<TypeV>::empty());
                    assert(functions@.map_values(|f: FunctionOverview| f@) =~= f0 + Seq::<FuncV>::empty());
                    assert(constants@.map_values(|v: ValueOverview| v@) =~= c0 + Seq::<ValueV>::empty());
                    assert(variables@.map_values(|v: ValueOverview| v@) =~= v0 + Seq::<ValueV>::empty());
                }
            },
            TopLevelDecl::Type(specs) => {
                let mut k: usize = 0;
                while k < specs.len()
                    invariant
                        k <= specs@.len(),
                        forall|q: int| 0 <= q < specs@.len() ==> row_ok(#[trigger] specs@[q].spec_span()),
                        forall|q: int| 0 <= q < types@.len() ==> (#[trigger] types@[q]).doc is None,
                        types@.map_values(|t: TypeOverview| t@) == t0 + specs@.take(k as int).map_values(
                            |t: TypeSpec| (t.spec_name().name@, type_kind(t), (t.spec_span().start_row + 1) as usize, spec_is_exported(t.spec_name().name@)),
                        ),
                    decreases specs@.len() - k,
                {
                    let ghost before = types@.map_values(|t: TypeOverview| t@);
                    proof {
                        assert(row_ok(specs@[k as int].spec_span()));
                    }
                    types.push(
                        TypeOverview {
                            name: specs[k].name().name.clone(),
                            kind: type_kind_exec(&specs[k]),
                            line: specs[k].span().start_row + 1,
                            exported: specs[k].name().is_exported(),
                            doc: None,
                        },
                    );
                    proof {
                        assert(types@.map_values(|t: TypeOverview| t@) =~= before.push(types@.last()@));
                        assert(specs@.take(k + 1).map_values(
                            |t: TypeSpec| (t.spec_name().name@, type_kind(t), (t.spec_span().start_row + 1) as usize, spec_is_exported(t.spec_name().name@)),
                        ) =~= specs@.take(k as int).map_values(
                            |t: TypeSpec| (t.spec_name().name@, type_kind(t), (t.spec_span().start_row + 1) as usize, spec_is_exported(t.spec_name().name@)),
                        ).push(types@.last()@));
                    }
                    k = k + 1;
                }
                proof {
                    assert(specs@.take(k as int) =~= specs@);
                    assert(functions@.map_values(|f: FunctionOverview| f@) =~= f0 + Seq::<FuncV>::empty());
                    assert(methods@.map_values(|m: MethodOverview| m@) =~= m0 + Seq::<MethodV>::empty());
                    assert(constants@.map_values(|v: ValueOverview| v@) =~= c0 + Seq::<ValueV>::empty());
                    assert(variables@.map_values(|v: ValueOverview| v@) =~= v0 + Seq::<ValueV>::empty());
                }
            },
            TopLevelDecl::Const(specs) => {
                let mut k: usize = 0;
                while k < specs.len()
                    invariant
                        k <= specs@.len(),
                        forall|q: int| 0 <= q < specs@.len() ==> row_ok(#[trigger] specs@[q].span),
                        constants@.map_values(|v: ValueOverview| v@) == c0 + const_values(specs@.take(k as int)),
                    decreases specs@.len() - k,
                {
                    proof {
                        assert(row_ok(specs@[k as int].span));
                        assert(specs@.take(k + 1).drop_last() =~= specs@.take(k as int));
                        assert(specs@.take(k + 1).last() == specs@[k as int]);
                    }
                    collect_values(&specs[k].names, &specs[k].values, specs[k].span, &mut constants);
                    proof {
                        assert(constants@.map_values(|v: ValueOverview| v@) =~= c0 + const_values(specs@.take(k + 1)));
                    }
                    k = k + 1;
                }
                proof {
                    assert(specs@.take(k as int) =~= specs@);
                    assert(types@.map_values(|t: TypeOverview| t@) =~= t0 + Seq::<TypeV>::empty());
                    assert(functions@.map_values(|f: FunctionOverview| f@) =~= f0 + Seq::<FuncV>::empty());
                    assert(methods@.map_values(|m: MethodOverview| m@) =~= m0 + Seq::<MethodV>::empty());
                    assert(variables@.map_values(|v: ValueOverview| v@) =~= v0 + Seq::<ValueV>::empty());
                }
            },
            TopLevelDecl::Var(specs) => {
                let mut k: usize = 0;
                while k < specs.len()
                    invariant
                        k <= specs@.len(),
                        forall|q: int| 0 <= q < specs@.len() ==> row_ok(#[trigger] specs@[q].span),
                        variables@.map_values(|v: ValueOverview| v@) == v0 + var_values(specs@.take(k as int)),
                    decreases specs@.len() - k,
                {
                    proof {
                        assert(row_ok(specs@[k as int].span));
                        assert(specs@.take(k + 1).drop_last() =~= specs@.take(k as int));
                        assert(specs@.take(k + 1).last() == specs@[k as int]);
                    }
                    collect_values(&specs[k].names, &specs[k].values, specs[k].span, &mut variables);
                    proof {
                        assert(variables@.map_values(|v: ValueOverview| v@) =~= v0 + var_values(specs@.take(k + 1)));
                    }
                    k = k + 1;
                }
                proof {
                    assert(specs@.take(k as int) =~= specs@);
                    assert(types@.map_values(|t: TypeOverview| t@) =~= t0 + Seq::<TypeV>::empty());
                    assert(functions@.map_values(|f: FunctionOverview| f@) =~= f0 + Seq::<FuncV>::empty());
                    assert(methods@.map_values(|m: MethodOverview| m@) =~= m0 + Seq::<MethodV>::empty());
                    assert(constants@.map_values(|v: ValueOverview| v@) =~= c0 + Seq::<ValueV>::empty());
                }
            },
        }
        j = j + 1;
    }
    proof {
        assert(ds@.take(j as int) =~= ds@);
    }
    FileOverview {
        package: sf.package.name.clone(),
        file: file_path.to_string(),
        imports,
        types,
        functions,
        methods,
        constants,
        variables,
    }
}

} // verus!
