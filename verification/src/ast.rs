//! The typed syntax tree of a Go source file: one Rust type per Go construct.

use vstd::prelude::*;

use crate::leaf::{FloatLit, Ident, ImaginaryLit, IntLit, RawStringLit, RuneLit, StringLit};
use crate::span::Span;

verus! {

/// Every Go type expression (named, pointer, slice, map, channel, func, etc.).
#[derive(Debug, PartialEq)]
pub enum TypeExpr {
    /// Simple named type, e.g. `int`, `MyStruct`.
    Named(Ident),
    /// Qualified type from another package, e.g. `fmt.Stringer`.
    Qualified { package: Ident, name: Ident },
    /// Pointer type, e.g. `*T`.
    Pointer(Box<TypeExpr>),
    /// Fixed-length array type, e.g. `[4]byte`.
    Array { len: Box<Expr>, elem: Box<TypeExpr> },
    /// Slice type, e.g. `[]string`.
    Slice(Box<TypeExpr>),
    /// Map type, e.g. `map[string]int`.
    MapType { key: Box<TypeExpr>, value: Box<TypeExpr> },
    /// Channel type with direction, e.g. `chan int`, `<-chan int`.
    Channel { direction: ChanDir, elem: Box<TypeExpr> },
    /// Function type, e.g. `func(int) error`.
    Func(FuncType),
    /// Interface type.
    Interface(InterfaceType),
    /// Struct type.
    Struct(StructType),
    /// Generic instantiation, e.g. `Map[string, int]`.
    Generic { base: Box<TypeExpr>, args: Vec<TypeExpr> },
}

/// The direction of a Go channel type.
#[derive(Debug, Clone, Copy, PartialEq, Eq)]
pub enum ChanDir {
    /// Bidirectional channel (`chan T`).
    Both,
    /// Receive-only channel (`<-chan T`).
    Recv,
    /// Send-only channel (`chan<- T`).
    Send,
}

/// Every Go expression.
#[derive(Debug, PartialEq)]
pub enum Expr {
    /// Simple identifier, e.g. `x`.
    Ident(Ident),
    /// Qualified identifier, e.g. `fmt.Println`.
    Qualified { package: Ident, name: Ident, span: Span },
    /// Integer literal.
    Int(IntLit),
    /// Floating-point literal.
    Float(FloatLit),
    /// Imaginary literal, e.g. `2i`.
    Imaginary(ImaginaryLit),
    /// Rune literal, e.g. `'a'`.
    Rune(RuneLit),
    /// Interpreted string literal.
    String(StringLit),
    /// Raw string literal.
    RawString(RawStringLit),
    /// Boolean `true`.
    True(Span),
    /// Boolean `false`.
    False(Span),
    /// The `nil` value.
    Nil(Span),
    /// The `iota` constant generator.
    Iota(Span),
    /// Composite literal, e.g. `Point{X: 1, Y: 2}`.
    Composite { ty: Box<TypeExpr>, elems: Vec<KeyedElem>, span: Span },
    /// Function literal (closure).
    FuncLit { ty: FuncType, body: Block, span: Span },
    /// Function or method call; `ellipsis` marks a variadic last argument.
    Call { func: Box<Expr>, type_args: Vec<TypeExpr>, args: Vec<Expr>, ellipsis: bool, span: Span },
    /// Field or method selector, e.g. `obj.Field`.
    Selector { operand: Box<Expr>, field: Ident, span: Span },
    /// Index expression, e.g. `a[i]`.
    Index { operand: Box<Expr>, index: Box<Expr>, span: Span },
    /// Slice expression, e.g. `a[low:high]` or `a[low:high:max]`.
    Slice {
        operand: Box<Expr>,
        low: Option<Box<Expr>>,
        high: Option<Box<Expr>>,
        max: Option<Box<Expr>>,
        span: Span,
    },
    /// Type assertion, e.g. `x.(T)`.
    TypeAssert { operand: Box<Expr>, ty: Box<TypeExpr>, span: Span },
    /// Unary operation, e.g. `!x`, `*p`, `&v`.
    Unary { op: UnaryOp, operand: Box<Expr>, span: Span },
    /// Binary operation, e.g. `a + b`.
    Binary { op: BinaryOp, left: Box<Expr>, right: Box<Expr>, span: Span },
    /// Parenthesized expression.
    Paren(Box<Expr>, Span),
}

/// An element of a composite literal, optionally keyed (`Key: Value`).
#[derive(Debug, PartialEq)]
pub struct KeyedElem {
    pub key: Option<Expr>,
    pub value: Expr,
    pub span: Span,
}

/// A Go unary operator.
#[derive(Debug, Clone, Copy, PartialEq, Eq)]
pub enum UnaryOp {
    Not,
    Neg,
    Pos,
    Deref,
    Addr,
    Recv,
    BitNot,
}

/// A Go binary operator.
#[derive(Debug, Clone, Copy, PartialEq, Eq)]
pub enum BinaryOp {
    Add,
    Sub,
    Mul,
    Div,
    Rem,
    And,
    Or,
    Xor,
    AndNot,
    Shl,
    Shr,
    LogAnd,
    LogOr,
    Eq,
    Ne,
    Lt,
    Le,
    Gt,
    Ge,
}

/// Every Go statement.
#[derive(Debug, PartialEq)]
pub enum Stmt {
    /// Bare block statement `{ ... }`.
    Block(Block),
    /// Expression statement.
    Expr(Expr, Span),
    /// Assignment statement, e.g. `a, b += 2, 3`.
    Assign { lhs: Vec<Expr>, op: AssignOp, rhs: Vec<Expr>, span: Span },
    /// Short variable declaration, e.g. `x := 1`.
    ShortVarDecl { names: Vec<Ident>, values: Vec<Expr>, span: Span },
    /// `var` declaration inside a function body, one or more specifications.
    VarDecl(Vec<VarSpec>, Span),
    /// `const` declaration inside a function body, one or more specifications.
    ConstDecl(Vec<ConstSpec>, Span),
    /// Increment statement, e.g. `x++`.
    Inc(Expr, Span),
    /// Decrement statement, e.g. `x--`.
    Dec(Expr, Span),
    /// Channel send statement, e.g. `ch <- v`.
    Send { channel: Expr, value: Expr, span: Span },
    /// Return statement.
    Return { values: Vec<Expr>, span: Span },
    /// `if` statement with optional init and else clause.
    If { init: Option<Box<Stmt>>, cond: Expr, body: Block, else_: Option<Box<Stmt>>, span: Span },
    /// C-style `for` loop.
    For {
        init: Option<Box<Stmt>>,
        cond: Option<Expr>,
        post: Option<Box<Stmt>>,
        body: Block,
        span: Span,
    },
    /// `for ... range` loop.
    ForRange {
        key: Option<Expr>,
        value: Option<Expr>,
        assign: RangeAssign,
        iterable: Box<Expr>,
        body: Block,
        span: Span,
    },
    /// Expression `switch` statement.
    Switch { init: Option<Box<Stmt>>, tag: Option<Expr>, cases: Vec<ExprCase>, span: Span },
    /// Type `switch` statement.
    TypeSwitch {
        init: Option<Box<Stmt>>,
        assign: TypeSwitchAssign,
        cases: Vec<TypeCase>,
        span: Span,
    },
    /// `select` statement.
    Select { cases: Vec<CommCase>, span: Span },
    /// `go` statement.
    Go(Expr, Span),
    /// `defer` statement.
    Defer(Expr, Span),
    /// `break` with optional label.
    Break(Option<Ident>, Span),
    /// `continue` with optional label.
    Continue(Option<Ident>, Span),
    /// `goto` statement.
    Goto(Ident, Span),
    /// `fallthrough` statement.
    Fallthrough(Span),
    /// Labeled statement, e.g. `Loop: for { ... }`.
    Labeled { label: Ident, body: Box<Stmt>, span: Span },
    /// Type declaration inside a function body, one or more specifications.
    TypeDecl(Vec<TypeSpec>, Span),
    /// Empty statement.
    Empty(Span),
}

/// A Go assignment operator.
#[derive(Debug, Clone, Copy, PartialEq, Eq)]
pub enum AssignOp {
    Assign,
    AddAssign,
    SubAssign,
    MulAssign,
    DivAssign,
    RemAssign,
    AndAssign,
    OrAssign,
    XorAssign,
    AndNotAssign,
    ShlAssign,
    ShrAssign,
}

/// The assignment mode in a `for ... range` loop.
#[derive(Debug, Clone, Copy, PartialEq, Eq)]
pub enum RangeAssign {
    /// Short variable declaration (`:=`).
    Define,
    /// Plain assignment (`=`).
    Assign,
    /// Bare `for range x` with no iteration variables.
    Bare,
}

/// A brace-delimited block of statements.
#[derive(Debug, PartialEq)]
pub struct Block {
    pub stmts: Vec<Stmt>,
    pub span: Span,
}

/// A `case` clause of an expression switch; no expressions means `default`.
#[derive(Debug, PartialEq)]
pub struct ExprCase {
    pub exprs: Vec<Expr>,
    pub body: Vec<Stmt>,
    pub span: Span,
}

/// A `case` clause of a type switch; no types means `default`.
#[derive(Debug, PartialEq)]
pub struct TypeCase {
    pub types: Vec<TypeExpr>,
    pub body: Vec<Stmt>,
    pub span: Span,
}

/// The guard of a type switch, e.g. `v := x.(type)`.
#[derive(Debug, PartialEq)]
pub struct TypeSwitchAssign {
    pub name: Option<Ident>,
    pub expr: Expr,
    pub span: Span,
}

/// A `case` clause of a `select` statement.
#[derive(Debug, PartialEq)]
pub enum CommCase {
    /// Send case, e.g. `case ch <- v:`.
    Send { stmt: Box<Stmt>, body: Vec<Stmt>, span: Span },
    /// Receive case, with an assignment or a bare receive expression.
    Recv { stmt: Option<Box<Stmt>>, recv_expr: Option<Box<Expr>>, body: Vec<Stmt>, span: Span },
    /// Default case.
    Default { body: Vec<Stmt>, span: Span },
}

/// A function signature: type parameters, parameters and results.
#[derive(Debug, PartialEq)]
pub struct FuncType {
    pub type_params: Vec<TypeParam>,
    pub params: Vec<ParamDecl>,
    pub results: Vec<ParamDecl>,
    pub span: Span,
}

/// A parameter declaration in a function signature.
#[derive(Debug, PartialEq)]
pub struct ParamDecl {
    pub names: Vec<Ident>,
    pub ty: TypeExpr,
    pub variadic: bool,
    pub span: Span,
}

/// A type parameter declaration, e.g. `[T any]`.
#[derive(Debug, PartialEq)]
pub struct TypeParam {
    pub names: Vec<Ident>,
    pub constraint: TypeExpr,
    pub span: Span,
}

/// A method receiver, e.g. `(s *Server)`.
#[derive(Debug, PartialEq)]
pub struct Receiver {
    pub name: Option<Ident>,
    pub type_params: Vec<TypeParam>,
    pub ty: TypeExpr,
    pub span: Span,
}

/// A top-level function declaration.
#[derive(Debug, PartialEq)]
pub struct FuncDecl {
    pub name: Ident,
    pub ty: FuncType,
    pub body: Option<Block>,
    pub doc: Option<String>,
    pub span: Span,
}

/// A method declaration (a function with a receiver).
#[derive(Debug, PartialEq)]
pub struct MethodDecl {
    pub receiver: Receiver,
    pub name: Ident,
    pub ty: FuncType,
    pub body: Option<Block>,
    pub doc: Option<String>,
    pub span: Span,
}

/// A Go struct type with its field declarations.
#[derive(Debug, PartialEq)]
pub struct StructType {
    pub fields: Vec<FieldDecl>,
    pub span: Span,
}

/// A field declaration within a struct type.
#[derive(Debug, PartialEq)]
pub enum FieldDecl {
    /// Named field(s), e.g. `X, Y int`.
    Named { names: Vec<Ident>, ty: TypeExpr, tag: Option<StringLit>, span: Span },
    /// Embedded field, e.g. `io.Reader`.
    Embedded { ty: TypeExpr, tag: Option<StringLit>, span: Span },
}

/// A Go interface type.
#[derive(Debug, PartialEq)]
pub struct InterfaceType {
    pub elements: Vec<InterfaceElem>,
    pub span: Span,
}

/// An element of an interface type.
#[derive(Debug, PartialEq)]
pub enum InterfaceElem {
    /// Method signature.
    Method { name: Ident, ty: FuncType, span: Span },
    /// Type constraint union, e.g. `~int | ~string`.
    TypeTerm(TypeTerm),
    /// Embedded interface.
    Embedded(TypeExpr),
}

/// A union of type constraint elements.
#[derive(Debug, PartialEq)]
pub struct TypeTerm {
    pub terms: Vec<TypeTermElem>,
    pub span: Span,
}

/// One element of a type constraint union; `tilde` marks `~T`.
#[derive(Debug, PartialEq)]
pub struct TypeTermElem {
    pub tilde: bool,
    pub ty: TypeExpr,
    pub span: Span,
}

/// A type specification: alias (`type A = B`) or definition (`type A B`).
#[derive(Debug, PartialEq)]
pub enum TypeSpec {
    Alias { name: Ident, type_params: Vec<TypeParam>, ty: TypeExpr, span: Span },
    Def { name: Ident, type_params: Vec<TypeParam>, ty: TypeExpr, span: Span },
}

/// A `var` specification.
#[derive(Debug, PartialEq)]
pub struct VarSpec {
    pub names: Vec<Ident>,
    pub ty: Option<TypeExpr>,
    pub values: Vec<Expr>,
    pub span: Span,
}

/// A `const` specification.
#[derive(Debug, PartialEq)]
pub struct ConstSpec {
    pub names: Vec<Ident>,
    pub ty: Option<TypeExpr>,
    pub values: Vec<Expr>,
    pub span: Span,
}

/// A single import specification.
#[derive(Debug, PartialEq)]
pub struct ImportSpec {
    pub alias: ImportAlias,
    pub path: StringLit,
    pub span: Span,
}

/// The alias form of an import.
#[derive(Debug, PartialEq)]
pub enum ImportAlias {
    /// No alias: the package name comes from the import path.
    Implicit,
    /// Dot import (`. "pkg"`).
    Dot,
    /// Blank import (`_ "pkg"`).
    Blank,
    /// Explicit alias.
    Named(Ident),
}

/// A complete Go source file.
#[derive(Debug, PartialEq)]
pub struct SourceFile {
    pub package: Ident,
    pub imports: Vec<ImportSpec>,
    pub decls: Vec<TopLevelDecl>,
    pub span: Span,
}

/// A top-level declaration.
#[derive(Debug, PartialEq)]
pub enum TopLevelDecl {
    Func(Box<FuncDecl>),
    Method(Box<MethodDecl>),
    Type(Vec<TypeSpec>),
    Var(Vec<VarSpec>),
    Const(Vec<ConstSpec>),
}

} // verus!
