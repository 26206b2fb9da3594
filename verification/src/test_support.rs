//! The printer's declaration output, for checks from outside the crate.

use vstd::prelude::*;

use crate::ast::{FuncDecl, MethodDecl};
use crate::printer::Printer;
use crate::printer_spec::{func_decl_text, method_decl_text};

verus! {

/// The Go text of a function declaration.
pub fn print_func_decl(f: &FuncDecl) -> (s: String)
    ensures
        s@ == func_decl_text(*f),
{
    Printer::func_decl(f)
}

/// The Go text of a method declaration.
pub fn print_method_decl(m: &MethodDecl) -> (s: String)
    ensures
        s@ == method_decl_text(*m),
{
    Printer::method_decl(m)
}

} // verus!
