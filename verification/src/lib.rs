//! Analysis and rewriting of Go source code over a typed syntax tree.

pub mod ast;
pub mod leaf;
pub mod span;
pub mod printer_spec;
pub mod printer;
pub mod text;
pub mod types;
pub mod construct;
pub use construct as build;
pub mod edit;
pub mod changes;
pub mod resolver;
pub mod repo;
pub mod selection;
pub mod applied;
pub mod callgraph;
pub mod output;
pub mod query;
pub mod graph_tools;
pub mod state;
pub mod edit_tool;
pub mod describe;
pub mod test_support;
pub mod cst;
pub mod walker;
