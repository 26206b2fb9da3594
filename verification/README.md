# go_analyzer

Analysis and rewriting of Go source code over a typed syntax tree, written in
Verus: the functions of the library under `src/` carry contracts that Verus
proves, except a handful of trusted wrappers around outside code, each marked
`#[verifier::external_body]` with a contract stated from that code's
documentation: the tree-sitter Go parser (`cst.rs`: `parse_go_cst`, and
`cst_of`, which copies its tree node for node), UTF-8 decoding (`cst.rs`,
`applied.rs`), the line diff and unified hunks of the `similar` crate
(`applied.rs`), `String::push`, `char::is_uppercase` and `char::from_u32`
(`text.rs`), and `str`'s `Debug` text (`edit_tool.rs`).

- `src/cst.rs`, `walker.rs` — tree-sitter's Go syntax tree as plain values,
  and its conversion into the library's syntax tree, specified node kind by
  node kind; parsing a file (`parse_and_walk`), a replacement function body
  (`parse_go_block`), and the syntax-error check (`parse_has_error`).
- `src/ast.rs`, `leaf.rs`, `span.rs`, `types.rs`, `construct.rs` — the syntax
  tree of Go, literal helpers (string escaping and unescaping), and
  constructors for generated code.
- `src/printer.rs`, `printer_spec.rs` — rendering of the tree as Go text,
  specified by spec functions over `Seq<char>`.
- `src/edit.rs`, `changes.rs`, `applied.rs` — byte-range edits, change sets,
  and their application to the files of a repository, with unified diffs.
- `src/repo.rs`, `selection.rs`, `resolver.rs` — a repository of parsed files
  and the fluent selection API (filters, renames, deletions, method lookup,
  interface satisfaction).
- `src/callgraph.rs`, `graph_tools.rs` — symbol table, call edges,
  reachability and dead code.
- `src/output.rs`, `query.rs`, `edit_tool.rs`, `describe.rs`, `state.rs` — the
  tool layer: query items, file and module overviews, edit requests and the
  server state.

Public proof functions named `law_*` state properties that relate several
functions (for example that `StringLit::value` undoes `StringLit::from_value`,
or that callers and callees mirror each other).

`app/` holds the program around the library: reading and writing files, the
command line and the MCP server.
