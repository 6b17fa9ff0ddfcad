# auto_lsp

The verified core of a framework for language servers built on tree-sitter
grammars, written in Verus.

- `src/codegen`: from the entries of a grammar's `node-types.json` to a plan of
  the Rust types to generate (structs, enums, their fields and ids), with the
  naming of tokens, operator lists, inline rules and supertypes.
- `src/macros`: what the derive macros read of a type: the names inside
  `Vec<T>` and `Option<T>`, the fields and variants they accept, the paths of
  the core crate, and the trait implementations they emit by default.
- `src/ast`: ranges and their LSP form, node lookup by offset, parents and
  scopes, traversal of symbol trees, syntax-error collection, the stack that
  nests query captures, and the errors.
- `src/document.rs`: a text document over `texter` and its tree-sitter tree:
  creation (and parsing) in the negotiated encoding, edits that texter can
  apply and reparsing, offsets of LSP positions and ranges in the document's
  encoding.
- `src/document_symbols_builder.rs`: the ordered collection of document
  symbols that generated code fills.
- `src/server`: the decisions of the server: encodings, message dispatch,
  watched files, the file database and parser lookup.

`app/` holds what Verus does not see: token emission with `quote`, the `syn`
and `darling` front end, and the server's connection,
loop, files and thread pool.
