# toto

A reader for TOSCA documents (versions 1.3 and 2.0) that loads a document and
the documents it imports into one graph: source files, YAML nodes, TOSCA
entities and the relations between them, and every problem found, recorded as
an error node located at the YAML node (or file offset) that caused it.

The library is written in Verus. Every function in `src/` is verified against
its contract, except the small wrappers around `petgraph` (in `src/ast.rs`)
and `url` (in `src/parser.rs`), marked `#[verifier::external_body]`, whose
contracts are trusted: each states what the outside function does.

## Layout

- `src/ast.rs` — the graph (on `petgraph`), its well-formedness, and the ways
  nodes, edges and located errors are added.
- `src/yaml.rs` — plain YAML trees, their loading into the graph, and the
  accessors the grammar reads them by.
- `src/text.rs` — line and column arithmetic on text.
- `src/models.rs` — the TOSCA entities and relations.
- `src/grammar/` — the TOSCA grammar: which fields each kind of definition has
  and how each is read (`mod.rs`), plain values (`value.rs`), references
  (`field_ref.rs`), the engine that reads definitions field by field
  (`parse.rs`), what reading leaves in the graph (`outcome.rs`), what each
  step of reading a map or list adds, exactly (`steps.rs`), the YAML that
  reads without a single error (`valid.rs`), and the declared version and
  the dispatch on it (`parser.rs`).
- `src/parser.rs` — `ToscaParser`, which reads a main document and its
  imports. It does no I/O: it says which URL to read next and is resumed with
  what was read.
- `src/semantic.rs` — import resolution (`resolve_url`, `file_imports`) and
  `Scope`, which follows imports from a root directory.
- `app/lib.rs` — reading files from disk, parsing YAML text with `yaml-peg`,
  and driving the parser until it is done.
