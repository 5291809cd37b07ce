# bpaf_unsynn

Derive logic for the [bpaf](https://docs.rs/bpaf) command line parser, verified
with Verus. The library reads the token trees of a struct or enum annotated with
`#[bpaf(...)]` and writes the Rust code of its parser: an inherent impl with the
parser function, and a free function named after the type in snake case.

Layout:

- `src/tokens.rs`: the token tree model and its text.
- `src/grammar.rs`: attribute items, outer attributes, visibility and field types.
- `src/attrs.rs`, `src/mode.rs`, `src/top.rs`: field, variant and item attributes,
  doc comments, and the whole annotated item (`Top::parse`).
- `src/emit.rs`: the generated code (`Top::to_code`, `derive_code`), with laws on it.
- `src/case.rs`: identifier case conversion, with its laws.
- `src/literal.rs`: string and character literals, with their escapes.
- `src/help.rs`, `src/usage.rs`: help text, and usage lines built by a visitor.
- `app/lib.rs`: the derive entry point over `proc_macro2` token streams.

Each function's contract states its result over specification functions, and
Verus proves the code against it.
