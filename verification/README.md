# nom_wasm

A parser for the WebAssembly binary format whose parsers are verified with Verus: each one states,
as a contract over the bytes it reads, exactly which value it returns and how much input it
consumes, or which error it reports and where.

## Layout

- `src/` — the verified library. Every parser is generic over the error type (`ErrorSource`):
  `Error` keeps where parsing first failed, `VerboseError` also records the causes that enclosing
  parsers add.
  - `leb128.rs`, `values.rs`, `index.rs`: *LEB128* integers, names, vector lengths, fixed-width
    constants and indices.
  - `types.rs`: value, block, reference, table, memory, global, tag and function types.
  - `section.rs`: sections and sequences of sections.
  - `module/`: the preamble, custom, type and import sections, the order of module sections,
    and whole modules. The functions that hand sections to closures state which sections each
    closure is handed, in order, when they succeed.
  - `isa/`: opcodes, memory arguments, instructions with their immediates, expressions, and the
    `ParseInstr` trait that receives each kind of instruction. What an implementation does with
    an instruction is its own `ParseInstr::spec_receives` (by default: it refuses it), and each
    method it does not override hands its instruction to the one it must write,
    `ParseInstr::unrecognized`. The instruction and expression parsers state which instruction,
    with which immediates, the implementation receives, and that the result reports its own
    answer. `ParseExpr` and `parse_expr` work the same way, through `ParseExpr::spec_takes`.
  - `ordering.rs`: checking that items arrive in strictly ascending order.
  - `error.rs`, `input.rs`, `storage.rs`: error types, parser input, and vector storage.
- `tests/` — tests of the library on concrete inputs.
- `app/` — the adapters to the `nom` parser combinator library and human readable error messages.
