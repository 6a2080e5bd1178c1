# avap_isa

The AVAP instruction set for the Platon virtual machine kernel, written in
Verus. Each instruction handler has a contract that equates its result (the
state, the instruction pointer and what it hands back) with a spec function,
and Verus proves each handler against it. One input is left out by
`requires`: `list()` of an iterator positioned past its end (`can_step`
decides it). Integer arithmetic wraps around in `i64`.

Layout:

- `src/value.rs`, `src/access.rs`, `src/repr.rs`, `src/text.rs`, `src/strings.rs`:
  runtime values, their model (`Val`) and semantics (truthiness, equality,
  indexing, membership, text form).
- `src/state.rs`: the machine state (`VMState`) and its model (`VState`).
- `src/arith.rs`, `src/builtins.rs`: arithmetic, comparison, builtin functions
  and methods.
- `src/handlers.rs`, `src/flow.rs`, `src/objects.rs`, `src/calls.rs`: the
  instruction handlers.
- `src/isa.rs`: the opcode table, `execute`, `can_step` and `AvapISA`.
- `src/laws.rs`: properties across instructions (read after write, connector
  routing, short-circuit jumps, comparisons, wrapping, the opcode table).
- `app/lib.rs`: the Python extension module, the `CALL_EXT` call into Python,
  and the float work that the library hands to its host.

The value and state semantics are this crate's own definitions: the kernel
crate that such an instruction set plugs into is not a dependency here. They
are: `null`/`bool`/`int`/`float`/`string`/`list`/`dict`/`iterator` as type
names; null, `false`, zero, the empty string, list and dictionary are falsy;
equality compares kinds and contents, floats by IEEE-754 equality; `in` on a
string is substring search; indexing counts negative positions from the end;
the text form writes `None`, `True`, `False`, decimal integers, strings as they
are, `[a, b]` and `{k: v}`; a truncated operand fails with
`read_u32: operand runs past the end of the code`; the instruction set counts
56 opcodes (the 55 handlers and `HALT`). Namespaces (globals, the connector's
variables and results) hold each key once and keep keys in the order they were
first bound, so `keys` lists them in that order.

Floats are held by their IEEE-754 bits. The library decides everything that
does not need float arithmetic; an instruction that needs it returns
`Effect::Float` (or `Effect::Text` for text with floats in it), and the host
finishes it with `VMState::resume_float` (or `resume_text`).
