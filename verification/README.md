# solx-slang

The decision layer of a Solidity expression lowering to the Sol MLIR dialect, verified
with Verus.

The lowering walks a Solidity AST and emits Sol dialect operations. This crate holds the
choices that walk makes, as functions from the facts it reads off the AST (what a name
resolves to, the binder's types, the shape of a callee) to plans (which operation, with
which operand and result types, which conversions), each with a contract that states the
plan exactly:

- `mlir_type`, `slang_type`, `location`, `type_conversion`: the two type systems and the
  mapping between them, with the conversions between values.
- `expression`, `operator`, `logical`, `comparison`, `conditional`, `literal`: expressions.
- `call_kind`, `call_dispatch`, `call_options`, `external_call`, `library_call`,
  `new_expression`, `struct_construction`, `require`, `built_in`, `abi_decode`, `push`:
  calls and built-ins.
- `index_access`, `lvalue`, `storage`, `getter`, `member_reference`: places, storage and
  member references.
- `selector`, `type_introspection`: compile-time constants (selectors, event topics,
  `type(T).min` / `max`, interface identifiers); the Keccak-256 hash comes from the `sha3`
  crate behind one trusted wrapper.

`app/` converts the library's constants to `num_bigint` values and its errors to `anyhow`
errors for the MLIR-emitting side. `tests/` exercises the library on concrete inputs.
