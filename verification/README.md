# flaglet

Typed bitflags from plain enums, verified with Verus.

- `src/expr.rs`: discriminant expressions (`1 << N` and integer literals) and their evaluation.
- `src/expand.rs`: validation of the annotated enum, the variants' values, their mask,
  the backing type and the names of the generated items.
- `src/docs.rs`: the doc comments of the generated items.
- `src/flagset.rs`: `Flag` and `FlagSet`, the behaviour of the generated enum and flag-set types.
- `src/bits.rs`, `src/laws.rs`: bit-level facts and the properties the API promises.
- `app/lib.rs`: the token side of the attribute: reading the item with syn, writing the
  generated items with quote.
