# luna

Front-end data structures of the Luna compiler, with their behaviour stated
as Verus contracts and proved.

- `src/` — the verified library: the flat AST and its S-expression dump,
  spans and source maps, lexer and lowering errors, HIR ids and typed index
  vectors, the name-resolution HIR and its printer, structural sameness of
  HIR trees and hash-consed expressions, candidate type layers, lexical scopes with lookup and
  resolution, lowering of syntax-tree expressions to HIR (with the HIR table
  and decimal literal parsing), the query engine and its cache, built-in
  functions and lang items, semantic types, and the sysroot layout.
- `tests/` — tests of the library on concrete values.
- `app/` — the driver: sysroot discovery on disk and loading of the source
  file.
