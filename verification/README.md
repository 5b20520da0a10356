# lau-homotopy-type

A computational model of homotopy type theory written in Verus: intervals,
cubical types, paths, identity types, transport, homotopies, equivalences,
higher inductive types and compiler-verification helpers. Every executable
function in `src/` carries a contract that fixes its result and is proved.

Layout:

- `src/` — the verified library, one module per topic (`interval`, `cubical`,
  `path`, `identity`, `transport`, `homotopy`, `equivalence`, `hots`,
  `hott_compiler`), a small `text` module for decimal text, and `prelude`,
  which re-exports the public items.
- `tests/` — tests of the library on concrete values.
- `app/` — `linear_homotopy`, a floating-point interpolation built on
  nalgebra, kept outside the verified library.
