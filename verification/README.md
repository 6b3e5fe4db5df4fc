# effekseer_reader

A parser for Effekseer particle effect files (`.efkefc`, `.efk`, `.efkmat`,
`.efkmodel`, NURBS curves and `.efkpkg` packages), verified with Verus.

Every parser is specified by a function from the input bytes to the value read
(or the error reported), and the executable code is proved to compute exactly
that. Floating-point fields are kept as their IEEE bit patterns.

## Layout

- `src/reader.rs`: the little-endian reader and the specification vocabulary
  (`PR`, `chain`, `sp_*` readers, `sp_repeat`).
- `src/parser/`: one module per format part; `parser/mod.rs` holds the
  `load_*` entry points, `efkefc.rs` the container and its EDIT chunk,
  `efkpkg.rs` package assembly.
- `src/types/`: the data types and their models.
- `src/eval/dynamic_equation.rs`: bytecode decoding and the xorshift source.
- `tests/`: tests on concrete inputs.
- `app/`: what the library leaves to ordinary Rust: error messages, decoding the
  JSON index of a package, and the floating-point evaluation of curves,
  easing, gradients and dynamic equations.

Properties that hold of every input (version checks, resource limits, the
shape of decoded equations and of assembled packages, ...) are stated as public
`lemma_*` proof functions next to the code they are about.
