# wasm-mutate peephole core, verified

The type analysis, the expression encoder and the constant-unfolding
mutation of the peephole mutator of wasm-mutate, with their behaviour
stated in Verus contracts and proved.

- `src/lang.rs`: the node language (one node kind per Wasm operator the
  mutator understands), and well-formedness of expressions.
- `src/types.rs`, `src/error.rs`: value and function types; errors.
- `src/analysis.rs`: the type of each node, the per-class data of the
  e-graph (`make`, `merge`).
- `src/encoder.rs`: encoding an expression back to Wasm instructions, as a
  deterministic plan (modelled step by step, and proved equal to the
  recursive encoding: operands in order, then the node's own step) realized
  with random constants, one per rand node.
- `src/unfold_constant.rs`: the mutation `c` => `r + (c - r)`.
- `src/locals.rs`: reading the local declarations of a function body with
  wasmparser's binary reader.
- `src/rng.rs`: the random generator (`rand`'s `SmallRng`).
- `app/`: the glue to egg (language and `Analysis` impl), wasm-encoder and
  wasmparser's operator reader.
