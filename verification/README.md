# tinyvec (verified core)

`ArrayVec<T, N>` is a vector stored inline in an array of capacity `N`, with
operations whose contracts Verus proves: `push`, `pop`, `remove`,
`swap_remove`, `drain` (over `Bound`s), `as_slice`, `to_vec`, and the
`Debug` text of an `ArrayVec<i32, N>`.

- `src/arrayvec.rs`: the type, its operations and the laws relating them.
- `src/etna.rs`: property checks over `ArrayVec`; each is proved to answer
  `Pass` on every input it does not discard.
- `src/runner.rs`, `src/json.rs`, `src/inputs.rs`: the deciding parts of the
  property runner (answer mapping, statistics, the `ETNA_CASES` setting, the
  JSON report line, input generation and mutation rules).
- `src/text.rs`: the calls into std's formatting, with their contracts.
- `app/`: the runner program, which drives proptest, quickcheck, crabcheck
  and hegel, and the `remove` property, which catches a panic.
