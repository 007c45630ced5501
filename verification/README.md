# omikuji_python

Python bindings for the Omikuji extreme multi-label classifier, with the
bindings' decision logic written in Verus and proved against its contracts.

- `src/features.rs` — sorting sparse feature vectors by feature index (a
  stable insertion sort) and accepting or refusing them before prediction,
  with the laws that preparation ignores input order and is idempotent.
- `src/predictions.rs` — default beam size and top-k, trimming of ranked
  predictions.
- `src/pool.rs` — worker-pool configuration and fork-aware reuse of a
  model's cached pool.
- `src/hyper_param.rs` — loss types, hyper-parameter sets built from keyword
  arguments, sub-parameter sets and defaults, and the plan of a training run.
- `app/lib.rs` — the PyO3 extension module `_omikuji`, which does the I/O,
  builds the thread pools and calls Omikuji with floating-point data.
- `tests/` — tests of the library on concrete values.
