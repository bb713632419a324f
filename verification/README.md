# qubit-cas

Compare-and-swap retry execution over a shared `qubit_atomic::AtomicRef`,
with typed decisions, structured errors and per-execution reports.

## Layout

- `src/` is the verified library (Verus). It holds the decision and result
  types, the application of one decision to the shared slot, the retry
  verdicts for failed attempts, the projection of a stopped retry flow onto a
  `CasError` (termination, error kind, retained failure, diagnostics, text),
  the report accumulator and its finalization, the executor configuration and
  its validation, and `laws.rs`, the properties that span several functions.
  Calls into `qubit_atomic` and `qubit_retry` stand behind a few trusted
  declarations, each documented where it is declared.
- `app/` is ordinary Rust around the library: the blocking and tokio retry
  loops of `qubit_retry`, listener dispatch under a listener panic policy,
  floating-point backoff, jitter and contention ratios, strategy presets, and
  a type-erased error.
- `tests/` exercises the library through its public API.
