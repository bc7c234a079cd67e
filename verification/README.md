# validatorforge

The control plane of a Solana validator fleet: a node lifecycle state machine,
compensating deployment sagas, a resilience envelope (circuit breaker, token
bucket, bulkhead, bounded retries with equal-jitter backoff), health
classification, an ops advisor and the GraphQL surface's input checks.

## Layout

- `src/` — the library, verified with Verus. Every operation carries a
  `requires`/`ensures` contract over mathematical views (`Seq`, `Map`, `int`),
  and the properties that span operations are stated as public proof
  functions (`lemma_*`). The decisions of the asynchronous use-cases are state
  machines: `deploy::Deployment` decides each step of a deployment and
  `agent::ResilientNodeAgent` each attempt of a guarded agent call; the caller
  performs the I/O and feeds the outcome back.
- `tests/` — tests of the library on concrete values.
- `app/` — the node binary: command line, telemetry, the asynchronous ports
  and their adapters (simulated agent, in-memory and Postgres stores,
  broadcast event bus, language-model advisor), the GraphQL schema and the
  HTTP server. It drives the library's state machines.

Quantities the library counts in fixed point: skip rates in parts per
million, CPU load and rate-limiter tokens in thousandths, delays in
nanoseconds.
