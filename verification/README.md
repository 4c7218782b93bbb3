# cairn_server

The decision core of the Cairn controller server, written in Verus and proved against its
contracts.

- `src/controller/` — the event-sourced Controller workflow: authority records, the transition
  relation, recovery of a task stream, the command decisions that extend it, and the laws that
  relate them (recovery after an accepted command, idempotent replay, absorbing closed states,
  task ownership, current-V1-only streams), and the manager's checks of each effect against
  recovered state (including at-most-once projection of an effect's observations and the
  binding of a strategy completion to its run).
- `src/enrollment/` — the worker enrollment registry: the lifecycle facts, their projection and
  its invariant, redemption of one-shot authorities, lifecycle mutations, and the operator
  reports; SHA-256 and constant-time comparison come from `sha2` and `subtle`.
- `src/server/` — configuration validation and path resolution, the command line, the worker
  session and enrollment decisions, and deployment bootstrap endpoints.
- `src/supervisor/` — bounded process quantities and run classification of the supervised
  Intent Admission and Proposal Host processes, and the Candidate native-build workflow
  manager's decisions (scheduling, reconciliation, receipt folding, dispatch bindings), and the
  resolved runtime model policy.
- `src/app_api.rs`, `src/controller_workflow.rs` — the product API's view of a task and the
  business workflow, whose stages start in a fixed order and stop at the first failure.
- `app/` — the process around the library: argument and file handling, the event store, TLS
  listeners and sessions, certificate signing, and the supervised child processes.
- `tests/` — executable checks of the library on concrete values.
