# sanctum

A local inference runtime for Apple Silicon hosts, with its decisions,
parsers and state machines verified by Verus.

- `src/` is the verified library. Its functions carry `requires`/`ensures`
  contracts that Verus proves from their bodies, except the small trusted
  wrappers around outside calls, whose contracts are assumed; the laws the
  library keeps across calls are public proof functions (`lemma_*`).
  - `migration/`: the Thunderbolt storage migration — link and TRIM report
    parsing, root validation, the rsync invocation, manifest comparison,
    the stage machine of the cutover record, rollback and failover
    decisions, and the step-by-step cutover driver.
  - `darwin/`: page geometry, shared-buffer budgeting, memory-pressure
    levels, sysctl payloads and the error messages of the host bindings.
  - `api.rs`, `agent.rs`, `benchmark.rs`: the OpenAI/Anthropic gateway's
    request plans and stream events, the command line and agent launch,
    the host probe and backend probe steps.
  - `registry.rs`, `tui.rs`, and the small validated types of the runtime.
- `app/` is the `sanctum` program: HTTP serving, processes, files, the
  terminal dashboard and the macOS kernel bindings. It performs the outside
  work the library's step functions ask for and hands the results back.
- `tests/` exercises the library on concrete values.

Calls into outside crates (`sha2`, `plist`) and a few std conversions sit
behind small trusted wrappers whose doc comments say what is assumed of
them.
