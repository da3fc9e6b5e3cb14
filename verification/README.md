# uplog

A lightweight agent that tails log files, samples system metrics and ships
both, batched as JSON, to an HTTP endpoint.

- `src/` is the verified library: configuration checking and discovery
  (`config`), the batch buffer and its laws (`buffer`), the log tailer's
  state machine (`collectors::logs`), the metrics arithmetic
  (`collectors::metrics`), the shipper's batch, request and retry logic
  (`shipper::http`), error texts (`error`) and text helpers (`text`).
- `app/` is the program around it: command line, file and network I/O,
  the tokio tasks, the shared `Arc<Mutex<_>>` buffer, and the serde forms
  of the configuration and the payload.
- `tests/` exercises the library on concrete values.
