# daedalusd

The core of a task-running daemon that drives LLM agents, written in Verus.

- `src/` is the verified library: the NDJSON protocol (parsing, validation,
  routing decisions), the agent loop as a state machine, the SSE decoder and
  the two provider stream readers, the tool catalog and its checks, the
  narrative reply contract, the pipeline and run-status machines, and the
  system-prompt sections.  Each public function states its result in its
  `ensures`; laws that span several functions are public proof functions.
- Calls into outside crates (serde_json, chrono) and into parts of std that
  Verus has no specification for go through small trusted wrappers whose
  contracts are documented where they are declared.
- `app/` is the daemon around the library: configuration, files, SQLite,
  HTTP and socket I/O, and the async loops that perform the actions the
  library decides.
- `tests/` exercises the library through its public interface.
