# qubit-command

Runs external commands with captured, bounded output, timeouts, cooperative
cancellation, process-tree termination and redacted diagnostics.

## Layout

- `src/` is the verified library. It holds the command model (`command`,
  `command_runner`, `command_run_options`), output capture (`capture`,
  `collector`, `helpers`), file preparation (`io_files`, `paths`), process
  termination (`terminator`, `stop`, `running`) and the error model with its
  diagnostics (`command_error*`, `diagnostics`, `debug_text`). Operations
  state their behaviour in `requires` / `ensures`; where they talk to the
  operating system (the child, the pipes, the file system) through a trait
  that app/ implements, the library records every call with its answer in
  a ghost record (`ManagedChildProcess`, `RecordedSource`, `RecordedSink`,
  `RecordedFileSystem`, `RecordedMonitor`, `RecordedHelpers`) and the
  contracts speak of that record. The laws
  that span operations are public proof functions beside the definitions
  they speak of. The cancellation flag and the trusted wrappers around
  qubit-redact are the places where less is stated; their doc comments say
  what.
- `app/` spawns processes, runs helper threads, opens files and sleeps. It
  drives the library's decision functions (`wait_for_event`,
  `stop_and_finalize`, `collect_output_results`, `finish_run`) and hands
  them plain values.
- `tests/` exercises the library on concrete values.

The library reaches `qubit-redact` for diagnostic redaction through a few
trusted wrappers whose doc comments say what is assumed of each call.
