# aer_core

Process execution and lifecycle supervision with deterministic events.

- `src/` is the verified library. `machine` holds the lifecycle state machine
  (`Created -> Running -> Exited`), `event` the events a run emits,
  `execution` the decisions of one run (when to kill the process tree, which
  events to deliver, in which
  order, with which exit code, and the run's result), `task` the task
  description, `ffi` the decisions of the C interface (handles that run once,
  error codes, event fields, last-error text), `kill` the outcome of kill
  escalation, `decimal` the decimal notation used in event descriptions, and
  `error` the error type and its messages.
- `app/` performs the OS work around it: spawning with piped output, draining
  pipes, waiting, the timeout and cancellation monitor, killing the process
  tree (a process group via `libc` on Unix, a job object via `windows-sys` on
  Windows) and the `extern "C"`
  functions.
- `tests/` exercises the library on concrete values.
