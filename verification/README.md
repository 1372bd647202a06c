# wasmer_js_tasks

Task scheduling, host execution and pipes for WebAssembly programs that run on a
pool of JavaScript workers, written and proved in Verus.

- `src/tasks/` holds the scheduler, its messages and their wire format, the
  sessions of host executions, the module cache and what a worker does with its
  messages.
- `src/pipes/` holds pipes, the bytes on their way through them, the shared pipe
  pool, and the transfer of pipes to a fork.
- `src/response.rs` is the layout of the buffer through which a waiting worker is
  answered; `src/host_exec.rs` and `src/runtime.rs` are the worker's side.
- `app/` connects the library to JavaScript: workers, shared buffers, promises
  and the traits of virtual files.

The library decides and never waits. `SchedulerState::execute` takes a message
and returns an action; `app/` carries it out and hands the outcome back. Values
of the JavaScript world are held by handle.

Proof functions whose names start with `law_` state what holds of the library as
a whole.
