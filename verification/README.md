# shreduler

The verified core of a Ruby fiber scheduler (Ruby's `Fiber::Scheduler`
interface) that runs fibers' blocking operations on tokio.

- `src/` is the library, verified with Verus: the run-time borrow checks of
  the scheduler's shared cells (`gc_cell`), fiber handles and their states
  (`fiber`), the blocked fibers and what `block` / `unblock` do to them
  (`blockers`, `scheduler`), the decisions of the event loop and of resuming
  a fiber (`fiber_future`), I/O events and readiness (`interest`), transfer
  sizes and results (`io_plan`), hostname handling (`address_resolve`), the
  kind of I/O object behind a Ruby I/O object (`ruby_io`), process waits
  (`process_wait`), and timeouts (`timeout_duration`).
- `app/` is the Ruby extension around it: magnus and rb-sys for Ruby's C API,
  tokio for the runtime, sockets, files, timers and signals.
- `tests/` runs the library on concrete values.
