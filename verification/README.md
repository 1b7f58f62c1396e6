# asyncritty

Runs a process on a Unix pseudoterminal and parses its output into an
Alacritty terminal model, using Tokio for asynchronous I/O.

- `src/` is the library, verified with Verus: terminal geometry and its kernel
  representation (`geometry`), the lifecycle shared by the loop and its handles
  (`lifecycle`), the coalescing of update notifications (`terminal`), the event
  queues (`event`), and the event loop's step function with its laws
  (`event_loop`).
- `app/` is the asynchronous driver around it: PTY creation and I/O, child
  processes, the Tokio channels and locks, the Alacritty terminal model, and the
  listener trait whose callbacks the loop awaits.
- `tests/` exercises the library on concrete values.
