# pm

A manager of child processes. Commands are registered under a handle, started, signalled,
watched and removed.

- `src/` is the verified library: the commands (`command`, `environment`, `process`), the handles,
  states and errors (`pid`, `status`, `error`), the manager itself as a machine that takes one
  request after the other (`table`, `manager`), what its users ask and make of the answers
  (`client`, `output`, `signal`), and what holds of all of it (`laws`).
- `app/` runs the manager: channels, spawning, signalling, waiting.
- `tests/` runs the library.
