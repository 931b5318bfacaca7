# zj_radar_pipe

Bounded sends for a status broadcast over `zellij pipe`.

A `zellij pipe` client is held until every plugin instance has consumed its message. This library
builds the argument vector of a send that limits itself: the client and a watchdog run in the same
shell, so a blocked client is reaped even when the process that started the send is gone.

- `src/` is the library, verified with Verus: the argument vector, the candidates for the shell that
  runs it, and the search among them, as a state machine that does no input or output of its own.
- `app/` answers that search from the environment and the file system of the host.
- `tests/` runs the library on concrete values.

What is trusted is in `src/host_path.rs`: `Path::join` and `Path::to_string_lossy` of the standard
library, on paths that the library itself never looks into.
