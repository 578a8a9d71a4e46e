# dkdc-lm

Lifecycle management for a local llama-server (llama.cpp) running in a tmux
session: start, stop, status, attach and logs, with built-in model presets.

- `src/` is the library, verified with Verus. The lifecycle operations are
  machines: given the outcome of the last piece of shell work, each answers
  with the next piece of work or its result. The library also builds the
  llama-server command line, resolves model presets, judges the health
  check and composes what the command line prints.
- `app/` is the `lm` program (also `dkdc-ai` when invoked under that name):
  argument parsing, the tmux and HTTP work (through `dkdc-sh` and
  `reqwest`), and printing.
- `tests/` exercises the library on concrete values.
