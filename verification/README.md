# loc_cli

The logic of the `loc` command line: what its commands ask for, decide, report and print, written
in Verus and proved against the contracts that stand above each function.

- `src/` is the verified library. A command is one or more functions from plain values to plain
  values: arguments become a request (`cli`, `args`, `grammar`, `requests`), what was found becomes
  the next thing to do (`connect_flow`, `mount_flow`, `start_flow`, `search_flow`, `push_flow`,
  `undo_flow`, `hosted_flow`, `push`, `pull`, `providing`, `daemon`, `reconcile`, `hosted_state`),
  and what was done becomes a report (`diff`, `history`, `doctor`, `overview`, `printing`) or a
  failure (`failures`). The proof
  functions whose names begin with `law_` state what holds across functions; those in `read_back`
  and `grammar` say that what is written on a command line is read back from it, as that command
  alone. Functions on paths are told by a `PathStyle` how the machine writes them.
- `tests/` runs the compiled library.
- `app/` is ordinary Rust around it: clap, the terminal, files, processes, sockets, and a trait for
  the services of the workspace.
