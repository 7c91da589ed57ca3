# tauri_python_sidecar

The supervision layer of a desktop application that keeps a Python sidecar beside
it: where the sidecar lives and how it is started, how requests reach it, how it
and other processes are watched and restarted with a capped backoff, and what is
cleared away after a crash and at exit.

* `src/` is the library, verified with Verus. It decides and touches nothing: each
  course of events is a state machine that hands out actions and takes replies.
  Its functions state what they return for every input, and the `law_` functions
  prove what holds across them. What it takes from `serde_json` and from the
  standard library without proof stands in `json.rs`, `numbers.rs` and
  `restart.rs`, each item with what is claimed of it.
* `app/` is the application around it: it performs the actions, on the disk, the
  network and other processes, and hands the replies back.
* `tests/` runs the library on concrete values.
