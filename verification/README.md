# grm

A GitHub releases manager: it tracks projects, picks releases and assets
(by hand or with a per-project asset pattern), follows downloads on job cards,
and runs post-download tasks (Nushell scripts) in order.

- `src/` is the library, verified with Verus: the window's state machine
  (`session`), job cards (`jobs`), the task registry (`registry`), pipeline
  runs (`pipeline`), the manifest model (`manifest`), release selection
  (`github`), asset patterns over the `regex` crate (`pattern`), download
  progress (`download`), the worker command line (`worker`) and text helpers
  (`text`).
- `app/` is the program around it: the egui window, HTTP requests, files,
  processes and the Nushell engine.
- `tests/` runs the library on concrete values.
