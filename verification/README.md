# nzbfast_serve

The decision logic of a Usenet download daemon, verified with Verus.

A daemon of this kind is a settings page, a start-up sequence and some twenty
loops, each of which asks the world something, decides, and acts. The deciding is
here, as functions and small state machines over plain values, with contracts:
which settings a value leads to and what is written to the log of it, what a start
brings back, which job runs next and what becomes of it, when a crawling job makes
way, which connections a prefetch may borrow, when the index is scanned and
compacted, what a player is sent of a file that is still arriving.

- `src/` is the library. `src/settings/` holds the settings, one file for each
  group of them; the other modules follow the daemon's tasks.
- Public proof functions state what holds of the library as a whole: that a
  credential is never shown, that a file which is still being written is never
  taken in, that nothing starts while the disk is full or the daemon is offline.
- `tests/` runs the library from outside.
- `app/` is ordinary Rust around it: files, sockets, child processes, clocks,
  threads, and what needs floating point. Each loop there performs the step that
  the library names and hands back what came of it.

The reading and writing of JSON lists and tables, the SHA-256 of a path, the
quoting of a text and the reading of bytes as text are left to `serde_json`, `sha2`
and the standard library; what is believed of them stands at the wrappers in `src/`.
