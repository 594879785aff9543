# psiphon_tui

A terminal front-end for the Psiphon tunnel engine, with its logic verified
by Verus.

- `src/` is the verified library: the connection state machine fed by the
  engine's notice stream (`app`), notice severity and summaries
  (`notice`, over the JSON model in `json`), command-line parsing (`cli`),
  the checks on a launch request (`psiphon`), the layout computations of
  the interface (`ui`), text helpers (`text`) and the properties that span
  several operations (`laws`).
- `app/` is the program around it: the bindings to the engine's C bridge,
  the notice poller thread, JSON decoding with serde, terminal drawing with
  ratatui and crossterm, and the event loop that performs the commands the
  library returns.
- `tests/` runs the library on concrete values.

The program links against `libpsiphon_bridge.so`, built from the engine's
RustBridge package.
