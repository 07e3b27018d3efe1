# frontend_rust

A desktop portfolio terminal for a gRPC portfolio server, with its logic
verified by Verus.

- `src/` is the verified library: the application state and how it reacts
  to server replies, the request checks of the single-window editions, the
  analysis windows and their keyboard shortcuts, strategy parameter
  defaults, query-string parameters, sample dates of performance series
  (through chrono) and the split of price lists per symbol.
- `app/` is the program around it: the egui/eframe windows, the tokio
  runtime, the gRPC client and the floating-point figures. Run it with no
  argument for the full terminal, or with `--advanced` or `--enhanced` for
  the single-window editions.
- `tests/` exercises the library on concrete values.
