# flowsurface

The verified core of a desktop market-charting terminal with alert rules.

- `src/` is the library, written in Verus and proved: alert rules and their
  editing, the per-pane rule book (cooldowns, trigger log), the planning of what
  a firing rule does and the firing of a round of triggered rules, the tick
  bookkeeping of a pane, the footprint's trades by price bin, the indicator
  search, chart study settings and their labels, what a dashboard
  pane shows and when it redraws, which market streams a pane needs, the forex
  feed helpers (timeframes, request plans, line framing of streamed bodies,
  candle grouping, symbol and time parsing), alert sound decisions and the log
  file's size cap.
- `tests/` runs the library on concrete values.
- `app/` holds what the library cannot: saved settings with serde, `f32`
  indicator math, paper trading and footprint quantities, the glue that runs a
  pane's rules between the library and those, feed message parsing and the log
  file on disk.
