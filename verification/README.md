# martensite widget logic, verified

The state machines behind a set of toolkit widgets (segmented
controls, steppers, stack lights, split-flap displays, flow diagrams,
scratch cards, settings rows and more), written in Verus with their
contracts proved.

Layout:

- `src/` — the verified library. `event` holds the input vocabulary
  (keys, pointer buttons, accessibility actions, responses), `access`
  the accessibility record a widget publishes, `text` string helpers,
  and `widgets/` one module per widget. Each widget has a view type that
  its contracts speak of; laws that relate several operations are
  public proof functions next to the widget.
- `tests/` — scenario tests for each widget.
- `app/` — glue for a host: AccessKit nodes from the accessibility
  records, frame-clock conversions, and the floating-point state the
  library leaves to its caller: slider and spin-box values, scroll
  offsets, split ratios, ruler scales, marquee rectangles, Sankey
  weights and throughput, scratch-card brushes and thresholds, and the
  data of the sparkline, spectrum, stream graph, scatter chart, scroll
  indicator and splash screen. Drawing and measuring are not part of
  this crate.

Geometry is resolved by the caller: pointer events reach the widgets
as the zone, cell or item under the pointer, and time reaches them in
whole nanoseconds.
