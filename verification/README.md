# cursor_anim

The decision logic of a terminal's native cursor animations, and the
counters behind its render-latency statistics, verified with Verus.

`src/` is the verified library:

* `config` — easing curve names, motion and shape-change presets, the
  per-preset default durations and easing curves, and the validation of
  the integer settings (frame rate, durations) with their error messages.
* `cursoranim` — the per-pane animation state machine: when a trail
  starts, is replaced, cancelled or ends, when a shape change effect
  starts, when a pane starts afresh.  It is generic over the cursor's
  pixel geometry, which it stores but never inspects.
* `poly` — a fixed-capacity polygon, its clipping to a half plane (which
  adds at most one vertex when the inside vertices form a single run, as
  for a convex polygon) and its fan triangulation.
* `warp` — the order in which the corners of the Warp effect arrive.
* `parserperf`, `paintstats`, `perfstats` — per-pane parser counters, the
  per-window paint counters and their registry, and the render counters
  of a report window (frame lengths, percentiles, pane order, and
  variants of the recording calls that refuse to overflow).
* `text` — decimal rendering used by the validation messages.

`app/` holds what the library cannot: parsing the settings from dynamic
values, the floating point geometry of the effects (easing curves,
polygons, the side tests and crossing points of clipping, feathering),
the process-wide registries behind locks, the environment switch and the
report written to the log.
