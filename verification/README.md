# mir2_client

The logic of a Legend of Mir 2 game client, written in Verus. Verus proves
the functions in `src/` against their contracts, with these exceptions:

- a few small trusted wrappers, whose contracts are believed rather than
  proved: the clock, `String::push` and the zlib decoder of flate2, in
  `src/time.rs`, `src/text.rs` and `src/mlibrary.rs`;
- functions that report how much time has passed; they have no contract
  on their result, because that depends on when they are called.

## Layout

- `src/controls/` – UI geometry (points, sizes, rectangles, ARGB colours) and
  the base control with its redraw bookkeeping.
- `src/ecs/components*` – the entity components: health and mana, spells and
  the spell book, inventory and equipment, paths and movement, the player's
  state machine, animation control, prediction history, render settings.
- `src/ecs/resources.rs` – group, guild, friend, quest and trade records.
- `src/ecs/*_scheduler.rs`, `src/ecs/system_table.rs` – the system schedules:
  switches, per-system statistics, and the update plan of the parallel
  schedule.
  The statistics sit in a table with one row per system, in running order,
  rather than in a map keyed by the system's name: the set of systems is
  fixed, Verus can say little about a `HashMap` keyed by `String`, and the
  table's invariant ties each row to its system's name and priority, the
  names being distinct, so a lookup by name finds exactly one row.
- `src/ecs/map_loader.rs`, `src/map_view.rs` – which tiles a map cell puts on
  screen, how animated tiles step, viewer settings and the cell summary.
- `src/map_file.rs` – the quick `.map` reader; `src/mlibrary.rs` – `.lib`
  image libraries (zlib through flate2, 16-bit pixels to RGBA, a bounded
  cache); `src/lib_stats.rs` – statistics over a library's images, from a scan of the
  whole file.
- `src/downloader.rs` – download progress reports and byte formatting,
  matching the 64-bit float arithmetic they describe exactly.
- `src/time.rs`, `src/text.rs`, `src/le_bytes.rs` – spans of time, decimal
  text, little-endian numbers.
- `app/` – the command-line front end: file reading, HTTP downloads with
  reqwest and tokio, and reports.
- `tests/` – tests run against the compiled library.
