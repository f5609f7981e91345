# rust_sc2

A library for writing StarCraft II bots, with its core verified by Verus.

- `src/` is the verified library: unit type and ability identifiers and
  their classes, unit collections and the filters and adaptors a bot
  applies to them, the sorting of the units seen into groups, unit
  counting, costs and resource bookkeeping, the map grids, the per-step
  bookkeeping of units seen and lost, what becomes of the cached units of
  the opponent, the search for a place to build on, the finding of ramps
  on the map, density clustering (DBSCAN), and the small parsers the
  framework relies on. `src/laws.rs` and
  `src/id_laws.rs` state what holds across functions.
- `tests/` exercises the library on concrete values.
- `app/` holds what stays outside the verified library: the bot's callbacks,
  finding the game on disk, floating-point geometry (distances, and the
  positions that the library's cell offsets stand for), and the conversion
  of the game's protocol messages into library values.
