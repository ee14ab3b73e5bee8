# stars

The catalogue, identifier and host-side logic of the `stars` sky renderer,
written in Verus and proved against its contracts.

- `src/` is the verified library: catalogue identifiers and their text forms,
  the deep-sky, constellation, double-star, cluster, variable-star and
  bright-star tables, the catalogue CSV exports (records, columns and
  identifiers), search scoring and result
  ordering, GoTo resolution, the level-of-detail tile index and its blob
  stores and tile streaming, render-size checks, read-back unpadding and PNG
  framing, scene-preset plans, SPK/DAF headers, TLE sets,
  iCalendar export, session schema checks and the option enums. Laws that
  relate several functions are public proof functions next to them.
- `app/` is ordinary Rust around it: file and clock access, the serde and
  clap forms of the option enums, and the floating-point arithmetic next to
  the library's tables (catalogue positions and parallax distances, the
  Tycho VT/BT and Gaia G/BP−RP magnitude relations, tile geometry, SPK
  Chebyshev evaluation, Julian dates). The sky-brightness, photometry and
  ephemeris models of the renderer are not part of this crate.
- `tests/` exercises the library on concrete values.

Outside crates reached from `src/` (`csv`, `png`, `chrono`) are called through
small trusted wrappers whose contracts are stated next to them.
