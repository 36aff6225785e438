# cc_core

Engine-agnostic core of an isometric real-time strategy game, written in
Verus: every function of the library carries a `requires`/`ensures`
contract that Verus proves.

## Layout

- `src/` — the verified library.
  - `math` 16.16 fixed-point values (arithmetic delegated to the `fixed` crate);
    `coords` grid and world positions; `text` decimal rendering helpers.
  - `components`, `commands`, `status_effects` — the game's enums, per-entity
    records and status-effect queries.
  - `abilities`, `unit_stats`, `building_stats`, `upgrade_stats`, `hero` —
    the static data tables, each with an exact specification and proved
    properties (cooldowns, attack ranges, unique producers, hero slugs, ...).
  - `terrain`, `map`, `map_format` — terrain rules, the tile map and its
    stored form, with the round trip between them proved.
  - `map_gen` — the integer stages of map generation: brushes, ramps, base
    sculpting, resource and camp placement, symmetry, flood fill and
    connectivity repair.
  - `mission`, `mutator`, `strait`, `tuning` — mission definitions and their
    consistency check, mission mutators, the Strait sequence's discrete data,
    and tuning constants.
- `tests/` — tests run against the compiled library.
- `app/` — the `map_preview` program and everything that works in floating
  point or does I/O: template layouts and lane sampling, Perlin noise,
  the isometric screen projection, float conversions, RON serialization.

Not part of this crate: the game workspace's `cc_harness` crate (the
headless simulation drivers `HeadlessSim` and `StraitHeadlessSim` and the
`HarnessServer` tool server). All of it runs on the project's simulation and
agent crates (`cc_sim`, `cc_agent`) and on Bevy, none of which is available
here, so it has no counterpart in this crate.
