# bloodandbilgewater

The rules of the Blood and Bilgewater lab — crew roles and loadouts, facing
and sprite animation, patrol and player control, the dual-grid shore
autotiler, the starter island's tiling and trees, and the staged generation
of the home island — as a library whose functions carry contracts
proved by Verus.

## Layout

- `src/` — the verified library.
  - `roles`, `class_profiles`, `crew`, `roster`, `menus` — classes, loadout
    cycles, gait limits, character creation and the front-end menus.
  - `direction`, `animation`, `sheets`, `sheet_paths`, `aseprite` — eight-way
    facing, clip selection and frame stepping, clip catalogs and the asset
    paths they come from.
  - `patrol`, `control` — the crew patrol phase machine and direct player
    control.
  - `shore`, `shore_distance`, `ocean_tiles` — dual-grid shoreline tiles,
    distance to shore and depth bands.
  - `starter`, `trees` — the starter island's tile modules and its grove.
  - `island/` — staged island generation: recipe and stages, land mask and
    hole filling, beach bands, biome regions, surface patches and their
    merging, transitions between surfaces, statistics, saves and the lab's
    controls.
  - `lab_scene`, `text` — scene routing and small string helpers.
- `tests/` — tests run against the compiled library.
- `app/` — the headless lab program around the library: Bevy systems,
  keyboard input, noise sampling, file I/O (saves, sprite sheets, generated
  terrain art) and the floating-point geometry of movement and collision.

The laws the library keeps are public proof functions named `law_*`.
