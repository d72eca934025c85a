# rustemon

Game logic of a small terminal monster-battling game, verified with Verus.

- `src/` is the verified library:
  - `types` – the battle type chart (weaknesses, resistances, immunities);
  - `natures` – natures, their random choice and the stat each raises and lowers;
  - `monster` – monsters and the stat formula;
  - `moves` – moves and their effects;
  - `player` – the player's party and movement on the map;
  - `menu` – global options and the main and options menus as state machines;
  - `saves` – the text format of the saved options;
  - `interface` – text speed and the layout of the scrolling dialog box;
  - `playback` – playback positions of sounds;
  - `tile_to_ascii` – reading pixels of tiles.
- `tests/` runs the library on concrete values.
- `app/` is the executable: SDL2 audio, terminal drawing with crossterm and
  ratatui, the save file on disk, and the floating-point parts (sound volumes
  and fades, the accuracy roll of a move).
