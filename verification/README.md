# tui_game_core

The simulation core of a small terminal fantasy RPG, written in Verus: every function
carries a contract and is proved against it.

- `entity`, `item`, `narrative`, `world`, `level` — the entity arena, inventories, quest
  state, the tile map with field of view, and level files.
- `content`, `game_content`, `validation` — content types, this game's static content and
  the checks that content and levels refer only to what exists.
- `combat` — encounters: initiative, action points, moves, attacks with deferred hits,
  fleeing and the end of an encounter.
- `behavior`, `ai` — NPC decisions: relations, threats, reactions (fight, flee,
  investigate), roaming and patrols, and navigation along shortest paths.
- `game` — the game state and its modes, starting a game on a level, key bindings,
  the frame step (input routed to the active screen, then the world's tick), walking
  and picking up, walking to a goal, the player's queued actions, clicks in exploration
  and in encounters, dialogue and its effects, the encounter AI, spells, projectiles,
  area effects, saves, the HUD text and the input handlers of every screen.
- `narrative_effects` — what dialogue effects do to the quest state, the inventory and
  the journal.
- `prop_migration` — splitting a level's ground layer into ground and props.
- `laws` — properties that span several functions, stated and proved as proof functions.
- `keymap` — the bindings and input pacing the game shell runs with.

The shell around the library reads the terminal, turns screen cells into world cells and
list rows (`PointerHit`), feeds each frame to `Game::step`, applies the view shifts it
returns, restarts the game when the menu asks, and reads and writes the quick save
(`Game::save_game`, `Game::apply_save`).

Run `cargo test` for the tests under `tests/`.
