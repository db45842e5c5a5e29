# tower_defense

The rules of a wave-based tower defense game, verified with Verus, and the
Bevy program that plays them.

- `src/` is the verified library: the damage counter matrix (`counter`), the
  player's economy (`economy`), kill combos (`combo`), the tile map and the
  enemy route (`grid`, `layout`), waypoint following (`path`), tower and enemy
  definitions (`config`), wave scheduling and spawn queues (`waves`), tower
  placement and air targeting (`tower`), scoring and star ratings (`scoring`),
  and level results (`results`). Quantities the game measures in floating
  point are carried through the library as a type parameter `F` and never
  computed on there.
- `app/` is the game: Bevy plugins and systems, rendering, input, the
  floating-point parts (movement, health, timers, the day/night cycle) and
  serde forms of the definitions.
- `tests/` runs the library on concrete values.
