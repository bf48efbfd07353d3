# Catevy

The rules of Catevy, a cat roguelike, as a library verified with Verus, and
the Bevy program that plays them.

- `src/` is the library. Every function carries a contract that Verus proves:
  timers (`timer`), abilities and swords, enemy records and the enemy state
  machine (`components`, `combat`, `enemy_ai`), what rooms hold and how enemy
  groups are made up (`spawning`, `groups`), the run and its progression
  (`state`, `progression`, `room`, `player`). `laws` states properties that
  span several functions. Seeded draws from `rand` stand behind the small
  trusted wrappers of `rng`.
- Amounts that the game shows with fractions are whole numbers here: times in
  milliseconds or nanoseconds, angles in milliradians, colours and camera
  shake in thousandths, enemy hurt radii in quarter pixels.
- `tests/` runs the library on concrete values.
- `app/` is the game itself: window, input, sprites, sound, floating-point
  movement and collision, and the JSON save file.
