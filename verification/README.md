# bevygame

A small tower-defence game: a witch brews potions on a spinning dial, a bird
carries them from the tower and drops them on slimes of the matching element,
and slimes that reach the tower hurt it.

- `src/` is the game's rules as a Verus-verified library: sprite-sheet
  animation (`animation`), potions and elements (`stuff`), the tower's potion
  queue and damage (`tower`), the bird's loading and dropping (`bird`), the
  witch's brewing dial and its effects (`witch`), and slime waves and kills
  (`slime`). Random draws go through `rand`.
- `app/` is the bevy program around it: assets, drawing, timers, movement and
  the float angle of the dial, which it reads into quarters for the library.
- `tests/` runs the library on concrete games.
