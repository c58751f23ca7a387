# Block City Adventure: verified game rules

The rules of a 2D top-down action roguelike (勇闯方块城), written in Verus and proved
against their contracts: floor generation, room and event logic, shops, rewards,
progression, puzzles, enemy planning and the duel lobby's protocol decisions.

Layout:

- `src/` — the verified library.
  - `map` floor layouts and the room-type rules of a generated floor;
  - `session` run-wide rules (room clears, deaths, shop prices, augment drafts);
  - `progression` experience, levels and floor balance;
  - `shop` shop drafts, the per-room shop cache, purchases and refreshes;
  - `event`, `event_choices`, `event_apply` event rooms: which event, its choices, and
    what a choice or a won challenge does to gold, augments and level;
  - `report` the text of an event's result card: gold, grants, losses and level lines;
  - `rewards` augment inventory, reward drafts, the sanctuary and the forge;
  - `enemy` enemy pools per floor, elite affixes, room entry and room clearing;
  - `puzzle`, `skills`, `rune`, `combo`, `pvp`, `states`, `feedback`, `text`, `rng`.
- `tests/` — tests run against the compiled library.
- `app/` — a headless runner for the duel lobby (UDP I/O and the float arithmetic on
  health and energy, which the library leaves to its caller).

Health, energy and positions are floats in the game; the library decides in whole
numbers and percentages and hands the float work to its caller.
