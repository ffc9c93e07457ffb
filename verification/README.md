# Sanctuary

A turn-based roguelike: the player crosses four themed levels (forest,
dungeon, temple, netherworld) to recover the Tome of Anthrophulos, fighting
or avoiding monsters, picking up items, and keeping a table of best scores.

## Layout

- `src/` — the game's rules as a Verus library (`dungeon_crawler`), each
  function with a contract that Verus proves:
  - `geometry`, `map`: points, the tile grid, indexing, who may enter a tile,
    a tile's exits;
  - `components`: the entity components and the game's constants;
  - `map_builder`: the drunkard's-walk cave, prefabricated structures, the
    four visual themes;
  - `spawner`: the player, the tome, and populating a level from templates;
  - `systems`: one module per system of a turn (input, items, combat,
    movement, chasing, wandering, doors and keys, field of view, end of
    turn and the score table, the heads-up display's level names);
  - `laws`: properties that span several functions;
  - `bracket`, `ecs`: the few calls into bracket-lib and legion, with the
    contracts the library relies on.
- `tests/` — tests of the library on concrete values.
- `app/` — the program around the library: the game loop and screens, the
  legion world and its queries, path finding and field of view through
  bracket-lib, drawing, sound (rodio) and the data files (ron).
