# rusty_screeps

A bot for the MMO programming game Screeps. `src/` is a Verus library that
holds every decision the colony makes, each with a contract proved by Verus:

- `jobs`, `staffing`: the job board built each tick (rooms that want a
  reserver, sources that want a harvester) and how creeps take jobs from it;
- `gatherer`, `carrier`, `reserver`, `tower`: what harvesters, settlers,
  fillers, upgraders, reservers and towers do each tick;
- `spawner`, `roles`, `names`: what a spawn builds, with which body, under
  which name;
- `actions`, `positions`, `ids`: single actions and the game's answers,
  positions and object ids in their packed forms;
- `colony`, `memory`: the colony's standing orders and memory upkeep.

`app/` reads the game through the `screeps` bindings, hands plain values to
the library and carries out its decisions. `tests/` exercises the library.
