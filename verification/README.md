# veritas

A battle tracker for a turn-based game client, loaded into the game process.

- `src/` is the library, with proved contracts: the model of the game's managed
  objects, lookups over il2cpp runtime metadata, the decisions the game hooks
  take on what they read, the battle context that turns battle events into
  packets, and the pattern scan over the UnityPlayer module.
- `app/` is the code around it: memory reads and calls into the game's managed
  runtime, function hooks, the socket.io and server-sent-event server, logging
  and the egui overlay. Floating-point sums (damage totals, fixed-point values)
  are computed there and handed to the library, which records them.
- `tests/` exercises the library on concrete values.
