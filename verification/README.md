# pumpkinsoup

A soup-PvP training plugin for the Pumpkin Minecraft server.

- `src/` is the verified library: the soup-kit layout (`kit`), the soup
  right-click rules and per-player soup counts (`soup`), the damager registry
  (`damager`), the damager command and its argument (`commands`), damager
  sessions (`active`, `session`), namespaced keys, and the few trusted items
  over `dashmap` and std (`dash`, `text`, `kit::parse_u8`).
- `app/` registers commands and listeners with the server, holds the shared
  state, loads the TOML configuration, and does everything that touches
  players, floats or I/O.
- `tests/` runs the library on concrete values.
