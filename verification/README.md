# reoserv

Game-server logic of an Endless Online server, written in Verus: each
operation carries a contract, and Verus proves the code against it.

## Layout

- `src/` — the verified library.
  - `data.rs`: settings and game data (item, npc, shop, inn records, quests).
  - `character.rs`: a character's inventory, weight, quest progress and
    stat reset; the quest database.
  - `map.rs`: what a map does on its players' requests (locker upgrades,
    junking items, inns, stat resets, trade offers, shops, paperdolls).
  - `bank.rs`, `guild.rs`: gold deposits and guild membership.
  - `session.rs`, `packet.rs`, `login.rs`, `account.rs`, `create.rs`,
    `chat.rs`: a connection's packets and its login and account requests,
    each request a state machine that a driver feeds with answers.
  - `codec.rs`, `packets.rs`: EO numbers and packets, through the `eo` and
    `eolib` crates.
  - `laws.rs`: properties of the inventory, bank, inn and stat-reset
    operations taken together.
- `tests/` — tests of the library on concrete values.
- `app/` — the asynchronous drivers, the map and world commands, and the
  conversion of the library's replies into `eolib` packets.
