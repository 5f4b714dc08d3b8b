# mafia_engine

A verified game engine for social deduction games: players, organizations, abilities
with charge pools, passives, notebooks, bugs and chat channels, driven by requests
(`ActionRequest`) that the engine checks in a dry run and then carries out.

Every handler of `src/action/` states, over the engine's model (`Engine`, `World` and
its stores, seen as maps from keys to values), when it refuses a request and with which
error, what it changes when it succeeds, which parts of the engine it leaves alone, and
that it keeps the engine's invariant (`Engine::wf`).  A dry run never changes the engine.
A kill by another player hands the victim's transferrable abilities to the killer.

Layout:

- `src/engine.rs`, `src/store.rs`: the engine, its world and keyed stores.
- `src/actor.rs`, `src/ability/`, `src/chargepool.rs`, `src/passive.rs`,
  `src/notebook.rs`, `src/bug.rs`, `src/channel.rs`, `src/groupchat.rs`,
  `src/lounge.rs`, `src/config.rs`: the objects of a game and its configuration.
- `src/action/`: one module per action; `src/action/dispatch.rs` runs a request.
- `src/laws.rs`: properties that span several actions, proved.
- `src/indexset.rs`, `src/smallbuf.rs`, `src/text.rs`: the calls into `indexmap`,
  `smallvec` and `std` that the proofs take on trust, with their contracts.
- `tests/`: scenarios run against the compiled library.
