# poe2_overlord

The verified core of the POE2 Overlord desktop backend, written in Verus.

- `src/` is the library. Every function in it is verified: its contract
  (`requires` / `ensures`) states what it returns or changes, over
  mathematical models (`Seq`, `Map`, spec functions).
  - `domain/character`: classes, ascendencies and leagues; character records;
    the rules for creating and updating characters; decoding stored rows.
  - `domain/character_tracking`: locations, per-zone statistics, their
    summary, and how scene lines of the game log move a character.
  - `domain/configuration`: the configuration, its validation and updates.
  - `domain/economy`: economy types, the poe.ninja address and cache key,
    retries, freshness, the league cache, the fetch steps, and the per-key
    lock table under which concurrent fetches of one key are coalesced.
  - `domain/event_management`: event types, subscriptions, sessions and
    channel settings.
  - `commands`, `errors`, `json`, `text`, `time`, `url`: shared pieces.
- `tests/` exercises the library on concrete values.
- `app/` is the unverified program around it: environment and file access,
  HTTP requests to poe.ninja, serialization, and the floating-point pricing.
