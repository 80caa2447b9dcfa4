# oottracker

The tracking logic of an item and location tracker for the *Ocarina of Time*
and *Majora's Mask* randomizers, verified with Verus.

- `src/game_detection.rs`: which game runs (OoT, MM or the OoTMM combo) and
  which half of the combo is active, read from emulator RAM and ROM headers.
- `src/flag_mapping.rs` and `src/mm_flag_mapping.rs`: the tables that map each
  location to the save flag recording its check; `src/location_table.rs` is
  the table they share.
- `src/flag_mapping/checking.rs`: the check status of each location, its
  accessibility according to the world data, and the summary counts.
- `src/flag_mapping/mq.rs`: the Master Quest dungeons of the settings built
  from the tracker's knowledge, and which locations they make active.
- `src/flag_mapping/eval.rs` and `src/logic_context.rs`: the game state that
  randomizer logic expressions query, for OoT and MM saves.
- `src/knowledge.rs`: where the dungeon rewards are, inferred from the
  dungeon-info screen, text boxes, Link's Pocket and elimination.
- `src/inventory_laws.rs`: the laws relating the MM inventory map to the
  item counts. Each inventory entry gets a small lemma of its own, which
  reveals just the name literals that entry's count lookup compares against;
  one lemma over all entries at once would have to hold every literal in a
  single proof.
- `src/web.rs`: the rules of the web service (room names, room tokens,
  WebSocket origins, changed cells, what a room does with a PJ64 packet).

`app/` holds what stays outside the verified library: serializable copies of
the library's types, floating-point confidence values and the parts that read
the environment.

Two collections are kept in forms whose contents Verus can state: the
inventory map (`src/inventory.rs`) is a vector of (identifier, count) pairs
in which no identifier occurs twice, in place of a hash map keyed by
strings, and the location tables (`src/location_table.rs`) are vectors of
mappings in which no location ID occurs twice, built by explicit inserts in
place of lazily built hash maps. Verus specifies `HashMap` fully only for
keys whose equality and hashing it knows, which string keys are not.
