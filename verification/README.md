# shroom_proto95

Packet structures, wire codes, script state and game data mappings of the
shroom game server, written in Verus with their contracts.

Layout of `src/`:

- `send_opcodes`, `drop`, `mob`, `movement`, `script`, `shared`, `login`,
  `login_char`, `inventory`, `item`, `field`, `game`, `key_map`, `quest`,
  `shop`, `effect`, `summon`, `life`, `friend`, `secondary_stats`: the packet types of
  the client protocol, with the codes their enums are written as (each with
  the proof that decoding a code gives the value back) and the helpers the
  packets use.
- `npc`, `poll_state`: the decisions of npc conversations and of the driver
  that steps a script one input at a time.
- `schemas`: the records of the game's JSON data files (`records`), their
  text-typed values (`pattern`, `scalar`, `text`), the helpers that read
  them (`mapping`, `order`), and how some of them are read as the game's own values:
  the acts and the requirements of a quest (`quest_act`, `quest_req`), mobs,
  mob skills and their levels (`mob_data`), the info of items, the flags
  and requirements of equipment, and consumable, state change and mastery
  book items (`item_data`), the common info of a
  skill level (`skill_data`), a field with its footholds, portals, lives and
  reactors (`field_data`), and each life, foothold and reactor of a field
  (`field_life`).

`app/` holds what runs outside the verified library: the executor that polls
scripts written as futures, the session calls such a script makes (asking
the player through the library's messages and answer checks), and the
conversion of socket addresses.
