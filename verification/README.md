# ferroid

Time-sortable identifiers — Snowflake-style IDs and ULIDs — with their
Crockford Base32 text form and the generators that hand them out, written in
Verus.

Layout:

- `src/id/`: the identifier types and the `Id`, `SnowflakeId`, `UlidId`
  traits. Each type states its bit layout through spec functions; field
  getters, `from_components`, validity and the sequence/random counters are
  proved against it.
- `src/base32/`: big-endian bytes (`BeBytes`), the Crockford Base32 encoder
  and decoder, and the encode/decode extensions of the identifier types.
  The laws proved here: decoding an encoding gives the value back, decoding
  ignores case and the `O`/`I`/`L` aliases, and encodings sort as the values
  they encode.
- `src/generator/`: one generation step as a spec function
  (`snowflake_step`, `mono_ulid_step`), the step computed by a verified
  function, and the basic, lock-based and lock-free generators built on it.
  The laws proved here: while the clock reads at most the layout's largest
  timestamp, a step from a valid state hands out a valid ID greater than the
  last one, whose text form sorts after the last one's, and over any run of
  calls on one basic generator the IDs handed out strictly increase. The
  basic generators record each clock reading (and random value) in ghost
  state, so their contracts name the exact step taken.
- `src/army.rs`: a round-robin group of Snowflake generators.
- `app/`: the parts that own threads, clocks and async runtimes: a shared
  monotonic clock, blocking and async retry loops, thread-local ULIDs.
