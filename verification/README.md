# fused_depth

A market depth (order book) over integer price ticks, kept in hash maps, that
tracks the latest best bid and best ask together with the time of the feed that
set each, so that a missing deletion feed cannot leave a stale best price in
place. The library is written in Verus and verified.

- `src/types.rs` — sentinels, event flags, levels, orders, snapshot rows.
  Quantities are carried as IEEE-754 single-precision bit patterns.
- `src/scan.rs` — the scans for the next positive level below or above a tick.
- `src/fuse.rs` — `FusedHashMapMarketDepth`: feeds, clearing, snapshots, orders,
  queries, with contracts over the maps' views.
- `src/laws.rs` — properties of the book proved over those contracts.
- `app/lib.rs` — the floating-point front end: prices and quantities arrive as
  `f32`, become ticks, lot counts and bit patterns, and the library does the rest.
