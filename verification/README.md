# astra_flash

A market-data adapter library: it normalizes the streaming feeds of Deribit,
Binance and OANDA into market events, routes them to topics, tracks orders,
connection health and reconnection state, and prepares Redis Stream
publishing. The library is written in Verus: its functions are verified
against contracts that state what they return, except where the result
rests on what no contract here can describe (shared atomic counters, the
clock, a boxed adapter), where the contract is left empty. The calls into
outside crates (serde_json, simd-json, chrono, url, rust_decimal) sit behind
small trusted functions whose contracts restate those crates' documented
behaviour.

## Layout

- `src/` — the verified library.
  - `json.rs`, `text.rs` — JSON values as plain data and their decoding
    from text (through serde_json), and character-level text helpers
    (splitting, trimming, decimal digits) with exact contracts.
  - `types.rs` — instruments, events, errors, decimals.
  - `network/adapters/` — message decoding, request building and error
    classification per exchange; shared readers of prices, quantities,
    timestamps and price levels.
  - `network/connector.rs`, `heartbeat.rs`, `reconnect.rs` — the connection
    table and the per-step decisions of a connection, health tracking,
    reconnection state and sequence-gap detection.
  - `order.rs` — the order manager.
  - `parsing.rs` — classification of raw OANDA messages.
  - `publisher/` — topic patterns, templates, filters and the topic router;
    batching; serialization buffers; Redis pool bookkeeping and INFO parsing;
    XADD arguments; dual-stream keys.
- `app/` — the runtime around the library: WebSocket tasks (tokio-tungstenite),
  Redis I/O (deadpool-redis), channels, serde formats and the statistics that
  use floating point.
- `tests/` — tests of the library.
