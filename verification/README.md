# titan_bridge

Verified core of the Titan MetaTrader 5 market-data bridge, written in Verus.

- `src/` — the verified library:
  - `protocol` — tick integrity payload (little-endian fields), the CRC-32
    check (through `crc32fast`), and the per-symbol ghost-tick filter with
    its laws (replays dropped, records never decrease, symbols independent).
  - `circuit_breakers` — the data circuit breaker as a state machine over
    nanosecond timestamps, with its laws (limit, trip, block, auto-reset,
    window rollover).
  - `bridge` — which ticks are admitted for publishing and which order-book
    levels are published.
  - `clock_sync`, `logger`, `errors` — clock offsets, structured log records,
    the error codes and `SystemError`.
- `tests/` — behaviour tests run against the compiled library.
- `app/` — the DLL around it: C ABI entry points, global state, JSON config,
  JSON log output, protobuf messages, the floating-point slippage guard and
  clock smoothing, and the Iceoryx publisher over `cxx`.
