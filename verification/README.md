# home_companion

Home Companion runs home "connections" as WASM plugin modules: the host loads each
module of a home setup, hands it its settings and keeps the state that the module's
`init()` returns. Plugins talk back to the host through calls (for now: log records).

Layout:

- `src/` — the verified library (Verus):
  - `sdk::memory` — packed `(offset, size)` descriptors of guest memory slices;
  - `sdk::rpc`, `sdk::abi` — the call messages and log records; `sdk::result` — call results;
  - `host::rpc` — what the host does for a call, and how a refused call is answered;
  - `host::wasm` — the host side of the guest memory exchange and of the `init()` protocol,
    and the per-instance guest state; `host::helpers` — TOML settings to MessagePack;
  - `youless` — the YouLess connection's start-up logic.
- `app/` — the host program (command line, setup file, WASM runtime, Protocol Buffers
  encoding, logging) and the guest-side glue of the SDK and of the YouLess plugin.
- `tests/` — tests of the library.
