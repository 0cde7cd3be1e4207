# gate-arb

Spot-perpetual and funding-rate arbitrage on Gate.io. The decision logic is a verified library; the
program around it connects it to the exchange, the dashboard and the database.

## Layout

| Path | Contents |
|---|---|
| `src/types.rs` | fixed-point numbers, order books, positions, orders |
| `src/engine.rs` | spread between the spot and the perp book, entry signals |
| `src/strategy.rs` | spot-perp strategy: position state machine, paper profit and loss |
| `src/funding.rs` | funding-rate strategy |
| `src/risk.rs` | drawdown, position and latency limits, kill switch |
| `src/auth.rs`, `src/codec.rs`, `src/ring.rs`, `src/order_manager.rs` | private order session |
| `src/gateway.rs` | market data messages, price parsing, reconnection policy |
| `src/db.rs` | records and the queues in front of the database |
| `src/frontend.rs`, `src/health.rs` | dashboard and health endpoint |
| `src/config.rs` | settings |
| `src/decimal.rs`, `src/text.rs`, `src/json.rs`, `src/clock.rs` | numbers, text, JSON, time |
| `app/` | the program: connections, environment, database |
| `tests/` | tests of the library |

## Conventions

Prices and amounts are `u64` counts of 1e-8 units. Funding rates are `i64` in the same units, so a
basis point is 10 000. The library uses no floating point.

Types with an invariant have a `wf` predicate that constructors establish and methods keep. Their
contracts speak of a plain-value model (`@`). Functions that read the clock have a twin ending in
`_at` that takes the time, with an exact contract.

Everything the library takes from other crates stands behind a handful of functions whose contracts
are stated and not proved: HMAC-SHA512 and hexadecimal in `src/auth.rs`, JSON in `src/json.rs`, the
wall clock in `src/clock.rs`, UTF-8 decoding in `src/frontend.rs`.

## Running

Paper trading is the default. `PAPER_MODE=false` enables live trading, with the credentials in
`GATE_API_KEY` and `GATE_API_SECRET`. The other settings are listed in `src/config.rs`.
