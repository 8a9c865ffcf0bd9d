# Scalper Trader Bot

A trading library with a market simulator and a scalping strategy, whose
behaviour is stated as Verus contracts and proved.

## Layout

- `src/types/` — decimals (arithmetic by `rust_decimal`), money, prices,
  quantities, orders, order books, positions, trades and trade histories.
- `src/exchange/` — exchange errors and exchange/instrument descriptions.
- `src/simulator/` — simulated markets (a mid price moving tick by tick and
  an order book generated around it) and the simulated exchange that fills
  orders against them, moving cash, positions and trade records together.
- `src/strategy/` — strategy settings, decisions, and the scalping strategy.
- `src/adapters/` — placeholder adapters for T-Bank, Binance and
  Interactive Brokers.
- `src/keyed.rs` — lookup by key in sequences that act as maps.
- `src/sums.rs` — integer sums over sequences and their independence of order.
- `src/clock.rs`, `src/text.rs` — time stamps and text helpers.
- `app/` — the command line demo, the asynchronous exchange and strategy
  interfaces over the library, and construction of amounts from floats.
- `tests/` — tests of the library.

Each operation's contract is stated over the views (`@`) of its types; the
laws of the library (key uniqueness of the simulated exchange and of the
lots held by the strategy, cheapest-first selling, the lots held falling by
the quantity sold, fills moving cash and position together, profit totals
that do not depend on the order of trades, terminal order states, the price
floor of the simulator, sorted order books, decimal round trips, the lots a
quantity's text reads as, every generated level holding the base liquidity)
are public proof functions next to the operations they concern.

Decimal arithmetic that overflows panics, as `rust_decimal`'s operators do;
the operations that can reach it state the inputs free of overflow in their
`requires`. Decimals, market prices and book depths have `checked_` forms,
and the simulated exchange and the strategy have `try_` forms of reading a
book, submitting an order, ticking, advancing and deciding (and `can_add`
for recording a bought lot), which report an overflow exactly where the
plain form would have one.
