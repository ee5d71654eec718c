# btc_arb

A bot that watches BTC/FDUSD and BTC/USDT on Binance and trades the spread
between them, in paper or live mode. The crate is split in two:

- `src/` — the verified library (Verus). It holds everything the bot decides
  that does not involve prices:
  - `text` — decimal rendering, case mapping, comparison of texts;
  - `market` — the two markets, the two arbitrage directions, their legs,
    symbols, fee kinds and labels, and the choice of direction;
  - `stream` — names of the depth streams, the combined stream URL, the
    symbol a stream message is routed to, and what to do with each frame;
  - `proxy` — the HTTP CONNECT tunnel: proxy address, CONNECT request, the
    byte-by-byte reading of the proxy's reply header, and its verdict;
  - `signing` — REST queries, HMAC-SHA256 signatures in hex, signed URLs;
  - `models` — exchange messages and records, parsing of depth levels,
    balance lookup, API error texts;
  - `book` — the order book snapshot, generic in its price level;
  - `ledger` — trade records with their counters, the live-trading safety
    gate (halt, loss limit, position size, cooldown), order settlement;
  - `engine` — main-loop decisions: routing updates, what to do with an
    opportunity, when to redraw.
- `app/` — the program around it: configuration file, WebSocket and REST
  I/O, and all arithmetic on prices, balances and fees (floating point).
- `tests/` — tests of the library through its public API.
