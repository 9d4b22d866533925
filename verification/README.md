# kucoin

A client library for the KuCoin exchange API whose rules are verified with
Verus.

- `src/` is the verified library: the data model of the spot API, request
  preparation and signing, the interpretation of responses, the websocket
  topic grammar, the subscription bookkeeping of a feed connection, the
  Level 2 maintenance of a live order book, and the builders of order,
  account and transfer requests. Every function carries a contract that
  Verus proves; the laws that relate several functions are public proof
  functions next to them.
- `app/` is the asynchronous client around it: HTTP with `reqwest`, the
  websocket feed with `async-tungstenite` on `tokio`, the serde forms of the
  data, and the `MarketApi`, `ServiceApi`, `TradeApi`, `UserApi` and `WsApi`
  traits.
- `tests/` runs the library on concrete values.

The computations that come from other crates (HMAC-SHA256, Base64, decimal
comparison, rounding and rendering, form and JSON string encoding, the
system clock) are called through small trusted functions whose contracts
say what the library relies on.
