# fmp_polling

Polling of the Financial Modeling Prep API: stocks, forex, commodities,
cryptocurrencies, market movers, economic data, technical indicators and
search, served to clients over a WebSocket endpoint.

The library (`src/`) is verified with Verus. It holds what the pollers decide:

- `options`, `text`, `json`: the request vocabulary (fetch types, time frames,
  date-times, indicator names) with exact parsers and printers, and a model
  of JSON values.
- `request`: the API client's state (base URLs, key, headers), path joining
  and query building.
- `stock`, `market`, `forex`, `commodity`, `crypto`, `crypto_batch`, `etf`,
  `economic_data`, `technical_indicators`, `financial`, `search`: argument
  parsing, ticker validation, and the exact request and cache key of every
  fetch, with the error texts.
- `utils`: the retry schedule (exponential and linear backoff), batching,
  result collection and the cache decision.
- `websocket`: the server's poller registry, the answer to each request and
  the per-message connection step.

`app/` is the program around it: HTTP through `reqwest`, the LRU cache, the
`tokio` tasks and the WebSocket server. It runs the plans the library makes.
