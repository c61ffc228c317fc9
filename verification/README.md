# scout_sdk

A client library for the Scout web-intelligence API (search, scrape,
screenshot, extract, crawl, company enrichment), written in Verus.

- `src/` is the verified library. It decides everything about a call that
  does not need the network: which method, path, query and JSON body each
  endpoint uses (`resources/`), the headers and idempotency key of a request
  and what a response means (`client.rs`), when and how long to back off
  before a retry, how a list is walked page by page, how API errors are read
  (`error.rs`), how long a `Retry-After` header asks to wait, as a number
  or an HTTP date (`retry_after.rs`), and how the bytes of a Server-Sent
  Events stream are cut into events, whatever chunks they arrive in
  (`stream.rs`). Each public function states its result in its contract,
  and the library's laws (bounded retries, unique idempotency keys, lossless
  and path-safe percent-encoding, SSE framing that does not depend on
  chunking, complete pagination) are proved as proof functions beside the
  code they speak of.
- `app/` is the asynchronous client around it: it sends the prepared
  requests with `reqwest`, sleeps between retries with `tokio`, reads the
  environment and the clock, converts between the library's JSON model and
  `serde_json`, and gives the error type its `Display`.
- `tests/` exercises the library on concrete values.
