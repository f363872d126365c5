# rrelayer

The decision logic of a transaction relayer service and its HTTP SDK,
verified with Verus.

- `src/http_client.rs`: the SDK client: endpoint URLs, request headers
  (content type, basic or API-key authorization, additional headers) and the
  classification of response statuses.
- `src/headers.rs`: the header types of `http` (through `reqwest`) and base64
  encoding, behind trusted wrappers.
- `src/encoding.rs`: standard base64 as a specification, with its decoding
  and the proof that decoding gives the bytes back.
- `src/text.rs`: slash trimming on character views, UTF-8 facts.
- `src/signing.rs`: the text-signing request as a state machine, from the
  first authentication check to the answer.
- `src/paging.rs`: offset paging of query results.
- `src/background.rs`: which background tasks start.
- `app/`: the async I/O around it: the SDK's HTTP calls, the axum handler
  that drives the signing flow, the transaction queries and the background
  task runner.
