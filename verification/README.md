# common

Shared building blocks for API services, with their contracts proved.

- `src/api.rs`: `Client` and the type-state `Router` that records whether the
  owner and headers of a request are set; `Request`, `Response`.
- `src/builder.rs`: the request-builder flavour of the same entry point.
- `src/error.rs`: `Error`, whose variants stand for HTTP status codes, and its
  JSON form `{"code": <code>, "description": "<text>"}`.
- `src/json.rs`: a model of the JSON values `serde_json` reads, and the
  escaping and decimal numbers the error JSON is written with.
- `src/state.rs`: `State`, request state with an expiry time.
- `app/`: the asynchronous side (awaiting request handlers), serde and
  `Display` for errors, and a datastore-backed state store.
