# codex_ffi

The C interface of the in-process Codex app-server runtime, split in two:

- `src/` is the verified library (Verus). It holds the decisions of the interface:
  - `config`: the runtime configuration and the start-up settings derived from it, with
    every documented default (client name and version, experimental API, form
    elicitation, queue capacity).
  - `outcome`: reading a C string argument (null and UTF-8 checks), the error texts, and
    the status code and error-slot contents each call reports.
  - `json`: JSON values as the runtime reads them, with member lookup and removal. The
    original reads `serde_json::Value`, whose objects are maps; here an object is a list
    of key/value pairs of the library's own type, because the logic reads inside values
    and an outside value is opaque to Verus. `app/` converts between the two, so objects
    read from JSON text have distinct keys (`distinct_keys`, which `take_member` keeps);
    lookups take the first member with a key.
  - `jsonrpc`: the JSON-RPC messages delivered to the caller (answers to its requests,
    server notifications and requests, the lagged notice) and the classification of the
    caller's replies to server requests.
  - `poll`: the event poll as a step function from what happened to what to do next.
- `app/` is the `extern "C"` surface and the tokio runtime hosting the app-server: it
  reads and writes raw pointers, parses and writes JSON with serde, talks to the
  app-server crates, and asks the library what each outcome means.
- `tests/` runs the library on concrete values.
