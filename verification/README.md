# zzrpc

Remote procedure calls over message transports, as a Verus-verified library.

- `src/` — the verified library: wire messages and errors (`error`,
  `consumer`, `producer`), the consumer's bookkeeping of pending requests
  (`consumer::state`), the life cycle of request futures, streams and
  aborters (`consumer::request`), the producer's main-loop decisions
  (`producer`), the timeout state (`timeout`), the keyed table both sides
  keep (`table`), the error callbacks (`callback`), and what the `api`
  attribute derives from a trait (`derive`, with case conversion and fresh
  names from `convert_case` and `uuid` in `naming`).
- `tests/` — tests of the library on concrete values.
- `app/` — the runtime around it: channels, tokio tasks, transports
  (`mezzenger`), serde copies of the messages, the futures that poll
  channels and hand each poll's outcome to the library, and the token
  generator (syn, quote) behind the `api` attribute and the `Produce` derive.
