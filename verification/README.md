# tts_starter

A text-to-speech HTTP backend: session tokens (HS256 JWTs), a protected
`POST /api/text-to-speech` endpoint that forwards text to Deepgram's speak API,
`GET /api/metadata` and `GET /health`.

- `src/` is the verified library (Verus): request checks, error bodies and
  their code detection, bearer-token authentication decisions, token issuing,
  secrets, upstream call parameters (the model percent-encoded) and result handling,
  metadata lookup.
  Calls into `jsonwebtoken`, `chrono`, `rand`, `hex`, `toml`, `serde_json` and a
  few std text functions stand behind small trusted wrappers whose contracts
  are documented where they are declared.
- `app/main.rs` is the server: environment, file and network I/O, the axum
  router and middleware, and the serde forms of the library's types.
- `tests/` runs the library with the real outside crates linked.
