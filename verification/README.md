# gemini_live_api

A client for live model sessions over WebSocket, for Gemini Live and the OpenAI
Realtime API.

- `src/` is the library, verified with Verus: the messages of both services, what
  their events come to, the session's builder and handle, the decisions of the
  connection, and how an async function becomes a tool.
- `app/` is the running client around it (`gemini_live_client`): sockets, tasks and
  timers, `serde` views of incoming messages, handler trait objects, and the token
  side of `#[tool_function]`.
- `tests/` exercises the library.

What goes through an outside crate is stated in terms of named results: `serde_json`
(`src/json.rs`, `src/types.rs`), `base64` (`src/audio.rs`), `url` and `http`
(`src/client/request.rs`).
