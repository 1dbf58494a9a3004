# job_agent

A job-hunting assistant: a local HTTP API over a SQLite database of LLM service
providers, a planner bridge driven from a terminal interface, and a small daemon and
command-line tool. The decision-making core is written in Verus and proved against its
specifications; the input/output shell around it is ordinary Rust.

## Layout

- `src/` — the verified library.
  - `text.rs`: whitespace trimming, ASCII case-insensitive comparison, decimal notation.
  - `endpoint.rs`: the chat-completions endpoint derived from a provider's base URL.
  - `provider.rs`: provider selection by name, the checks before a chat call, task requests.
  - `chat.rs`: chat-completions message types.
  - `storage.rs`: database bootstrap and recovery decisions, reset outcome, schema script splitting.
  - `cli.rs`: arguments of the daemon and of the service tool.
  - `urls.rs`: addresses of the API and of the planner bridge.
  - `layout.rs`: screen geometry (with `ratatui`'s layout solver behind a trusted wrapper).
  - `tui.rs`: the terminal interface as a state machine, with its laws.
- `tests/` — tests of the library.
- `app/` — the executable: SQLite access, HTTP server and clients, the WebSocket log
  stream, terminal drawing and the event loop.

The schema script is read at run time from `migrations/0001_init.sql`.
