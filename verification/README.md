# twitch_1337

The logic of a Twitch chat bot (pings, `!ai` with memory and web tools,
random AI reactions, `!up` flight lookups, a settings dashboard), written
in Verus with its behaviour stated in `requires`/`ensures` contracts.

## Layout

- `src/` — the verified library.
  - `text.rs`: string specifications (trim, ASCII case, words, decimal and
    hex rendering) and the executable helpers proved against them.
  - `settings/`: runtime settings, sparse overrides, resolution, merging,
    resets, validation, the audit diff, and the store's decisions (`plan`).
    `laws.rs` states what holds across these operations.
  - `history.rs`: the rolling chat history buffer and its paged query.
  - `memory/`: prompt fencing and injection budget, the memory store's
    tool calls, and the memory-file tool rules of a chat turn.
  - `llm.rs`: chat-completion types and the tool-calling agent loop as a
    state machine.
  - `content.rs`: web tools: search planning, SSRF guards, fetch checks,
    content-type handling, readable-text extraction, tool payloads.
  - `commands.rs`, `ai_command.rs`, `reactions.rs`, `aviation.rs`,
    `web.rs`: the decisions of chat commands, `!ai` (`start_ai_command`:
    cooldown, usage, then the memory, web or plain path; `reply_for` for
    the answer), AI reactions, `!up` (`start_up_command`: usage, cooldown,
    then the lookup; the candidate selection and the reply text) and the
    dashboard. The network calls, the model calls and the chat I/O around
    these decisions are not part of the library.
  - `config.rs`, `clock.rs`: configuration validation; Berlin wall time.
- `tests/` — tests of the library on concrete values.
- `app/` — the program around the library: reading `config.toml` and the
  data files, floating-point parts (reaction chances, flight geometry),
  and the helix HTTP client.

Calls into outside crates (chrono, url, regex, scraper, infer, rand,
serde_json, bytesize, urlencoding, hex) sit behind small trusted wrappers
whose contracts name or state their results.
