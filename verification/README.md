# ai-sdk-core

The core of an AI SDK, written in Verus: message and prompt types, tool-call
bookkeeping, the conversion of conversations into provider prompts, the
parsing and checking of tool calls, retries, and the decisions that drive
multi-step and streaming generation. Each public function states what it
returns in its contract, and Verus proves it against those contracts and the
contracts of the trusted wrappers around `serde_json`, `jsonschema`,
`base64`, `tokio-util` and a few std functions, which are believed, not
proved.

Layout:

- `src/` — the verified library. `convert` turns prompts into provider
  messages; `generate_text` holds tool-call parsing, step results, response
  messages and the multi-step decisions; `stream_text` holds the stream parts
  and the state machines that a streaming run steps through; `retries`,
  `rerank`, `tool` and `error` hold the rest. JSON goes through `serde_json`
  and schema checks through `jsonschema`, behind small trusted wrappers.
- `app/` — the asynchronous parts around the library: model calls, tool
  execution, the generation and streaming loops, callbacks and settings with
  floating-point values.
- `tests/` — tests of the library on concrete values.
