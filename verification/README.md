# agent_toolkit

Provider-agnostic building blocks for LLM agents, verified with Verus: the
shared request/response model, a JSON document model, the canonical stream
projection of OpenAI, Anthropic and OpenRouter event streams, the Anthropic
Messages request encoder and response decoder, and the built-in adapter
descriptors.

Layout:

- `src/json.rs` — the `JsonValue` document tree, its mathematical model and
  the serde_json boundary (parsing and rendering).
- `src/text.rs` — string helpers with exact contracts (trimming, comparison,
  decimal rendering).
- `src/types/` — messages, tools, requests, responses, platform and planning
  types, native options.
- `src/stream/` — raw stream frames and the canonical stream projector, with
  the laws every projection keeps (`stream/projector/laws.rs`).
- `src/providers/` — adapter errors and their layering, adapter descriptors and
  platform configuration, the Anthropic family (wire shapes, encode, decode,
  schema helpers, stream projector) and OpenAI family wire types.
- `app/` — serde forms, `std::error::Error` views, reqwest header conversion
  and `f32` sampling controls, outside the verified library.
- `tests/` — executable tests of the library.
