# laipe

A streaming toolkit for LLM agent apps: three wire protocols (OpenAI Chat
Completions, OpenAI Responses, Anthropic Messages) behind one `StreamEvent`
type, cross-protocol tool calling, an 8-way error classification, and
developer diagnostics (request recording with secret redaction, saved error
reports, an in-memory debug console, a model catalog).

## Layout

- `src/` — the library, verified with Verus. Every decision lives here:
  the SSE framer, the per-protocol request builders and event translators,
  the per-frame stream drivers, error classification, the redaction
  scrubber, the recorder's size cap and `meta.json` record, report and
  README text, the console buffer, the model-catalog slimming / choice /
  resolution, the provider ping's request and verdict, and the agent
  loop's bookkeeping and tool-call decisions. Calls into `reqwest`,
  `chrono`, `flate2` and `indexmap` sit behind small trusted wrappers whose
  doc comments say what is assumed of them.
- `tests/` — tests of the library on concrete values.
- `app/` — host glue (not verified): HTTP streaming with `reqwest` and
  `tokio`, file I/O for recordings, reports and the catalog cache, serde
  copies of the library's types, the cancel handle and the chat command's
  event loop.
