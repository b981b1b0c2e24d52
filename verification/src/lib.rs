//! laipe — verified core of an LLM agent streaming toolkit.
//!
//! The crate holds the protocol logic: error classification, the SSE byte
//! framer, the three wire-protocol translators (OpenAI Chat Completions,
//! OpenAI Responses, Anthropic Messages), the request-body builders, the
//! diagnostic redaction scrubber, the model-catalog resolver and the
//! agent-loop decisions. Network, disk and runtime glue live outside it.

pub mod error;
pub mod json;
pub mod json_write;
pub mod text;
pub mod sse;
pub mod tool;
pub mod types;
pub mod openai_chat;
pub mod pending;
pub mod openai_responses;
pub mod anthropic;
pub mod recorder;
pub mod streaming;
pub mod redact;
pub mod ping;
pub mod agent;
pub mod console;
pub mod clock;
pub mod diagnostics;
pub mod builtin_tools;
pub mod model_catalog;
