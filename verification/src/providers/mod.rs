//! Provider adapters: the error model, the Anthropic and OpenAI-compatible wire
//! families, and adapter selection.

pub mod error;
pub mod anthropic;
pub mod openai;
pub mod adapter;
pub mod fixtures;
