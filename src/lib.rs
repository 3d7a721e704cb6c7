//! Decoding of chunked LLM response streams, with request shaping for two
//! text-generation services.
pub mod anthropic;
pub mod classify;
pub mod client;
pub mod framing;
pub mod gemini;
pub mod json;
pub mod reply;
pub mod request;
pub mod stream;
