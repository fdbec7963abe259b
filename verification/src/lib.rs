//! Verified core of a conversational backend: a cache-aside session store
//! layered over a document store and an expiring cache, a bounded context
//! windower for prompt construction, and a multi-provider chat-completion
//! gateway with provider fallback and uniform error classification.
//!
//! All I/O (HTTP, document store, cache, clock) happens outside this crate;
//! the functions here take the outside world's answers as plain values and
//! are verified for every such answer.

pub mod ai;
pub mod chat;
pub mod json;
pub mod llm;
pub mod session;
pub mod store;
pub mod stt;
pub mod text;
pub mod time;
pub mod transcript;

pub use session::Message;
pub use session::Session;
