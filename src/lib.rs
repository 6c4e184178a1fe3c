//! Conversation state and prompt construction for an interactive,
//! branching historical storytelling game driven by a language model.
//!
//! The library holds the pure part of the game: role-tagged messages,
//! conversation entries and their textual rendering, the prompt builders,
//! a per-user conversation store, and the turn state machine that decides
//! when to summarize, what to send to the model and what to persist.
//! Talking to the model itself is left to the caller, which performs each
//! requested chat call and feeds the reply back.
pub mod conversation;
pub mod engine;
pub mod laws;
pub mod message;
pub mod prompts;
pub mod store;
