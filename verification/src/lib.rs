//! Decision logic of a chat moderation assistant.
//!
//! The library screens inbound chat messages, interprets what a language model
//! answered about a message, and builds the report that is posted when the
//! answer is a violation verdict. Contacting the chat gateway and the model is
//! left to the caller, which hands in plain values and gets plain values back.

pub mod config;
pub mod message;

pub mod summary;
pub mod classifier;
pub mod handler;
pub mod harness;
