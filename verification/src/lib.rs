//! The core of an autonomous agent loop: a conversation with a language
//! model, the actions the model may ask for, the bounded prompt that is
//! assembled for it, and the state machine that ties them together.
//!
//! Everything here computes on plain values. Reading and writing files,
//! spawning processes and talking to remote services is left to the caller,
//! which hands the outcomes back as events.
//!
//! Contracts are stated over mathematical views of the data (`Seq<char>` for
//! a text, and so on), and every function is proved to meet its contract,
//! with three exceptions that are marked as trusted where they stand: the
//! two calls into `serde_json` that read a JSON text, and the call into
//! `tiktoken_rs` that counts the tokens of a text.

pub mod action;
pub mod agent;
pub mod configuration;
pub mod conversation;
pub mod execution;
pub mod json;
pub mod main_loop;
pub mod memory;
pub mod pinecone;
pub mod response;
pub mod sandbox;
pub mod store;
pub mod text;
pub mod tokenizer;
