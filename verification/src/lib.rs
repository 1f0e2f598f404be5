//! A minimal tool-augmented conversation orchestrator: a conversation
//! transcript is sent to a chat-completion model, the model's structured
//! replies are classified, requested tool invocations are dispatched through
//! a registry, and their results are fed back into the transcript until the
//! model produces a final textual answer.
//!
//! The orchestration decisions, the tool dispatch protocol and the shell
//! command safety filter are verified here; the network call, the file
//! accesses and the subprocess spawns are performed by the surrounding
//! program, which hands their outcomes back as plain values.

pub mod agent;
pub mod args;
pub mod bash;
pub mod defs;
pub mod filter;
pub mod read;
pub mod registry;
pub mod text;
pub mod write;
