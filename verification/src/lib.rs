//! A small chat-bot library: admission rules for incoming messages, the
//! question extracted from a command, the request handed to a
//! question-answering model, and the reply that goes back to the channel.
//!
//! The library holds the decisions alone. Listening for messages, loading
//! the model and sending the reply are left to the surrounding program.

pub mod filter;
pub mod handler;
pub mod message;
pub mod qa;
pub mod reply;
pub mod text;
