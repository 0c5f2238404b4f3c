//! Turns a natural-language description into one request to a hosted
//! text-completion service and the service's answer into one shell command.
//!
//! The crate holds the decisions of that exchange: how the prompt and the
//! request are rendered, which answer is taken and how it is trimmed, and in
//! which order the steps of a run may follow each other. Reading arguments,
//! files and sockets is left to the caller.

pub mod error;
pub mod number;
pub mod prompt;
pub mod request;
pub mod response;
pub mod session;
pub mod text;
