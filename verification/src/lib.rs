//! The core of an interactive agent that talks to a remote model and lets it
//! call tools on the local machine.
//!
//! The library holds what the agent decides and computes; the caller does the
//! outside work (the terminal, the network, the file system, the shell) and
//! hands over what came of it.
//!
//! - [`agent::run`] is the agent loop as a state machine: [`agent::run::Agent`]
//!   takes an event and says what to show the user and what to do next.
//! - [`agent::domain`] is what a conversation holds, and [`agent::wire`] how it
//!   is written to and read from JSON.
//! - [`agent::tools`] declares the tools, checks the arguments of a call and
//!   builds the response to it.
//! - [`agent::rounds`], [`agent::order`] and [`agent::readback`] state what the
//!   state machine and the wire format come to: a round of tool calls, what
//!   holds of every state that can be reached, and that what is written is
//!   read back.
//! - [`tools`] is the part of each tool that computes.
//! - [`json`] and [`text`] are the documents and the texts that all of this
//!   works on.

pub mod agent;
pub mod json;
pub mod model;
pub mod text;
pub mod tools;
