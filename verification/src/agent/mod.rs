//! The agent: what a conversation holds, how it goes over the wire, which tools
//! the model may call, and the state machine that takes turns.

pub mod domain;
pub mod order;
pub mod readback;
pub mod rounds;
pub mod run;
pub mod tools;
pub mod wire;
