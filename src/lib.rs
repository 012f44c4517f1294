//! A command-line chat client's core: the conversation transcript, the reading
//! of a completion response, and the decisions of the turn loop.

pub mod chat;
pub mod interaction;
pub mod text;
