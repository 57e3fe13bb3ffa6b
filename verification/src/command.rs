//! The command pattern: appliances, actions over them, and the
//! dispatcher with its undo history.

pub mod client;
pub mod command;
pub mod enum_match;
pub mod furniture;
pub mod remote_control;
