//! Command-dispatch and undo framework, together with a few smaller
//! interface-abstraction exercises (adapter, strategy, template).
//!
//! The heart of the crate is the `command` module: appliance state
//! machines, an action abstraction with forward and inverse effects,
//! and a dispatcher that binds actions to numbered slots and keeps a
//! LIFO history of executed actions so that the most recent one can be
//! reversed exactly.

pub mod adapter;
pub mod command;
pub mod strategy;
pub mod template;
