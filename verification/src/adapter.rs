//! The adapter pattern: a client that speaks `Target` drives an
//! incompatible `SpecificTarget` through a thin adapter.

pub mod adaptee;
pub mod adapter;
pub mod target;
