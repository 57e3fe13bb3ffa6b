//! The template pattern: one fixed recipe skeleton whose individual
//! steps each beverage fills in.

pub mod caffeine_beverage;
