//! The strategy pattern: ducks whose flying and quacking behaviours
//! are swappable implementations behind small interfaces.

pub mod duck_with_generics;
pub mod duck_with_trait;
pub mod fly_behavior;
pub mod quack_behavior;
