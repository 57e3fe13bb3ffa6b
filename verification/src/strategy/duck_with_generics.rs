//! A duck whose behaviours are chosen at compile time through type
//! parameters.

use vstd::prelude::*;

use crate::strategy::fly_behavior::FlyBehavior;
use crate::strategy::quack_behavior::QuackBehavior;

verus! {

/// A duck composed of one quacking and one flying strategy.
pub struct DuckWithGenerics<Q: QuackBehavior, F: FlyBehavior> {
    pub quack_behavior: Q,
    pub fly_behavior: F,
}

impl<Q, F> DuckWithGenerics<Q, F> where Q: QuackBehavior, F: FlyBehavior {
    /// Compose a duck from the two strategies.
    pub fn new(quack: Q, fly: F) -> (r: Self)
        ensures
            r.quack_behavior == quack,
            r.fly_behavior == fly,
    {
        DuckWithGenerics { quack_behavior: quack, fly_behavior: fly }
    }

    /// Quack with the composed quacking strategy.
    pub fn perform_quack(&self) -> (r: &'static str)
        ensures
            r@ == self.quack_behavior.spec_quack(),
    {
        self.quack_behavior.quack()
    }

    /// Fly with the composed flying strategy.
    pub fn perform_fly(&self) -> (r: &'static str)
        ensures
            r@ == self.fly_behavior.spec_fly(),
    {
        self.fly_behavior.fly()
    }

    /// Swim; every duck swims the same way.
    pub fn swim(&self) -> (r: &'static str)
        ensures
            r@ == "All ducks float, even decoys!"@,
    {
        "All ducks float, even decoys!"
    }
}

} // verus!
