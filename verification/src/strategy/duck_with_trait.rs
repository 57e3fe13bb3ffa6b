//! A duck whose behaviours are chosen at run time and can be swapped.

use vstd::prelude::*;

use crate::strategy::fly_behavior::{FlyBehavior, FlyStrategy};
use crate::strategy::quack_behavior::{QuackBehavior, QuackStrategy};

verus! {

/// A duck holding one strategy of each closed strategy set, replaceable
/// while the duck lives.
pub struct Duck {
    pub quack_behavior: QuackStrategy,
    pub fly_behavior: FlyStrategy,
}

impl Duck {
    /// Compose a duck from the two strategies.
    pub fn new(quack: QuackStrategy, fly: FlyStrategy) -> (r: Duck)
        ensures
            r.quack_behavior == quack,
            r.fly_behavior == fly,
    {
        Self { quack_behavior: quack, fly_behavior: fly }
    }

    /// Quack with the current quacking strategy.
    pub fn perform_quack(&self) -> (r: &'static str)
        ensures
            r@ == self.quack_behavior.spec_quack(),
    {
        self.quack_behavior.quack()
    }

    /// Fly with the current flying strategy.
    pub fn perform_fly(&self) -> (r: &'static str)
        ensures
            r@ == self.fly_behavior.spec_fly(),
    {
        self.fly_behavior.fly()
    }

    /// Swap in another flying strategy.
    pub fn set_fly_behavior(&mut self, fly: FlyStrategy)
        ensures
            final(self).fly_behavior == fly,
            final(self).quack_behavior == old(self).quack_behavior,
    {
        self.fly_behavior = fly;
    }

    /// Swap in another quacking strategy.
    pub fn set_quack_behavior(&mut self, quack: QuackStrategy)
        ensures
            final(self).quack_behavior == quack,
            final(self).fly_behavior == old(self).fly_behavior,
    {
        self.quack_behavior = quack;
    }
}

} // verus!
