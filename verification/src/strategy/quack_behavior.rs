//! Quacking strategies, mirroring the flying ones.

use vstd::prelude::*;

verus! {

/// A way of quacking.
pub trait QuackBehavior {
    /// The exact sound this behaviour announces.
    spec fn spec_quack(&self) -> Seq<char>;

    /// Quack, announcing the sound.
    fn quack(&self) -> (r: &'static str)
        ensures
            r@ == self.spec_quack(),
    ;
}

/// An ordinary quack.
pub struct Quack;

impl QuackBehavior for Quack {
    open spec fn spec_quack(&self) -> Seq<char> {
        "Quack"@
    }

    fn quack(&self) -> (r: &'static str) {
        "Quack"
    }
}

/// The squeak of a rubber duck.
pub struct Squeak;

impl QuackBehavior for Squeak {
    open spec fn spec_quack(&self) -> Seq<char> {
        "Squeak"@
    }

    fn quack(&self) -> (r: &'static str) {
        "Squeak"
    }
}

/// The closed set of quacking strategies, for a duck that swaps its
/// behaviour while it lives.
pub enum QuackStrategy {
    Quack(Quack),
    Squeak(Squeak),
}

impl QuackBehavior for QuackStrategy {
    open spec fn spec_quack(&self) -> Seq<char> {
        match self {
            QuackStrategy::Quack(b) => b.spec_quack(),
            QuackStrategy::Squeak(b) => b.spec_quack(),
        }
    }

    fn quack(&self) -> (r: &'static str) {
        match self {
            QuackStrategy::Quack(b) => b.quack(),
            QuackStrategy::Squeak(b) => b.quack(),
        }
    }
}

} // verus!
