//! Flying strategies. Each answers with the message describing how (or
//! that) it flies; emitting the message is the caller's concern.

use vstd::prelude::*;

verus! {

/// A way of flying.
pub trait FlyBehavior {
    /// The exact message this behaviour announces.
    spec fn spec_fly(&self) -> Seq<char>;

    /// Fly, announcing how.
    fn fly(&self) -> (r: &'static str)
        ensures
            r@ == self.spec_fly(),
    ;
}

/// Flies the ordinary way.
pub struct FlyWithWings;

impl FlyBehavior for FlyWithWings {
    open spec fn spec_fly(&self) -> Seq<char> {
        "I'm flying with wings."@
    }

    fn fly(&self) -> (r: &'static str) {
        "I'm flying with wings."
    }
}

/// Flies fast.
pub struct FlyWithRocket;

impl FlyBehavior for FlyWithRocket {
    open spec fn spec_fly(&self) -> Seq<char> {
        "I'm flying with rocket."@
    }

    fn fly(&self) -> (r: &'static str) {
        "I'm flying with rocket."
    }
}

/// Does not fly at all.
pub struct FlyNoWay;

impl FlyBehavior for FlyNoWay {
    open spec fn spec_fly(&self) -> Seq<char> {
        "I can't fly."@
    }

    fn fly(&self) -> (r: &'static str) {
        "I can't fly."
    }
}

/// The closed set of flying strategies, for a duck that swaps its
/// behaviour while it lives.
pub enum FlyStrategy {
    WithWings(FlyWithWings),
    WithRocket(FlyWithRocket),
    NoWay(FlyNoWay),
}

impl FlyBehavior for FlyStrategy {
    open spec fn spec_fly(&self) -> Seq<char> {
        match self {
            FlyStrategy::WithWings(b) => b.spec_fly(),
            FlyStrategy::WithRocket(b) => b.spec_fly(),
            FlyStrategy::NoWay(b) => b.spec_fly(),
        }
    }

    fn fly(&self) -> (r: &'static str) {
        match self {
            FlyStrategy::WithWings(b) => b.fly(),
            FlyStrategy::WithRocket(b) => b.fly(),
            FlyStrategy::NoWay(b) => b.fly(),
        }
    }
}

} // verus!
