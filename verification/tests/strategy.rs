use oop_design::strategy::duck_with_generics::DuckWithGenerics;
use oop_design::strategy::duck_with_trait::Duck;
use oop_design::strategy::fly_behavior::{
    FlyBehavior, FlyNoWay, FlyStrategy, FlyWithRocket, FlyWithWings,
};
use oop_design::strategy::quack_behavior::{Quack, QuackBehavior, QuackStrategy, Squeak};

#[test]
fn fly_behaviors_announce_themselves() {
    assert_eq!(FlyWithWings.fly(), "I'm flying with wings.");
    assert_eq!(FlyWithRocket.fly(), "I'm flying with rocket.");
    assert_eq!(FlyNoWay.fly(), "I can't fly.");
}

#[test]
fn quack_behaviors_announce_themselves() {
    assert_eq!(Quack.quack(), "Quack");
    assert_eq!(Squeak.quack(), "Squeak");
}

#[test]
fn generic_duck_uses_its_composed_strategies() {
    let mallard = DuckWithGenerics::new(Quack, FlyWithWings);
    assert_eq!(mallard.perform_quack(), "Quack");
    assert_eq!(mallard.perform_fly(), "I'm flying with wings.");
    assert_eq!(mallard.swim(), "All ducks float, even decoys!");
}

#[test]
fn runtime_duck_swaps_strategies() {
    let mut duck = Duck::new(
        QuackStrategy::Quack(Quack),
        FlyStrategy::NoWay(FlyNoWay),
    );
    assert_eq!(duck.perform_quack(), "Quack");
    assert_eq!(duck.perform_fly(), "I can't fly.");

    duck.set_fly_behavior(FlyStrategy::WithRocket(FlyWithRocket));
    assert_eq!(duck.perform_fly(), "I'm flying with rocket.");
    assert_eq!(duck.perform_quack(), "Quack");

    duck.set_quack_behavior(QuackStrategy::Squeak(Squeak));
    assert_eq!(duck.perform_quack(), "Squeak");
}
