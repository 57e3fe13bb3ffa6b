use oop_design::adapter::adaptee::SpecificTarget;
use oop_design::adapter::adapter::TargetAdapter;
use oop_design::adapter::target::{OrdinaryTarget, Target};

#[test]
fn ordinary_target_answers_directly() {
    assert_eq!(OrdinaryTarget.request(), "Ordinary request.");
}

#[test]
fn adaptee_answers_back_to_front() {
    assert_eq!(SpecificTarget.specific_request(), ".tseuqer cificeps a si sihT");
}

#[test]
fn adapter_reverses_the_adaptee_answer() {
    let adapter = TargetAdapter::new(SpecificTarget);
    assert_eq!(adapter.request(), "This is a specific request.");
}
