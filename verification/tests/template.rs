use oop_design::template::caffeine_beverage::{CaffeineBeverage, Coffee, Tea};

#[test]
fn coffee_recipe_with_a_yes_answer_adds_condiments() {
    let steps = Coffee::prepare_recipe("yes");
    assert_eq!(steps, vec!["Boil water", "Brew coffee", "Pour in cup", "Add sugar and milk"]);
}

#[test]
fn coffee_recipe_accepts_an_uppercase_yes() {
    let steps = Coffee::prepare_recipe("Y");
    assert_eq!(steps.len(), 4);
}

#[test]
fn coffee_recipe_with_a_no_answer_skips_condiments() {
    let steps = Coffee::prepare_recipe("no");
    assert_eq!(steps, vec!["Boil water", "Brew coffee", "Pour in cup"]);
    let steps = Coffee::prepare_recipe("");
    assert_eq!(steps.len(), 3);
}

#[test]
fn tea_recipe_always_adds_milk() {
    let steps = Tea::prepare_recipe("no");
    assert_eq!(steps, vec!["Boil water", "Brew tea", "Pour in cup", "Add milk"]);
}

#[test]
fn shared_steps_are_the_same_for_every_beverage() {
    assert_eq!(Coffee::boil_water(), Tea::boil_water());
    assert_eq!(Coffee::pour_in_cup(), "Pour in cup");
}
