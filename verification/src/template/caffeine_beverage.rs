//! A caffeinated drink prepared by one fixed recipe: boil water, brew,
//! pour, and — if the customer wants them — add condiments. Each
//! beverage supplies its own brewing and condiment steps; the recipe
//! itself never changes. The steps come back as messages, in order;
//! emitting them (and asking the customer) is the caller's concern.

use vstd::prelude::*;

verus! {

/// A beverage preparable by the fixed recipe. `prepare_recipe` is the
/// template method: its default body is the recipe, stated exactly by
/// its contract, and implementors only fill in the varying steps.
pub trait CaffeineBeverage {
    /// The message announcing this beverage's brewing step.
    spec fn spec_brew() -> Seq<char>;

    /// The message announcing this beverage's condiments step.
    spec fn spec_add_condiments() -> Seq<char>;

    /// Whether a customer who answered `answer` wants condiments. By
    /// default every customer does, whatever the answer.
    open spec fn spec_wants_condiments(answer: Seq<char>) -> bool {
        true
    }

    /// Brew the beverage.
    fn brew() -> (r: &'static str)
        ensures
            r@ == Self::spec_brew(),
    ;

    /// Add this beverage's condiments.
    fn add_condiments() -> (r: &'static str)
        ensures
            r@ == Self::spec_add_condiments(),
    ;

    /// Boil the water; the same for every beverage.
    fn boil_water() -> (r: &'static str)
        ensures
            r@ == "Boil water"@,
    {
        "Boil water"
    }

    /// Pour into the cup; the same for every beverage.
    fn pour_in_cup() -> (r: &'static str)
        ensures
            r@ == "Pour in cup"@,
    {
        "Pour in cup"
    }

    /// Decide from the customer's answer whether to add condiments.
    fn customer_wants_condiments(answer: &str) -> (r: bool)
        ensures
            r == Self::spec_wants_condiments(answer@),
    ;

    /// The template method: the recipe's steps, in order, with the
    /// condiments step exactly when the customer wants it.
    fn prepare_recipe(answer: &str) -> (steps: Vec<&'static str>)
        ensures
            steps@.len() == if Self::spec_wants_condiments(answer@) {
                4int
            } else {
                3int
            },
            steps@[0]@ == "Boil water"@,
            steps@[1]@ == Self::spec_brew(),
            steps@[2]@ == "Pour in cup"@,
            Self::spec_wants_condiments(answer@) ==> steps@[3]@ == Self::spec_add_condiments(),
    {
        let mut steps: Vec<&'static str> = Vec::new();
        steps.push(Self::boil_water());
        steps.push(Self::brew());
        steps.push(Self::pour_in_cup());
        if Self::customer_wants_condiments(answer) {
            steps.push(Self::add_condiments());
        }
        steps
    }
}

/// Coffee: brews coffee, adds sugar and milk, and only when the
/// customer's answer starts with a `y` in either case.
pub struct Coffee;

impl CaffeineBeverage for Coffee {
    open spec fn spec_brew() -> Seq<char> {
        "Brew coffee"@
    }

    open spec fn spec_add_condiments() -> Seq<char> {
        "Add sugar and milk"@
    }

    open spec fn spec_wants_condiments(answer: Seq<char>) -> bool {
        answer.len() > 0 && (answer[0] == 'y' || answer[0] == 'Y')
    }

    fn brew() -> (r: &'static str) {
        "Brew coffee"
    }

    fn add_condiments() -> (r: &'static str) {
        "Add sugar and milk"
    }

    fn customer_wants_condiments(answer: &str) -> (r: bool) {
        if answer.unicode_len() == 0 {
            false
        } else {
            let c = answer.get_char(0);
            c == 'y' || c == 'Y'
        }
    }
}

/// Tea: brews tea, adds milk, and keeps the default of always adding
/// condiments.
pub struct Tea;

impl CaffeineBeverage for Tea {
    open spec fn spec_brew() -> Seq<char> {
        "Brew tea"@
    }

    open spec fn spec_add_condiments() -> Seq<char> {
        "Add milk"@
    }

    fn brew() -> (r: &'static str) {
        "Brew tea"
    }

    fn add_condiments() -> (r: &'static str) {
        "Add milk"
    }

    fn customer_wants_condiments(_answer: &str) -> (r: bool) {
        true
    }
}

} // verus!
