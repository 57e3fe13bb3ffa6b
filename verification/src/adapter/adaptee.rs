//! The incompatible service: it answers, but with its text reversed,
//! so a client that speaks `Target` cannot use it directly.

use vstd::prelude::*;

verus! {

/// A service whose one request method answers back to front.
pub struct SpecificTarget;

impl SpecificTarget {
    /// The exact (reversed) text the service answers with.
    pub open spec fn spec_specific_request(&self) -> Seq<char> {
        ".tseuqer cificeps a si sihT"@
    }

    /// Answer in the service's own reversed convention.
    pub fn specific_request(&self) -> (r: String)
        ensures
            r@ == self.spec_specific_request(),
    {
        String::from_str(".tseuqer cificeps a si sihT")
    }
}

} // verus!
