//! The adapter: wraps a `SpecificTarget` and exposes it as a `Target`
//! by reversing the characters of its answer.

use vstd::prelude::*;

use crate::adapter::adaptee::SpecificTarget;
use crate::adapter::target::Target;

verus! {

/// Presents a wrapped `SpecificTarget` through the `Target` interface.
pub struct TargetAdapter {
    pub adaptee: SpecificTarget,
}

impl TargetAdapter {
    /// Wrap `adapter` so a `Target` client can call it.
    pub fn new(adapter: SpecificTarget) -> (r: TargetAdapter)
        ensures
            r.adaptee == adapter,
    {
        TargetAdapter { adaptee: adapter }
    }
}

impl Target for TargetAdapter {
    open spec fn spec_request(&self) -> Seq<char> {
        self.adaptee.spec_specific_request().reverse()
    }

    fn request(&self) -> (r: String) {
        let answer = self.adaptee.specific_request();
        let s = answer.as_str();
        let n = s.unicode_len();
        let mut r = String::new();
        let mut i: usize = 0;
        while i < n
            invariant
                n == s@.len(),
                i <= n,
                r@.len() == i,
                forall|j: int| 0 <= j < i ==> r@[j] == s@[n - 1 - j],
            decreases n - i,
        {
            let piece = s.substring_char(n - 1 - i, n - i);
            r.append(piece);
            i = i + 1;
        }
        proof {
            assert(r@ =~= s@.reverse());
        }
        r
    }
}

} // verus!
