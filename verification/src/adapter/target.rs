//! The interface the client calls, and a target that satisfies it
//! directly.

use vstd::prelude::*;

verus! {

/// Something a client can send a request to. `spec_request` pins the
/// exact text each implementor answers with.
pub trait Target {
    /// The text this target answers with.
    spec fn spec_request(&self) -> Seq<char>;

    /// Answer the client's request.
    fn request(&self) -> (r: String)
        ensures
            r@ == self.spec_request(),
    ;
}

/// A target that is compatible with the client as it stands.
pub struct OrdinaryTarget;

impl Target for OrdinaryTarget {
    open spec fn spec_request(&self) -> Seq<char> {
        "Ordinary request."@
    }

    fn request(&self) -> (r: String) {
        String::from_str("Ordinary request.")
    }
}

} // verus!
