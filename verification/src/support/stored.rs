//! Values that can be copied.

use vstd::prelude::*;

verus! {

/// A value that copies with the same contents can be made of.
pub trait Stored: View + Sized {
    /// A copy with the same contents.
    fn duplicate(&self) -> (r: Self)
        ensures
            r@ == self@,
    ;
}

impl Stored for String {
    fn duplicate(&self) -> (r: Self) {
        self.clone()
    }
}

/// A value that has an identifier of its own.
pub trait Keyed: Stored {
    /// The identifier of a value with the given contents.
    spec fn key_of(contents: Self::V) -> u128;

    /// The identifier.
    fn key(&self) -> (r: u128)
        ensures
            r == Self::key_of(self@),
    ;
}

} // verus!
