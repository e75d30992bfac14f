//! What the young of an animal are called.

use vstd::prelude::*;

verus! {

/// An animal kind that has a word for its young.
pub trait Animal {
    /// The word for a young animal of this kind.
    fn baby_name() -> String;
}

/// A dog.
pub struct Dog;

impl Dog {
    /// The name that every puppy is called by: Spot.
    pub fn baby_name() -> (name: String)
        ensures
            name@ == "Spot"@,
    {
        "Spot".to_owned()
    }
}

impl Animal for Dog {
    /// A young dog is a puppy.
    fn baby_name() -> (name: String)
        ensures
            name@ == "puppy"@,
    {
        "puppy".to_owned()
    }
}

} // verus!
