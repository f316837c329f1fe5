use crate::result::{AlternativesMatch, MappedAlternativesMatch};
use vstd::prelude::*;

verus! {

/// Starting a tree of alternatives on any value.
pub trait Alternatives: Sized {
    /// Starts a tree of alternatives, each of which is tried on this value.
    fn alternatives<T, U>(self) -> (tree: AlternativesMatch<Self, T, U>)
        ensures
            tree@ == (self, None::<(Option<T>, U)>),
    {
        AlternativesMatch::new(self)
    }

    /// Starts a tree of alternatives whose branches map a value to what they
    /// match.
    fn mapped_alternatives<T, U, V>(self) -> (tree: MappedAlternativesMatch<Self, T, U, V>)
        ensures
            tree@ == (self, None::<(Option<(T, V)>, U)>),
    {
        MappedAlternativesMatch::new(self)
    }
}

impl<T> Alternatives for T {

}

} // verus!
