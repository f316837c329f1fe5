use crate::result::Match;
use vstd::prelude::*;

verus! {

/// Starting a chain of matches on any value.
pub trait IntoMatch: Sized {
    /// A successful result that has matched nothing yet: all of this value is
    /// its rest.
    fn into_match<T>(self) -> (result: Match<T, Self>)
        ensures
            result@ == Some((None::<T>, self)),
    {
        Match::new(None, self)
    }
}

impl<T> IntoMatch for T {

}

} // verus!
