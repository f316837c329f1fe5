use vstd::prelude::*;

verus! {

/// Results that have a failed state.
pub trait MatchFail: Sized {
    /// Whether this value is a failure.
    spec fn is_failure(&self) -> bool;

    /// Constructs a failure.
    fn failed() -> (result: Self)
        ensures
            result.is_failure(),
    ;
}

} // verus!
