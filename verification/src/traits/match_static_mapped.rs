use crate::result::{MappedMatch, Match};
use crate::traits::MatchStatic;
use vstd::prelude::*;

verus! {

/// Matching a fixed pattern and mapping a value to what it matches.
pub trait MatchStaticMapped<E, T, R, M>: Sized {
    /// What matching requires of the sequence and the pattern.
    spec fn static_mapped_pre(self, pattern: T) -> bool;

    /// What matching returns.
    spec fn static_mapped_post(self, pattern: T, value: M, result: R) -> bool;

    /// Matches `pattern` at the start of the sequence, and maps `value` to
    /// the matched part.
    fn match_static_mapped(self, pattern: T, value: M) -> (result: R)
        requires
            self.static_mapped_pre(pattern),
        ensures
            self.static_mapped_post(pattern, value, result),
    ;
}

/// Whatever matches a fixed pattern does so with a mapped value too: the
/// result is that of `match_static` with the value attached.
impl<E, T, M, R, Q, I> MatchStaticMapped<E, T, MappedMatch<M, R, Q>, Q> for I where
    I: MatchStatic<E, T, Match<M, R>>,
 {
    open spec fn static_mapped_pre(self, pattern: T) -> bool {
        self.static_pre(pattern)
    }

    open spec fn static_mapped_post(
        self,
        pattern: T,
        value: Q,
        result: MappedMatch<M, R, Q>,
    ) -> bool {
        exists|plain: Match<M, R>| #[trigger]
            self.static_post(pattern, plain) && result@ == Match::mapped(plain@, value)
    }

    fn match_static_mapped(self, pattern: T, value: Q) -> (result: MappedMatch<M, R, Q>) {
        self.match_static(pattern).map(value)
    }
}

} // verus!
