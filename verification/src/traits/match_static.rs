use crate::model::{partitions, static_outcome};
use crate::result::{MappedMatch, Match};
use crate::slices::static_slice;
use crate::strings::static_str;
use crate::traits::MatchFail;
use vstd::prelude::*;
use vstd::std_specs::cmp::PartialEqSpec;

verus! {

/// Matching a fixed pattern at the start of a sequence.
///
/// `E` is the type of the pattern's elements, `T` the type of the pattern
/// and `R` the type of the result.
pub trait MatchStatic<E, T, R>: Sized {
    /// What matching requires of the sequence and the pattern.
    spec fn static_pre(self, pattern: T) -> bool;

    /// What matching returns.
    spec fn static_post(self, pattern: T, result: R) -> bool;

    /// Matches `pattern` at the start of the sequence.
    fn match_static(self, pattern: T) -> (result: R)
        requires
            self.static_pre(pattern),
        ensures
            self.static_post(pattern, result),
    ;
}

/// On a slice the elements are compared with `==`, which has to be the
/// equality that its specification states.
impl<'a, 'b, E, U> MatchStatic<U, &'b [U], Match<&'a [E], &'a [E]>> for &'a [E] where
    E: PartialEq<U>,
 {
    open spec fn static_pre(self, pattern: &'b [U]) -> bool {
        <E as PartialEqSpec<U>>::obeys_eq_spec()
    }

    open spec fn static_post(self, pattern: &'b [U], result: Match<&'a [E], &'a [E]>) -> bool {
        result.parts() == static_outcome(self@, pattern@, |a: E, b: U| a.eq_spec(&b))
    }

    fn match_static(self, pattern: &'b [U]) -> (result: Match<&'a [E], &'a [E]>)
        ensures
            partitions(self@, result.parts()),
    {
        static_slice(self, pattern)
    }
}

impl<'a, 'b, E, U, const N: usize> MatchStatic<U, &'b [U; N], Match<&'a [E], &'a [E]>> for &'a [
    E
] where E: PartialEq<U> {
    open spec fn static_pre(self, pattern: &'b [U; N]) -> bool {
        <E as PartialEqSpec<U>>::obeys_eq_spec()
    }

    open spec fn static_post(self, pattern: &'b [U; N], result: Match<&'a [E], &'a [E]>) -> bool {
        result.parts() == static_outcome(self@, pattern@, |a: E, b: U| a.eq_spec(&b))
    }

    fn match_static(self, pattern: &'b [U; N]) -> (result: Match<&'a [E], &'a [E]>)
        ensures
            partitions(self@, result.parts()),
    {
        static_slice(self, pattern.as_slice())
    }
}

impl<'a, 'b> MatchStatic<char, &'b str, Match<&'a str, &'a str>> for &'a str {
    open spec fn static_pre(self, pattern: &'b str) -> bool {
        true
    }

    open spec fn static_post(self, pattern: &'b str, result: Match<&'a str, &'a str>) -> bool {
        result.parts() == static_outcome(self@, pattern@, |a: char, b: char| a == b)
    }

    fn match_static(self, pattern: &'b str) -> (result: Match<&'a str, &'a str>)
        ensures
            partitions(self@, result.parts()),
    {
        static_str(self, pattern)
    }
}

/// A result is matched on by its rest; a failure stays a failure.
impl<E, T, R, U, V> MatchStatic<E, T, R> for Match<U, V> where R: MatchFail, V: MatchStatic<E, T, R> {
    open spec fn static_pre(self, pattern: T) -> bool {
        match self@ {
            Some((_, rest)) => rest.static_pre(pattern),
            None => true,
        }
    }

    open spec fn static_post(self, pattern: T, result: R) -> bool {
        match self@ {
            Some((_, rest)) => rest.static_post(pattern, result),
            None => result.is_failure(),
        }
    }

    fn match_static(self, pattern: T) -> (result: R) {
        match self.take() {
            Ok((_, rest)) => rest.match_static(pattern),
            Err(_) => R::failed(),
        }
    }
}

/// A mapped result is matched on by its rest; a failure stays a failure.
impl<E, T, R, U, V, Q> MatchStatic<E, T, R> for MappedMatch<U, V, Q> where
    R: MatchFail,
    V: MatchStatic<E, T, R>,
 {
    open spec fn static_pre(self, pattern: T) -> bool {
        match self@ {
            Some((_, rest)) => rest.static_pre(pattern),
            None => true,
        }
    }

    open spec fn static_post(self, pattern: T, result: R) -> bool {
        match self@ {
            Some((_, rest)) => rest.static_post(pattern, result),
            None => result.is_failure(),
        }
    }

    fn match_static(self, pattern: T) -> (result: R) {
        match self.take() {
            Ok((_, rest)) => rest.match_static(pattern),
            Err(_) => R::failed(),
        }
    }
}

} // verus!
