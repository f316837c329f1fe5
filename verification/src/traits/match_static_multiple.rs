use crate::model::{first_static_outcome, partitions, static_outcome};
use crate::result::{MappedMatch, Match};
use crate::slices::static_slice;
use crate::strings::static_str;
use crate::traits::MatchFail;
use vstd::prelude::*;
use vstd::std_specs::cmp::PartialEqSpec;

verus! {

/// Matching the first of several fixed patterns that matches.
///
/// `E` is the type of the patterns' elements, `T` the type of the list of
/// patterns and `R` the type of the result.
pub trait MatchStaticMultiple<E, T, R>: Sized {
    /// What matching requires of the sequence and the patterns.
    spec fn static_multiple_pre(self, patterns: T) -> bool;

    /// What matching returns.
    spec fn static_multiple_post(self, patterns: T, result: R) -> bool;

    /// Matches the patterns in their order at the start of the sequence, and
    /// returns the result of the first that matches.
    fn match_static_multiple(self, patterns: T) -> (result: R)
        requires
            self.static_multiple_pre(patterns),
        ensures
            self.static_multiple_post(patterns, result),
    ;
}

impl<'a, 'b, 'c, E, U> MatchStaticMultiple<U, &'b [&'c [U]], Match<&'a [E], &'a [E]>> for &'a [
    E
] where E: PartialEq<U> {
    open spec fn static_multiple_pre(self, patterns: &'b [&'c [U]]) -> bool {
        <E as PartialEqSpec<U>>::obeys_eq_spec()
    }

    open spec fn static_multiple_post(
        self,
        patterns: &'b [&'c [U]],
        result: Match<&'a [E], &'a [E]>,
    ) -> bool {
        first_static_outcome(
            self@,
            Seq::new(patterns@.len(), |i: int| patterns@[i]@),
            |a: E, b: U| a.eq_spec(&b),
            result.parts(),
        )
    }

    fn match_static_multiple(self, patterns: &'b [&'c [U]]) -> (result: Match<&'a [E], &'a [E]>)
        ensures
            partitions(self@, result.parts()),
    {
        let ghost all = Seq::new(patterns@.len(), |i: int| patterns@[i]@);
        let ghost same = |a: E, b: U| a.eq_spec(&b);
        let mut i: usize = 0;
        while i < patterns.len()
            invariant
                i <= patterns@.len(),
                <E as PartialEqSpec<U>>::obeys_eq_spec(),
                all == Seq::new(patterns@.len(), |i: int| patterns@[i]@),
                same == |a: E, b: U| a.eq_spec(&b),
                forall|j: int| 0 <= j < i ==> static_outcome(self@, #[trigger] all[j], same) is None,
            decreases patterns@.len() - i,
        {
            let attempt = static_slice(self, patterns[i]);
            assert(all[i as int] == patterns@[i as int]@);
            if !attempt.is_failed() {
                return attempt;
            }
            i += 1;
        }
        Match::failed()
    }
}

impl<'a, 'b, 'c, E, U, const N: usize> MatchStaticMultiple<
    U,
    &'b [&'c [U]; N],
    Match<&'a [E], &'a [E]>,
> for &'a [E] where E: PartialEq<U> {
    open spec fn static_multiple_pre(self, patterns: &'b [&'c [U]; N]) -> bool {
        <E as PartialEqSpec<U>>::obeys_eq_spec()
    }

    open spec fn static_multiple_post(
        self,
        patterns: &'b [&'c [U]; N],
        result: Match<&'a [E], &'a [E]>,
    ) -> bool {
        first_static_outcome(
            self@,
            Seq::new(patterns@.len(), |i: int| patterns@[i]@),
            |a: E, b: U| a.eq_spec(&b),
            result.parts(),
        )
    }

    fn match_static_multiple(self, patterns: &'b [&'c [U]; N]) -> (result: Match<
        &'a [E],
        &'a [E],
    >)
        ensures
            partitions(self@, result.parts()),
    {
        self.match_static_multiple(patterns.as_slice())
    }
}

impl<'a, 'b, 'c> MatchStaticMultiple<char, &'b [&'c str], Match<&'a str, &'a str>> for &'a str {
    open spec fn static_multiple_pre(self, patterns: &'b [&'c str]) -> bool {
        true
    }

    open spec fn static_multiple_post(
        self,
        patterns: &'b [&'c str],
        result: Match<&'a str, &'a str>,
    ) -> bool {
        first_static_outcome(
            self@,
            Seq::new(patterns@.len(), |i: int| patterns@[i]@),
            |a: char, b: char| a == b,
            result.parts(),
        )
    }

    fn match_static_multiple(self, patterns: &'b [&'c str]) -> (result: Match<&'a str, &'a str>)
        ensures
            partitions(self@, result.parts()),
    {
        let ghost all = Seq::new(patterns@.len(), |i: int| patterns@[i]@);
        let ghost same = |a: char, b: char| a == b;
        let mut i: usize = 0;
        while i < patterns.len()
            invariant
                i <= patterns@.len(),
                all == Seq::new(patterns@.len(), |i: int| patterns@[i]@),
                same == |a: char, b: char| a == b,
                forall|j: int| 0 <= j < i ==> static_outcome(self@, #[trigger] all[j], same) is None,
            decreases patterns@.len() - i,
        {
            let attempt = static_str(self, patterns[i]);
            assert(all[i as int] == patterns@[i as int]@);
            if !attempt.is_failed() {
                return attempt;
            }
            i += 1;
        }
        Match::failed()
    }
}

impl<'a, 'b, 'c, const N: usize> MatchStaticMultiple<
    char,
    &'b [&'c str; N],
    Match<&'a str, &'a str>,
> for &'a str {
    open spec fn static_multiple_pre(self, patterns: &'b [&'c str; N]) -> bool {
        true
    }

    open spec fn static_multiple_post(
        self,
        patterns: &'b [&'c str; N],
        result: Match<&'a str, &'a str>,
    ) -> bool {
        first_static_outcome(
            self@,
            Seq::new(patterns@.len(), |i: int| patterns@[i]@),
            |a: char, b: char| a == b,
            result.parts(),
        )
    }

    fn match_static_multiple(self, patterns: &'b [&'c str; N]) -> (result: Match<
        &'a str,
        &'a str,
    >)
        ensures
            partitions(self@, result.parts()),
    {
        self.match_static_multiple(patterns.as_slice())
    }
}

/// A result is matched on by its rest; a failure stays a failure.
impl<E, T, R, U, V> MatchStaticMultiple<E, T, R> for Match<U, V> where
    R: MatchFail,
    V: MatchStaticMultiple<E, T, R>,
 {
    open spec fn static_multiple_pre(self, patterns: T) -> bool {
        match self@ {
            Some((_, rest)) => rest.static_multiple_pre(patterns),
            None => true,
        }
    }

    open spec fn static_multiple_post(self, patterns: T, result: R) -> bool {
        match self@ {
            Some((_, rest)) => rest.static_multiple_post(patterns, result),
            None => result.is_failure(),
        }
    }

    fn match_static_multiple(self, patterns: T) -> (result: R) {
        match self.take() {
            Ok((_, rest)) => rest.match_static_multiple(patterns),
            Err(_) => R::failed(),
        }
    }
}

/// A mapped result is matched on by its rest; a failure stays a failure.
impl<E, T, R, U, V, Q> MatchStaticMultiple<E, T, R> for MappedMatch<U, V, Q> where
    R: MatchFail,
    V: MatchStaticMultiple<E, T, R>,
 {
    open spec fn static_multiple_pre(self, patterns: T) -> bool {
        match self@ {
            Some((_, rest)) => rest.static_multiple_pre(patterns),
            None => true,
        }
    }

    open spec fn static_multiple_post(self, patterns: T, result: R) -> bool {
        match self@ {
            Some((_, rest)) => rest.static_multiple_post(patterns, result),
            None => result.is_failure(),
        }
    }

    fn match_static_multiple(self, patterns: T) -> (result: R) {
        match self.take() {
            Ok((_, rest)) => rest.match_static_multiple(patterns),
            Err(_) => R::failed(),
        }
    }
}

} // verus!
