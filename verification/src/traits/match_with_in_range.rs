use crate::model::{
    accepts_by_ref, accepts_by_value, all_callable_by_ref, all_callable_by_value, partitions,
    rejects_by_ref, rejects_by_value,
};
use crate::result::{MappedMatch, Match};
use crate::slices::{range_slice_by_ref, range_slice_by_value};
use crate::strings::{range_str_by_ref, range_str_by_value};
use crate::traits::{MatchFail, MatchWith, SafeAsUsize};
use vstd::prelude::*;

verus! {

/// Matching by a predicate under a minimum and a maximum count of elements.
///
/// The matched part is the longest prefix, of at most the maximum count of
/// elements, whose elements all satisfy the predicate; the match fails where
/// that prefix is shorter than the minimum. It fails, too, where a count is
/// negative or does not fit a `usize`, where the maximum is below the
/// minimum, and where the sequence is shorter than the minimum; the
/// predicate is not called then.
pub trait MatchWithInRange<E, R>: MatchWith<E, R> {
    /// Matches the longest prefix whose elements all satisfy `pattern`, and
    /// fails if it has fewer than `minimum` elements.
    fn match_min_with<N, F>(self, minimum: N, pattern: F) -> (result: R) where
        E: Clone,
        N: SafeAsUsize,
        F: FnMut(E) -> bool,

        requires
            all_callable_by_value(self.elements(), pattern),
        ensures
            self.scan_post(
                Some(minimum.count()),
                None,
                |e: E| accepts_by_value(pattern, e),
                |e: E| rejects_by_value(pattern, e),
                result,
            ),
    ;

    /// Matches the longest prefix of at most `maximum` elements whose
    /// elements all satisfy `pattern`.
    fn match_max_with<N, F>(self, maximum: N, pattern: F) -> (result: R) where
        E: Clone,
        N: SafeAsUsize,
        F: FnMut(E) -> bool,

        requires
            all_callable_by_value(self.elements(), pattern),
        ensures
            self.scan_post(
                None,
                Some(maximum.count()),
                |e: E| accepts_by_value(pattern, e),
                |e: E| rejects_by_value(pattern, e),
                result,
            ),
    ;

    /// Matches the longest prefix of at most `maximum` elements whose
    /// elements all satisfy `pattern`, and fails if it has fewer than
    /// `minimum` elements.
    fn match_min_max_with<N, F>(self, minimum: N, maximum: N, pattern: F) -> (result: R) where
        E: Clone,
        N: SafeAsUsize,
        F: FnMut(E) -> bool,

        requires
            all_callable_by_value(self.elements(), pattern),
        ensures
            self.scan_post(
                Some(minimum.count()),
                Some(maximum.count()),
                |e: E| accepts_by_value(pattern, e),
                |e: E| rejects_by_value(pattern, e),
                result,
            ),
    ;

    /// Matches exactly `count` elements, each of which satisfies `pattern`.
    fn match_exact_with<N, F>(self, count: N, pattern: F) -> (result: R) where
        E: Clone,
        N: SafeAsUsize,
        F: FnMut(E) -> bool,

        requires
            all_callable_by_value(self.elements(), pattern),
        ensures
            self.scan_post(
                Some(count.count()),
                Some(count.count()),
                |e: E| accepts_by_value(pattern, e),
                |e: E| rejects_by_value(pattern, e),
                result,
            ),
    ;

    /// As `match_min_with`, for a predicate that takes each element by
    /// reference.
    fn match_min_with_ref<N, F>(self, minimum: N, pattern: F) -> (result: R) where
        N: SafeAsUsize,
        F: FnMut(&E) -> bool,

        requires
            all_callable_by_ref(self.elements(), pattern),
        ensures
            self.scan_post(
                Some(minimum.count()),
                None,
                |e: E| accepts_by_ref(pattern, e),
                |e: E| rejects_by_ref(pattern, e),
                result,
            ),
    ;

    /// As `match_max_with`, for a predicate that takes each element by
    /// reference.
    fn match_max_with_ref<N, F>(self, maximum: N, pattern: F) -> (result: R) where
        N: SafeAsUsize,
        F: FnMut(&E) -> bool,

        requires
            all_callable_by_ref(self.elements(), pattern),
        ensures
            self.scan_post(
                None,
                Some(maximum.count()),
                |e: E| accepts_by_ref(pattern, e),
                |e: E| rejects_by_ref(pattern, e),
                result,
            ),
    ;

    /// As `match_min_max_with`, for a predicate that takes each element by
    /// reference.
    fn match_min_max_with_ref<N, F>(self, minimum: N, maximum: N, pattern: F) -> (result: R) where
        N: SafeAsUsize,
        F: FnMut(&E) -> bool,

        requires
            all_callable_by_ref(self.elements(), pattern),
        ensures
            self.scan_post(
                Some(minimum.count()),
                Some(maximum.count()),
                |e: E| accepts_by_ref(pattern, e),
                |e: E| rejects_by_ref(pattern, e),
                result,
            ),
    ;

    /// As `match_exact_with`, for a predicate that takes each element by
    /// reference.
    fn match_exact_with_ref<N, F>(self, count: N, pattern: F) -> (result: R) where
        N: SafeAsUsize,
        F: FnMut(&E) -> bool,

        requires
            all_callable_by_ref(self.elements(), pattern),
        ensures
            self.scan_post(
                Some(count.count()),
                Some(count.count()),
                |e: E| accepts_by_ref(pattern, e),
                |e: E| rejects_by_ref(pattern, e),
                result,
            ),
    ;
}

impl<'a, E> MatchWithInRange<E, Match<&'a [E], &'a [E]>> for &'a [E] {
    fn match_min_with<N, F>(self, minimum: N, pattern: F) -> (result: Match<
        &'a [E],
        &'a [E],
    >) where E: Clone, N: SafeAsUsize, F: FnMut(E) -> bool
        ensures
            partitions(self@, result.parts()),
    {
        match minimum.as_usize() {
            Some(floor) => range_slice_by_value(self, floor, self.len(), pattern),
            None => Match::failed(),
        }
    }

    fn match_max_with<N, F>(self, maximum: N, pattern: F) -> (result: Match<
        &'a [E],
        &'a [E],
    >) where E: Clone, N: SafeAsUsize, F: FnMut(E) -> bool
        ensures
            partitions(self@, result.parts()),
    {
        match maximum.as_usize() {
            Some(limit) => range_slice_by_value(self, 0, limit, pattern),
            None => Match::failed(),
        }
    }

    fn match_min_max_with<N, F>(self, minimum: N, maximum: N, pattern: F) -> (result: Match<
        &'a [E],
        &'a [E],
    >) where E: Clone, N: SafeAsUsize, F: FnMut(E) -> bool
        ensures
            partitions(self@, result.parts()),
    {
        match (minimum.as_usize(), maximum.as_usize()) {
            (Some(floor), Some(limit)) => range_slice_by_value(self, floor, limit, pattern),
            _ => Match::failed(),
        }
    }

    fn match_exact_with<N, F>(self, count: N, pattern: F) -> (result: Match<
        &'a [E],
        &'a [E],
    >) where E: Clone, N: SafeAsUsize, F: FnMut(E) -> bool
        ensures
            partitions(self@, result.parts()),
    {
        match count.as_usize() {
            Some(exact) => range_slice_by_value(self, exact, exact, pattern),
            None => Match::failed(),
        }
    }

    fn match_min_with_ref<N, F>(self, minimum: N, pattern: F) -> (result: Match<
        &'a [E],
        &'a [E],
    >) where N: SafeAsUsize, F: FnMut(&E) -> bool
        ensures
            partitions(self@, result.parts()),
    {
        match minimum.as_usize() {
            Some(floor) => range_slice_by_ref(self, floor, self.len(), pattern),
            None => Match::failed(),
        }
    }

    fn match_max_with_ref<N, F>(self, maximum: N, pattern: F) -> (result: Match<
        &'a [E],
        &'a [E],
    >) where N: SafeAsUsize, F: FnMut(&E) -> bool
        ensures
            partitions(self@, result.parts()),
    {
        match maximum.as_usize() {
            Some(limit) => range_slice_by_ref(self, 0, limit, pattern),
            None => Match::failed(),
        }
    }

    fn match_min_max_with_ref<N, F>(self, minimum: N, maximum: N, pattern: F) -> (result: Match<
        &'a [E],
        &'a [E],
    >) where N: SafeAsUsize, F: FnMut(&E) -> bool
        ensures
            partitions(self@, result.parts()),
    {
        match (minimum.as_usize(), maximum.as_usize()) {
            (Some(floor), Some(limit)) => range_slice_by_ref(self, floor, limit, pattern),
            _ => Match::failed(),
        }
    }

    fn match_exact_with_ref<N, F>(self, count: N, pattern: F) -> (result: Match<
        &'a [E],
        &'a [E],
    >) where N: SafeAsUsize, F: FnMut(&E) -> bool
        ensures
            partitions(self@, result.parts()),
    {
        match count.as_usize() {
            Some(exact) => range_slice_by_ref(self, exact, exact, pattern),
            None => Match::failed(),
        }
    }
}

impl<'a> MatchWithInRange<char, Match<&'a str, &'a str>> for &'a str {
    fn match_min_with<N, F>(self, minimum: N, pattern: F) -> (result: Match<
        &'a str,
        &'a str,
    >) where N: SafeAsUsize, F: FnMut(char) -> bool
        ensures
            partitions(self@, result.parts()),
    {
        match minimum.as_usize() {
            Some(floor) => range_str_by_value(self, floor, None, pattern),
            None => Match::failed(),
        }
    }

    fn match_max_with<N, F>(self, maximum: N, pattern: F) -> (result: Match<
        &'a str,
        &'a str,
    >) where N: SafeAsUsize, F: FnMut(char) -> bool
        ensures
            partitions(self@, result.parts()),
    {
        match maximum.as_usize() {
            Some(limit) => range_str_by_value(self, 0, Some(limit), pattern),
            None => Match::failed(),
        }
    }

    fn match_min_max_with<N, F>(self, minimum: N, maximum: N, pattern: F) -> (result: Match<
        &'a str,
        &'a str,
    >) where N: SafeAsUsize, F: FnMut(char) -> bool
        ensures
            partitions(self@, result.parts()),
    {
        match (minimum.as_usize(), maximum.as_usize()) {
            (Some(floor), Some(limit)) => range_str_by_value(self, floor, Some(limit), pattern),
            _ => Match::failed(),
        }
    }

    fn match_exact_with<N, F>(self, count: N, pattern: F) -> (result: Match<
        &'a str,
        &'a str,
    >) where N: SafeAsUsize, F: FnMut(char) -> bool
        ensures
            partitions(self@, result.parts()),
    {
        match count.as_usize() {
            Some(exact) => range_str_by_value(self, exact, Some(exact), pattern),
            None => Match::failed(),
        }
    }

    fn match_min_with_ref<N, F>(self, minimum: N, pattern: F) -> (result: Match<
        &'a str,
        &'a str,
    >) where N: SafeAsUsize, F: FnMut(&char) -> bool
        ensures
            partitions(self@, result.parts()),
    {
        match minimum.as_usize() {
            Some(floor) => range_str_by_ref(self, floor, None, pattern),
            None => Match::failed(),
        }
    }

    fn match_max_with_ref<N, F>(self, maximum: N, pattern: F) -> (result: Match<
        &'a str,
        &'a str,
    >) where N: SafeAsUsize, F: FnMut(&char) -> bool
        ensures
            partitions(self@, result.parts()),
    {
        match maximum.as_usize() {
            Some(limit) => range_str_by_ref(self, 0, Some(limit), pattern),
            None => Match::failed(),
        }
    }

    fn match_min_max_with_ref<N, F>(self, minimum: N, maximum: N, pattern: F) -> (result: Match<
        &'a str,
        &'a str,
    >) where N: SafeAsUsize, F: FnMut(&char) -> bool
        ensures
            partitions(self@, result.parts()),
    {
        match (minimum.as_usize(), maximum.as_usize()) {
            (Some(floor), Some(limit)) => range_str_by_ref(self, floor, Some(limit), pattern),
            _ => Match::failed(),
        }
    }

    fn match_exact_with_ref<N, F>(self, count: N, pattern: F) -> (result: Match<
        &'a str,
        &'a str,
    >) where N: SafeAsUsize, F: FnMut(&char) -> bool
        ensures
            partitions(self@, result.parts()),
    {
        match count.as_usize() {
            Some(exact) => range_str_by_ref(self, exact, Some(exact), pattern),
            None => Match::failed(),
        }
    }
}

/// A result is matched on by its rest; a failure stays a failure, and the
/// predicate is not called.
impl<E, R, U, V> MatchWithInRange<E, R> for Match<U, V> where
    R: MatchFail,
    V: MatchWithInRange<E, R>,
 {
    fn match_min_with<N, F>(self, minimum: N, pattern: F) -> (result: R) where
        E: Clone,
        N: SafeAsUsize,
        F: FnMut(E) -> bool,
     {
        match self.take() {
            Ok((_, rest)) => rest.match_min_with(minimum, pattern),
            Err(_) => R::failed(),
        }
    }

    fn match_max_with<N, F>(self, maximum: N, pattern: F) -> (result: R) where
        E: Clone,
        N: SafeAsUsize,
        F: FnMut(E) -> bool,
     {
        match self.take() {
            Ok((_, rest)) => rest.match_max_with(maximum, pattern),
            Err(_) => R::failed(),
        }
    }

    fn match_min_max_with<N, F>(self, minimum: N, maximum: N, pattern: F) -> (result: R) where
        E: Clone,
        N: SafeAsUsize,
        F: FnMut(E) -> bool,
     {
        match self.take() {
            Ok((_, rest)) => rest.match_min_max_with(minimum, maximum, pattern),
            Err(_) => R::failed(),
        }
    }

    fn match_exact_with<N, F>(self, count: N, pattern: F) -> (result: R) where
        E: Clone,
        N: SafeAsUsize,
        F: FnMut(E) -> bool,
     {
        match self.take() {
            Ok((_, rest)) => rest.match_exact_with(count, pattern),
            Err(_) => R::failed(),
        }
    }

    fn match_min_with_ref<N, F>(self, minimum: N, pattern: F) -> (result: R) where
        N: SafeAsUsize,
        F: FnMut(&E) -> bool,
     {
        match self.take() {
            Ok((_, rest)) => rest.match_min_with_ref(minimum, pattern),
            Err(_) => R::failed(),
        }
    }

    fn match_max_with_ref<N, F>(self, maximum: N, pattern: F) -> (result: R) where
        N: SafeAsUsize,
        F: FnMut(&E) -> bool,
     {
        match self.take() {
            Ok((_, rest)) => rest.match_max_with_ref(maximum, pattern),
            Err(_) => R::failed(),
        }
    }

    fn match_min_max_with_ref<N, F>(self, minimum: N, maximum: N, pattern: F) -> (result: R) where
        N: SafeAsUsize,
        F: FnMut(&E) -> bool,
     {
        match self.take() {
            Ok((_, rest)) => rest.match_min_max_with_ref(minimum, maximum, pattern),
            Err(_) => R::failed(),
        }
    }

    fn match_exact_with_ref<N, F>(self, count: N, pattern: F) -> (result: R) where
        N: SafeAsUsize,
        F: FnMut(&E) -> bool,
     {
        match self.take() {
            Ok((_, rest)) => rest.match_exact_with_ref(count, pattern),
            Err(_) => R::failed(),
        }
    }
}

/// A mapped result is matched on by its rest; a failure stays a failure, and the
/// predicate is not called.
impl<E, R, U, V, Q> MatchWithInRange<E, R> for MappedMatch<U, V, Q> where
    R: MatchFail,
    V: MatchWithInRange<E, R>,
 {
    fn match_min_with<N, F>(self, minimum: N, pattern: F) -> (result: R) where
        E: Clone,
        N: SafeAsUsize,
        F: FnMut(E) -> bool,
     {
        match self.take() {
            Ok((_, rest)) => rest.match_min_with(minimum, pattern),
            Err(_) => R::failed(),
        }
    }

    fn match_max_with<N, F>(self, maximum: N, pattern: F) -> (result: R) where
        E: Clone,
        N: SafeAsUsize,
        F: FnMut(E) -> bool,
     {
        match self.take() {
            Ok((_, rest)) => rest.match_max_with(maximum, pattern),
            Err(_) => R::failed(),
        }
    }

    fn match_min_max_with<N, F>(self, minimum: N, maximum: N, pattern: F) -> (result: R) where
        E: Clone,
        N: SafeAsUsize,
        F: FnMut(E) -> bool,
     {
        match self.take() {
            Ok((_, rest)) => rest.match_min_max_with(minimum, maximum, pattern),
            Err(_) => R::failed(),
        }
    }

    fn match_exact_with<N, F>(self, count: N, pattern: F) -> (result: R) where
        E: Clone,
        N: SafeAsUsize,
        F: FnMut(E) -> bool,
     {
        match self.take() {
            Ok((_, rest)) => rest.match_exact_with(count, pattern),
            Err(_) => R::failed(),
        }
    }

    fn match_min_with_ref<N, F>(self, minimum: N, pattern: F) -> (result: R) where
        N: SafeAsUsize,
        F: FnMut(&E) -> bool,
     {
        match self.take() {
            Ok((_, rest)) => rest.match_min_with_ref(minimum, pattern),
            Err(_) => R::failed(),
        }
    }

    fn match_max_with_ref<N, F>(self, maximum: N, pattern: F) -> (result: R) where
        N: SafeAsUsize,
        F: FnMut(&E) -> bool,
     {
        match self.take() {
            Ok((_, rest)) => rest.match_max_with_ref(maximum, pattern),
            Err(_) => R::failed(),
        }
    }

    fn match_min_max_with_ref<N, F>(self, minimum: N, maximum: N, pattern: F) -> (result: R) where
        N: SafeAsUsize,
        F: FnMut(&E) -> bool,
     {
        match self.take() {
            Ok((_, rest)) => rest.match_min_max_with_ref(minimum, maximum, pattern),
            Err(_) => R::failed(),
        }
    }

    fn match_exact_with_ref<N, F>(self, count: N, pattern: F) -> (result: R) where
        N: SafeAsUsize,
        F: FnMut(&E) -> bool,
     {
        match self.take() {
            Ok((_, rest)) => rest.match_exact_with_ref(count, pattern),
            Err(_) => R::failed(),
        }
    }
}

} // verus!
