use crate::model::{
    accepts_by_ref, accepts_by_value, all_callable_by_ref, all_callable_by_value, partitions,
    ranged_match, rejects_by_ref, rejects_by_value,
};
use crate::result::{MappedMatch, Match};
use crate::slices::{range_slice_by_ref, range_slice_by_value};
use crate::strings::{range_str_by_ref, range_str_by_value};
use crate::traits::MatchFail;
use vstd::prelude::*;

verus! {

/// Matching by a predicate: the matched part is the longest prefix whose
/// elements all satisfy it.
///
/// `E` is the type of the elements and `R` the type of the result. A
/// predicate takes each element by value, as a clone, or, in the methods
/// whose names end in `_ref`, by reference.
pub trait MatchWith<E, R>: Sized {
    /// The elements that a predicate is asked about.
    spec fn elements(self) -> Seq<E>;

    /// What matching returns under an optional minimum and an optional
    /// maximum count of elements, for a predicate that is known by the
    /// elements it can accept and those it can reject.
    spec fn scan_post(
        self,
        min: Option<int>,
        max: Option<int>,
        accepted: spec_fn(E) -> bool,
        rejected: spec_fn(E) -> bool,
        result: R,
    ) -> bool;

    /// Matches the longest prefix whose elements all satisfy `pattern`.
    fn match_with<F>(self, pattern: F) -> (result: R) where E: Clone, F: FnMut(E) -> bool
        requires
            all_callable_by_value(self.elements(), pattern),
        ensures
            self.scan_post(
                None,
                None,
                |e: E| accepts_by_value(pattern, e),
                |e: E| rejects_by_value(pattern, e),
                result,
            ),
    ;

    /// Matches the longest prefix whose elements all satisfy `pattern`.
    fn match_with_ref<F>(self, pattern: F) -> (result: R) where F: FnMut(&E) -> bool
        requires
            all_callable_by_ref(self.elements(), pattern),
        ensures
            self.scan_post(
                None,
                None,
                |e: E| accepts_by_ref(pattern, e),
                |e: E| rejects_by_ref(pattern, e),
                result,
            ),
    ;
}

impl<'a, E> MatchWith<E, Match<&'a [E], &'a [E]>> for &'a [E] {
    open spec fn elements(self) -> Seq<E> {
        self@
    }

    open spec fn scan_post(
        self,
        min: Option<int>,
        max: Option<int>,
        accepted: spec_fn(E) -> bool,
        rejected: spec_fn(E) -> bool,
        result: Match<&'a [E], &'a [E]>,
    ) -> bool {
        ranged_match(self@, min, max, accepted, rejected, result.parts())
    }

    /// Never fails: where the very first element is rejected, the matched
    /// part is empty.
    fn match_with<F>(self, pattern: F) -> (result: Match<&'a [E], &'a [E]>) where
        E: Clone,
        F: FnMut(E) -> bool,

        ensures
            result@ is Some,
            partitions(self@, result.parts()),
    {
        range_slice_by_value(self, 0, self.len(), pattern)
    }

    /// Never fails: where the very first element is rejected, the matched
    /// part is empty.
    fn match_with_ref<F>(self, pattern: F) -> (result: Match<&'a [E], &'a [E]>) where
        F: FnMut(&E) -> bool,

        ensures
            result@ is Some,
            partitions(self@, result.parts()),
    {
        range_slice_by_ref(self, 0, self.len(), pattern)
    }
}

impl<'a> MatchWith<char, Match<&'a str, &'a str>> for &'a str {
    open spec fn elements(self) -> Seq<char> {
        self@
    }

    open spec fn scan_post(
        self,
        min: Option<int>,
        max: Option<int>,
        accepted: spec_fn(char) -> bool,
        rejected: spec_fn(char) -> bool,
        result: Match<&'a str, &'a str>,
    ) -> bool {
        ranged_match(self@, min, max, accepted, rejected, result.parts())
    }

    /// Never fails: where the very first character is rejected, the matched
    /// part is empty.
    fn match_with<F>(self, pattern: F) -> (result: Match<&'a str, &'a str>) where
        F: FnMut(char) -> bool,

        ensures
            result@ is Some,
            partitions(self@, result.parts()),
    {
        range_str_by_value(self, 0, None, pattern)
    }

    /// Never fails: where the very first character is rejected, the matched
    /// part is empty.
    fn match_with_ref<F>(self, pattern: F) -> (result: Match<&'a str, &'a str>) where
        F: FnMut(&char) -> bool,

        ensures
            result@ is Some,
            partitions(self@, result.parts()),
    {
        range_str_by_ref(self, 0, None, pattern)
    }
}

/// A result is matched on by its rest; a failure stays a failure, and the
/// predicate is not called.
impl<E, R, U, V> MatchWith<E, R> for Match<U, V> where R: MatchFail, V: MatchWith<E, R> {
    open spec fn elements(self) -> Seq<E> {
        match self@ {
            Some((_, rest)) => rest.elements(),
            None => Seq::empty(),
        }
    }

    open spec fn scan_post(
        self,
        min: Option<int>,
        max: Option<int>,
        accepted: spec_fn(E) -> bool,
        rejected: spec_fn(E) -> bool,
        result: R,
    ) -> bool {
        match self@ {
            Some((_, rest)) => rest.scan_post(min, max, accepted, rejected, result),
            None => result.is_failure(),
        }
    }

    fn match_with<F>(self, pattern: F) -> (result: R) where E: Clone, F: FnMut(E) -> bool {
        match self.take() {
            Ok((_, rest)) => rest.match_with(pattern),
            Err(_) => R::failed(),
        }
    }

    fn match_with_ref<F>(self, pattern: F) -> (result: R) where F: FnMut(&E) -> bool {
        match self.take() {
            Ok((_, rest)) => rest.match_with_ref(pattern),
            Err(_) => R::failed(),
        }
    }
}

/// A mapped result is matched on by its rest; a failure stays a failure, and the
/// predicate is not called.
impl<E, R, U, V, Q> MatchWith<E, R> for MappedMatch<U, V, Q> where
    R: MatchFail,
    V: MatchWith<E, R>,
 {
    open spec fn elements(self) -> Seq<E> {
        match self@ {
            Some((_, rest)) => rest.elements(),
            None => Seq::empty(),
        }
    }

    open spec fn scan_post(
        self,
        min: Option<int>,
        max: Option<int>,
        accepted: spec_fn(E) -> bool,
        rejected: spec_fn(E) -> bool,
        result: R,
    ) -> bool {
        match self@ {
            Some((_, rest)) => rest.scan_post(min, max, accepted, rejected, result),
            None => result.is_failure(),
        }
    }

    fn match_with<F>(self, pattern: F) -> (result: R) where E: Clone, F: FnMut(E) -> bool {
        match self.take() {
            Ok((_, rest)) => rest.match_with(pattern),
            Err(_) => R::failed(),
        }
    }

    fn match_with_ref<F>(self, pattern: F) -> (result: R) where F: FnMut(&E) -> bool {
        match self.take() {
            Ok((_, rest)) => rest.match_with_ref(pattern),
            Err(_) => R::failed(),
        }
    }
}

} // verus!
