use crate::model::{
    accepts_by_ref, accepts_by_value, all_callable_by_ref, all_callable_by_value, rejects_by_ref,
    rejects_by_value,
};
use crate::result::{MappedMatch, Match};
use crate::traits::{MatchWithInRange, MatchWithMapped, SafeAsUsize};
use vstd::prelude::*;

verus! {

/// Matching by a predicate under a minimum and a maximum count of elements,
/// and mapping a value to what is matched.
pub trait MatchWithInRangeMapped<E, R, Q>: MatchWithMapped<E, R, Q> {
    /// As `match_min_with`, with `value` mapped to the matched part.
    fn match_min_with_mapped<N, F>(self, minimum: N, pattern: F, value: Q) -> (result: R) where
        E: Clone,
        N: SafeAsUsize,
        F: FnMut(E) -> bool,

        requires
            all_callable_by_value(self.mapped_elements(), pattern),
        ensures
            self.scan_mapped_post(
                Some(minimum.count()),
                None,
                |e: E| accepts_by_value(pattern, e),
                |e: E| rejects_by_value(pattern, e),
                value,
                result,
            ),
    ;

    /// As `match_max_with`, with `value` mapped to the matched part.
    fn match_max_with_mapped<N, F>(self, maximum: N, pattern: F, value: Q) -> (result: R) where
        E: Clone,
        N: SafeAsUsize,
        F: FnMut(E) -> bool,

        requires
            all_callable_by_value(self.mapped_elements(), pattern),
        ensures
            self.scan_mapped_post(
                None,
                Some(maximum.count()),
                |e: E| accepts_by_value(pattern, e),
                |e: E| rejects_by_value(pattern, e),
                value,
                result,
            ),
    ;

    /// As `match_min_max_with`, with `value` mapped to the matched part.
    fn match_min_max_with_mapped<N, F>(
        self,
        minimum: N,
        maximum: N,
        pattern: F,
        value: Q,
    ) -> (result: R) where E: Clone, N: SafeAsUsize, F: FnMut(E) -> bool
        requires
            all_callable_by_value(self.mapped_elements(), pattern),
        ensures
            self.scan_mapped_post(
                Some(minimum.count()),
                Some(maximum.count()),
                |e: E| accepts_by_value(pattern, e),
                |e: E| rejects_by_value(pattern, e),
                value,
                result,
            ),
    ;

    /// As `match_exact_with`, with `value` mapped to the matched part.
    fn match_exact_with_mapped<N, F>(self, count: N, pattern: F, value: Q) -> (result: R) where
        E: Clone,
        N: SafeAsUsize,
        F: FnMut(E) -> bool,

        requires
            all_callable_by_value(self.mapped_elements(), pattern),
        ensures
            self.scan_mapped_post(
                Some(count.count()),
                Some(count.count()),
                |e: E| accepts_by_value(pattern, e),
                |e: E| rejects_by_value(pattern, e),
                value,
                result,
            ),
    ;

    /// As `match_min_with_ref`, with `value` mapped to the matched part.
    fn match_min_with_mapped_ref<N, F>(self, minimum: N, pattern: F, value: Q) -> (result: R) where
        N: SafeAsUsize,
        F: FnMut(&E) -> bool,

        requires
            all_callable_by_ref(self.mapped_elements(), pattern),
        ensures
            self.scan_mapped_post(
                Some(minimum.count()),
                None,
                |e: E| accepts_by_ref(pattern, e),
                |e: E| rejects_by_ref(pattern, e),
                value,
                result,
            ),
    ;

    /// As `match_max_with_ref`, with `value` mapped to the matched part.
    fn match_max_with_mapped_ref<N, F>(self, maximum: N, pattern: F, value: Q) -> (result: R) where
        N: SafeAsUsize,
        F: FnMut(&E) -> bool,

        requires
            all_callable_by_ref(self.mapped_elements(), pattern),
        ensures
            self.scan_mapped_post(
                None,
                Some(maximum.count()),
                |e: E| accepts_by_ref(pattern, e),
                |e: E| rejects_by_ref(pattern, e),
                value,
                result,
            ),
    ;

    /// As `match_min_max_with_ref`, with `value` mapped to the matched part.
    fn match_min_max_with_mapped_ref<N, F>(
        self,
        minimum: N,
        maximum: N,
        pattern: F,
        value: Q,
    ) -> (result: R) where N: SafeAsUsize, F: FnMut(&E) -> bool
        requires
            all_callable_by_ref(self.mapped_elements(), pattern),
        ensures
            self.scan_mapped_post(
                Some(minimum.count()),
                Some(maximum.count()),
                |e: E| accepts_by_ref(pattern, e),
                |e: E| rejects_by_ref(pattern, e),
                value,
                result,
            ),
    ;

    /// As `match_exact_with_ref`, with `value` mapped to the matched part.
    fn match_exact_with_mapped_ref<N, F>(self, count: N, pattern: F, value: Q) -> (result: R) where
        N: SafeAsUsize,
        F: FnMut(&E) -> bool,

        requires
            all_callable_by_ref(self.mapped_elements(), pattern),
        ensures
            self.scan_mapped_post(
                Some(count.count()),
                Some(count.count()),
                |e: E| accepts_by_ref(pattern, e),
                |e: E| rejects_by_ref(pattern, e),
                value,
                result,
            ),
    ;
}

/// Whatever matches by a predicate under bounds does so with a mapped value
/// too: the result is that of the plain matcher with the value attached.
impl<E, M, R, Q, I> MatchWithInRangeMapped<E, MappedMatch<M, R, Q>, Q> for I where
    I: MatchWithInRange<E, Match<M, R>>,
 {
    fn match_min_with_mapped<N, F>(self, minimum: N, pattern: F, value: Q) -> (result: MappedMatch<
        M,
        R,
        Q,
    >) where E: Clone, N: SafeAsUsize, F: FnMut(E) -> bool {
        self.match_min_with(minimum, pattern).map(value)
    }

    fn match_max_with_mapped<N, F>(self, maximum: N, pattern: F, value: Q) -> (result: MappedMatch<
        M,
        R,
        Q,
    >) where E: Clone, N: SafeAsUsize, F: FnMut(E) -> bool {
        self.match_max_with(maximum, pattern).map(value)
    }

    fn match_min_max_with_mapped<N, F>(
        self,
        minimum: N,
        maximum: N,
        pattern: F,
        value: Q,
    ) -> (result: MappedMatch<M, R, Q>) where E: Clone, N: SafeAsUsize, F: FnMut(E) -> bool {
        self.match_min_max_with(minimum, maximum, pattern).map(value)
    }

    fn match_exact_with_mapped<N, F>(self, count: N, pattern: F, value: Q) -> (result: MappedMatch<
        M,
        R,
        Q,
    >) where E: Clone, N: SafeAsUsize, F: FnMut(E) -> bool {
        self.match_exact_with(count, pattern).map(value)
    }

    fn match_min_with_mapped_ref<N, F>(self, minimum: N, pattern: F, value: Q) -> (result:
        MappedMatch<M, R, Q>) where N: SafeAsUsize, F: FnMut(&E) -> bool {
        self.match_min_with_ref(minimum, pattern).map(value)
    }

    fn match_max_with_mapped_ref<N, F>(self, maximum: N, pattern: F, value: Q) -> (result:
        MappedMatch<M, R, Q>) where N: SafeAsUsize, F: FnMut(&E) -> bool {
        self.match_max_with_ref(maximum, pattern).map(value)
    }

    fn match_min_max_with_mapped_ref<N, F>(
        self,
        minimum: N,
        maximum: N,
        pattern: F,
        value: Q,
    ) -> (result: MappedMatch<M, R, Q>) where N: SafeAsUsize, F: FnMut(&E) -> bool {
        self.match_min_max_with_ref(minimum, maximum, pattern).map(value)
    }

    fn match_exact_with_mapped_ref<N, F>(self, count: N, pattern: F, value: Q) -> (result:
        MappedMatch<M, R, Q>) where N: SafeAsUsize, F: FnMut(&E) -> bool {
        self.match_exact_with_ref(count, pattern).map(value)
    }
}

} // verus!
