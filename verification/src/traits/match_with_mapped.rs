use crate::model::{
    accepts_by_ref, accepts_by_value, all_callable_by_ref, all_callable_by_value, rejects_by_ref,
    rejects_by_value,
};
use crate::result::{MappedMatch, Match};
use crate::traits::MatchWith;
use vstd::prelude::*;

verus! {

/// Matching by a predicate and mapping a value to what it matches.
pub trait MatchWithMapped<E, R, Q>: Sized {
    /// The elements that a predicate is asked about.
    spec fn mapped_elements(self) -> Seq<E>;

    /// What matching returns under an optional minimum and an optional
    /// maximum count of elements, for a predicate that is known by the
    /// elements it can accept and those it can reject.
    spec fn scan_mapped_post(
        self,
        min: Option<int>,
        max: Option<int>,
        accepted: spec_fn(E) -> bool,
        rejected: spec_fn(E) -> bool,
        value: Q,
        result: R,
    ) -> bool;

    /// Matches the longest prefix whose elements all satisfy `pattern`, and
    /// maps `value` to it.
    fn match_with_mapped<F>(self, pattern: F, value: Q) -> (result: R) where
        E: Clone,
        F: FnMut(E) -> bool,

        requires
            all_callable_by_value(self.mapped_elements(), pattern),
        ensures
            self.scan_mapped_post(
                None,
                None,
                |e: E| accepts_by_value(pattern, e),
                |e: E| rejects_by_value(pattern, e),
                value,
                result,
            ),
    ;

    /// As `match_with_mapped`, for a predicate that takes each element by
    /// reference.
    fn match_with_mapped_ref<F>(self, pattern: F, value: Q) -> (result: R) where
        F: FnMut(&E) -> bool,

        requires
            all_callable_by_ref(self.mapped_elements(), pattern),
        ensures
            self.scan_mapped_post(
                None,
                None,
                |e: E| accepts_by_ref(pattern, e),
                |e: E| rejects_by_ref(pattern, e),
                value,
                result,
            ),
    ;
}

/// Whatever matches by a predicate does so with a mapped value too: the
/// result is that of the plain matcher with the value attached.
impl<E, M, R, Q, I> MatchWithMapped<E, MappedMatch<M, R, Q>, Q> for I where
    I: MatchWith<E, Match<M, R>>,
 {
    open spec fn mapped_elements(self) -> Seq<E> {
        self.elements()
    }

    open spec fn scan_mapped_post(
        self,
        min: Option<int>,
        max: Option<int>,
        accepted: spec_fn(E) -> bool,
        rejected: spec_fn(E) -> bool,
        value: Q,
        result: MappedMatch<M, R, Q>,
    ) -> bool {
        exists|plain: Match<M, R>| #[trigger]
            self.scan_post(min, max, accepted, rejected, plain) && result@ == Match::mapped(
                plain@,
                value,
            )
    }

    fn match_with_mapped<F>(self, pattern: F, value: Q) -> (result: MappedMatch<M, R, Q>) where
        E: Clone,
        F: FnMut(E) -> bool,
     {
        self.match_with(pattern).map(value)
    }

    fn match_with_mapped_ref<F>(self, pattern: F, value: Q) -> (result: MappedMatch<
        M,
        R,
        Q,
    >) where F: FnMut(&E) -> bool {
        self.match_with_ref(pattern).map(value)
    }
}

} // verus!
