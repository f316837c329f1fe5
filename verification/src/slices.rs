//! Matching on slices: the scanning and splitting that the matchers share.

use crate::laws::lemma_split_partitions;
use crate::model::{
    accepts_by_ref, accepts_by_value, all_callable_by_ref, all_callable_by_value, partitions,
    ranged_outcome, rejects_by_ref, rejects_by_value, scan_stops_at, shorter, split_at,
    static_outcome,
};
use crate::result::Match;
use vstd::prelude::*;
use vstd::slice::slice_subrange;
use vstd::std_specs::cmp::PartialEqSpec;

verus! {

/// Splits a slice after its first `k` elements.
pub(crate) fn split_slice<'a, E>(input: &'a [E], k: usize) -> (result: Match<&'a [E], &'a [E]>)
    requires
        k <= input@.len(),
    ensures
        result.parts() == split_at(input@, k as int),
        partitions(input@, result.parts()),
{
    proof {
        lemma_split_partitions(input@, k as int);
    }
    let matched = slice_subrange(input, 0, k);
    let rest = slice_subrange(input, k, input.len());
    Match::new(Some(matched), rest)
}

/// Matches a fixed pattern on a slice.
pub(crate) fn static_slice<'a, E, U>(input: &'a [E], pattern: &[U]) -> (result: Match<
    &'a [E],
    &'a [E],
>) where E: PartialEq<U>
    requires
        <E as PartialEqSpec<U>>::obeys_eq_spec(),
    ensures
        result.parts() == static_outcome(input@, pattern@, |a: E, b: U| a.eq_spec(&b)),
        partitions(input@, result.parts()),
{
    let n = if input.len() <= pattern.len() {
        input.len()
    } else {
        pattern.len()
    };
    let mut i: usize = 0;
    while i < n
        invariant
            i <= n,
            n == shorter(input@.len(), pattern@.len()),
            <E as PartialEqSpec<U>>::obeys_eq_spec(),
            forall|j: int| 0 <= j < i ==> (#[trigger] input@[j]).eq_spec(&pattern@[j]),
        decreases n - i,
    {
        if !(input[i] == pattern[i]) {
            return Match::failed();
        }
        i += 1;
    }
    split_slice(input, n)
}

/// Scans a slice with a predicate that takes each element by value.
fn scan_slice_by_value<E: Clone, F: FnMut(E) -> bool>(input: &[E], limit: usize, pattern: F) -> (k:
    usize)
    requires
        all_callable_by_value(input@, pattern),
    ensures
        scan_stops_at(
            input@,
            limit as int,
            |e: E| accepts_by_value(pattern, e),
            |e: E| rejects_by_value(pattern, e),
            k as int,
        ),
{
    let mut test = pattern;
    let mut k: usize = 0;
    while k < input.len() && k < limit
        invariant
            test == pattern,
            k <= input@.len(),
            k <= limit,
            all_callable_by_value(input@, pattern),
            forall|i: int| 0 <= i < k ==> accepts_by_value(pattern, #[trigger] input@[i]),
        decreases input@.len() - k,
    {
        let element = input[k].clone();
        assert(cloned(input@[k as int], element));
        if !test(element) {
            assert(rejects_by_value(pattern, input@[k as int]));
            return k;
        }
        assert(accepts_by_value(pattern, input@[k as int]));
        k += 1;
    }
    k
}

/// Scans a slice with a predicate that takes each element by reference.
fn scan_slice_by_ref<E, F: FnMut(&E) -> bool>(input: &[E], limit: usize, pattern: F) -> (k: usize)
    requires
        all_callable_by_ref(input@, pattern),
    ensures
        scan_stops_at(
            input@,
            limit as int,
            |e: E| accepts_by_ref(pattern, e),
            |e: E| rejects_by_ref(pattern, e),
            k as int,
        ),
{
    let mut test = pattern;
    let mut k: usize = 0;
    while k < input.len() && k < limit
        invariant
            test == pattern,
            k <= input@.len(),
            k <= limit,
            all_callable_by_ref(input@, pattern),
            forall|i: int| 0 <= i < k ==> accepts_by_ref(pattern, #[trigger] input@[i]),
        decreases input@.len() - k,
    {
        if !test(&input[k]) {
            return k;
        }
        k += 1;
    }
    k
}

/// Matches on a slice between `floor` and `limit` elements by a predicate
/// that takes each element by value.
pub(crate) fn range_slice_by_value<'a, E: Clone, F: FnMut(E) -> bool>(
    input: &'a [E],
    floor: usize,
    limit: usize,
    pattern: F,
) -> (result: Match<&'a [E], &'a [E]>)
    requires
        all_callable_by_value(input@, pattern),
    ensures
        ranged_outcome(
            input@,
            floor as int,
            limit as int,
            |e: E| accepts_by_value(pattern, e),
            |e: E| rejects_by_value(pattern, e),
            result.parts(),
        ),
        partitions(input@, result.parts()),
{
    if limit < floor || input.len() < floor {
        return Match::failed();
    }
    let k = scan_slice_by_value(input, limit, pattern);
    if k < floor {
        Match::failed()
    } else {
        split_slice(input, k)
    }
}

/// Matches on a slice between `floor` and `limit` elements by a predicate
/// that takes each element by reference.
pub(crate) fn range_slice_by_ref<'a, E, F: FnMut(&E) -> bool>(
    input: &'a [E],
    floor: usize,
    limit: usize,
    pattern: F,
) -> (result: Match<&'a [E], &'a [E]>)
    requires
        all_callable_by_ref(input@, pattern),
    ensures
        ranged_outcome(
            input@,
            floor as int,
            limit as int,
            |e: E| accepts_by_ref(pattern, e),
            |e: E| rejects_by_ref(pattern, e),
            result.parts(),
        ),
        partitions(input@, result.parts()),
{
    if limit < floor || input.len() < floor {
        return Match::failed();
    }
    let k = scan_slice_by_ref(input, limit, pattern);
    if k < floor {
        Match::failed()
    } else {
        split_slice(input, k)
    }
}

} // verus!
