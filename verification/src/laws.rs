//! What holds of the matchers in general, proved from the model.

use crate::model::{
    bounds_can_be_met, decides, first_static_outcome, is_longest_prefix, partitions,
    ranged_match, scan_stops_at, shorter, split_at, static_outcome, usable, Parts,
};
use crate::result::{Collected, CollectingMatch, MappedMatch, MappedOutcome, Match, Outcome};
use vstd::prelude::*;

verus! {

/// Splitting a sequence loses and repeats nothing: the two parts, put
/// together again, are the sequence.
pub proof fn lemma_split_partitions<E>(input: Seq<E>, k: int)
    requires
        0 <= k <= input.len(),
    ensures
        partitions(input, split_at(input, k)),
{
    assert(input.take(k) + input.skip(k) =~= input);
}

/// Where one match is made on the rest of another, the two matched parts and
/// the last rest, put together in that order, are the input of the first.
pub proof fn lemma_partitions_chain<E>(
    input: Seq<E>,
    first: Seq<E>,
    between: Seq<E>,
    second: Seq<E>,
    rest: Seq<E>,
)
    requires
        partitions(input, Some((Some(first), between))),
        partitions(between, Some((Some(second), rest))),
    ensures
        first + second + rest == input,
        partitions(input, Some((Some(first + second), rest))),
{
    assert(first + second + rest =~= first + (second + rest));
}

/// A match of a fixed pattern partitions the input; its matched part is
/// present, has the length of the shorter of input and pattern, and is the
/// same as the pattern element by element.
pub proof fn lemma_static_outcome_partitions<E, U>(
    input: Seq<E>,
    pattern: Seq<U>,
    same: spec_fn(E, U) -> bool,
)
    ensures
        partitions(input, static_outcome(input, pattern, same)),
        static_outcome(input, pattern, same) matches Some((matched, _)) ==> {
            &&& matched matches Some(m)
            &&& m.len() == shorter(input.len(), pattern.len())
            &&& forall|i: int| 0 <= i < m.len() ==> same(#[trigger] m[i], pattern[i])
        },
{
    lemma_split_partitions(input, shorter(input.len(), pattern.len()));
}

/// A match of the first of several fixed patterns partitions the input.
pub proof fn lemma_first_static_outcome_partitions<E, U>(
    input: Seq<E>,
    patterns: Seq<Seq<U>>,
    same: spec_fn(E, U) -> bool,
    parts: Parts<E>,
)
    requires
        first_static_outcome(input, patterns, same, parts),
    ensures
        partitions(input, parts),
{
    if parts is Some {
        let i = choose|i: int|
            {
                &&& 0 <= i < patterns.len()
                &&& parts == static_outcome(input, #[trigger] patterns[i], same)
            };
        lemma_static_outcome_partitions(input, patterns[i], same);
    }
}

/// What matching the first of several fixed patterns returns is decided by
/// the input and the patterns.
pub proof fn lemma_first_static_outcome_unique<E, U>(
    input: Seq<E>,
    patterns: Seq<Seq<U>>,
    same: spec_fn(E, U) -> bool,
    one: Parts<E>,
    other: Parts<E>,
)
    requires
        first_static_outcome(input, patterns, same, one),
        first_static_outcome(input, patterns, same, other),
    ensures
        one == other,
{
    if one is Some && other is Some {
        let i = choose|i: int|
            {
                &&& 0 <= i < patterns.len()
                &&& one is Some
                &&& one == static_outcome(input, #[trigger] patterns[i], same)
                &&& forall|j: int|
                    0 <= j < i ==> static_outcome(input, #[trigger] patterns[j], same) is None
            };
        let k = choose|k: int|
            {
                &&& 0 <= k < patterns.len()
                &&& other is Some
                &&& other == static_outcome(input, #[trigger] patterns[k], same)
                &&& forall|j: int|
                    0 <= j < k ==> static_outcome(input, #[trigger] patterns[j], same) is None
            };
        assert(i == k);
    }
}

/// Whatever a matcher by predicate returns under any bounds, a success
/// partitions the input: the matched part followed by the rest is the input.
/// The matched part is present then, and without bounds the match succeeds.
pub proof fn lemma_ranged_match_partitions<E>(
    input: Seq<E>,
    min: Option<int>,
    max: Option<int>,
    accepted: spec_fn(E) -> bool,
    rejected: spec_fn(E) -> bool,
    parts: Parts<E>,
)
    requires
        ranged_match(input, min, max, accepted, rejected, parts),
    ensures
        partitions(input, parts),
        parts matches Some((matched, _)) ==> matched is Some,
        min is None && max is None ==> parts is Some,
{
    if parts is Some {
        let limit = match max {
            Some(m) => m,
            None => input.len() as int,
        };
        let k = choose|k: int| #[trigger]
            scan_stops_at(input, limit, accepted, rejected, k) && parts == split_at(input, k);
        lemma_split_partitions(input, k);
    }
}

/// A successful match by predicate keeps its bounds: the matched part has at
/// least the minimum and at most the maximum count of elements, each of its
/// elements was accepted, and where it could have gone on, the first element
/// of the rest was rejected.
pub proof fn lemma_ranged_match_bounds<E>(
    input: Seq<E>,
    min: Option<int>,
    max: Option<int>,
    accepted: spec_fn(E) -> bool,
    rejected: spec_fn(E) -> bool,
    matched: Seq<E>,
    rest: Seq<E>,
)
    requires
        ranged_match(input, min, max, accepted, rejected, Some((Some(matched), rest))),
    ensures
        matched + rest == input,
        min matches Some(m) ==> m <= matched.len(),
        max matches Some(m) ==> matched.len() <= m,
        forall|i: int| 0 <= i < matched.len() ==> accepted(#[trigger] matched[i]),
        rest.len() > 0 && (max matches Some(m) ==> matched.len() < m) ==> rejected(rest[0]),
{
    let parts = Some((Some(matched), rest));
    let limit = match max {
        Some(m) => m,
        None => input.len() as int,
    };
    let k = choose|k: int| #[trigger]
        scan_stops_at(input, limit, accepted, rejected, k) && parts == split_at(input, k);
    lemma_split_partitions(input, k);
    assert(matched.len() == k);
    assert forall|i: int| 0 <= i < matched.len() implies accepted(#[trigger] matched[i]) by {
        assert(matched[i] == input[i]);
    }
    if rest.len() > 0 {
        assert(rest[0] == input[k]);
    }
}

/// A match by predicate fails where the bounds cannot be met: where a count
/// that is given is negative or too large, where the maximum is below the
/// minimum, and where the input has fewer elements than the minimum.
pub proof fn lemma_ranged_match_fails<E>(
    input: Seq<E>,
    min: Option<int>,
    max: Option<int>,
    accepted: spec_fn(E) -> bool,
    rejected: spec_fn(E) -> bool,
    parts: Parts<E>,
)
    requires
        ranged_match(input, min, max, accepted, rejected, parts),
        !bounds_can_be_met(input.len(), min, max),
    ensures
        parts is None,
{
}

/// A match of an exact count, where it succeeds, splits the input after
/// that count of elements.
pub proof fn lemma_exact_match<E>(
    input: Seq<E>,
    count: int,
    accepted: spec_fn(E) -> bool,
    rejected: spec_fn(E) -> bool,
    parts: Parts<E>,
)
    requires
        ranged_match(input, Some(count), Some(count), accepted, rejected, parts),
        parts is Some,
    ensures
        parts == split_at(input, count),
{
}

/// Where a predicate decides as `holds` does, a scan stops after the longest
/// prefix, within its allowance, whose elements all satisfy `holds`.
pub proof fn lemma_scan_is_longest_prefix<E>(
    input: Seq<E>,
    limit: int,
    accepted: spec_fn(E) -> bool,
    rejected: spec_fn(E) -> bool,
    holds: spec_fn(E) -> bool,
    k: int,
)
    requires
        scan_stops_at(input, limit, accepted, rejected, k),
        decides(accepted, rejected, holds),
    ensures
        is_longest_prefix(input, limit, holds, k),
{
    assert forall|i: int| 0 <= i < k implies holds(#[trigger] input[i]) by {
        assert(accepted(input[i]));
    }
    if k < input.len() && k < limit {
        assert(rejected(input[k]));
    }
}

/// The longest prefix is the longest: no prefix within the allowance whose
/// elements all satisfy `holds` has more elements, so there is one longest
/// prefix only.
pub proof fn lemma_longest_prefix_is_maximal<E>(
    input: Seq<E>,
    limit: int,
    holds: spec_fn(E) -> bool,
    k: int,
    other: int,
)
    requires
        is_longest_prefix(input, limit, holds, k),
        0 <= other <= input.len(),
        other <= limit,
        forall|i: int| 0 <= i < other ==> holds(#[trigger] input[i]),
    ensures
        other <= k,
        is_longest_prefix(input, limit, holds, other) ==> other == k,
{
    if k < other {
        assert(holds(input[k]));
    }
    if is_longest_prefix(input, limit, holds, other) && other < k {
        assert(holds(input[other]));
    }
}

/// Where a predicate decides as some `holds` does, what a matcher by
/// predicate returns is decided by the input and the bounds: two results of
/// the same match are the same.
pub proof fn lemma_ranged_match_unique<E>(
    input: Seq<E>,
    min: Option<int>,
    max: Option<int>,
    accepted: spec_fn(E) -> bool,
    rejected: spec_fn(E) -> bool,
    holds: spec_fn(E) -> bool,
    one: Parts<E>,
    other: Parts<E>,
)
    requires
        ranged_match(input, min, max, accepted, rejected, one),
        ranged_match(input, min, max, accepted, rejected, other),
        decides(accepted, rejected, holds),
    ensures
        one == other,
{
    let floor = match min {
        Some(m) => m,
        None => 0,
    };
    let limit = match max {
        Some(m) => m,
        None => input.len() as int,
    };
    if (min matches Some(m) && !usable(m)) || (max matches Some(m) && !usable(m)) || limit < floor
        || input.len() < floor {
    } else {
        let k = choose|k: int| #[trigger]
            scan_stops_at(input, limit, accepted, rejected, k) && one == if k < floor {
                None
            } else {
                split_at(input, k)
            };
        let j = choose|j: int| #[trigger]
            scan_stops_at(input, limit, accepted, rejected, j) && other == if j < floor {
                None
            } else {
                split_at(input, j)
            };
        lemma_scan_is_longest_prefix(input, limit, accepted, rejected, holds, k);
        lemma_scan_is_longest_prefix(input, limit, accepted, rejected, holds, j);
        lemma_longest_prefix_is_maximal(input, limit, holds, k, j);
    }
}

/// Where a predicate decides as `holds` does, a match by predicate succeeds
/// exactly where the bounds can be met and the first elements of the input,
/// as many as the minimum, all satisfy `holds`.
pub proof fn lemma_ranged_match_succeeds<E>(
    input: Seq<E>,
    min: Option<int>,
    max: Option<int>,
    accepted: spec_fn(E) -> bool,
    rejected: spec_fn(E) -> bool,
    holds: spec_fn(E) -> bool,
    parts: Parts<E>,
)
    requires
        ranged_match(input, min, max, accepted, rejected, parts),
        decides(accepted, rejected, holds),
    ensures
        parts is Some <==> bounds_can_be_met(input.len(), min, max) && (min matches Some(m)
            ==> forall|i: int| 0 <= i < m ==> holds(#[trigger] input[i])),
{
    let floor = match min {
        Some(m) => m,
        None => 0,
    };
    let limit = match max {
        Some(m) => m,
        None => input.len() as int,
    };
    if (min matches Some(m) && !usable(m)) || (max matches Some(m) && !usable(m)) || limit < floor
        || input.len() < floor {
    } else {
        let k = choose|k: int| #[trigger]
            scan_stops_at(input, limit, accepted, rejected, k) && parts == if k < floor {
                None
            } else {
                split_at(input, k)
            };
        lemma_scan_is_longest_prefix(input, limit, accepted, rejected, holds, k);
        if k < floor {
            assert(!holds(input[k]));
        } else {
            assert forall|i: int| 0 <= i < floor implies holds(#[trigger] input[i]) by {}
        }
    }
}

/// `discarding` keeps the matched part as it was: whatever its function
/// returns, the result holds the matched part that was there before the call
/// and the rest that the function returned, and it fails exactly where the
/// function fails.
pub proof fn lemma_discarding_keeps_matched<T, U>(kept: Option<T>, next: Outcome<T, U>)
    ensures
        next is None <==> Match::discarded(kept, next) is None,
        next matches Some((_, rest)) ==> Match::discarded(kept, next) == Some((kept, rest)),
{
}

/// `discarding` on a mapped result keeps the matched part and the value
/// mapped to it.
pub proof fn lemma_mapped_discarding_keeps_matched<T, U, V>(
    kept: Option<(T, V)>,
    next: MappedOutcome<T, U, V>,
)
    ensures
        next is None <==> MappedMatch::discarded(kept, next) is None,
        next matches Some((_, rest)) ==> MappedMatch::discarded(kept, next) == Some((kept, rest)),
{
}

/// `optional` never turns a success into a failure: where the attempt fails
/// the result is what was there before, and where it succeeds the result is
/// the attempt's.
pub proof fn lemma_optional_reverts<T, U>(before: Outcome<T, U>, next: Outcome<T, U>)
    ensures
        before is Some ==> Match::attempted(before, next) is Some,
        next is None ==> Match::attempted(before, next) == before,
        next is Some ==> Match::attempted(before, next) == next,
{
}

/// A step after `count` steps makes `count + 1` steps.
pub proof fn lemma_repeated_extends<T, U, F: FnMut(Option<&T>, U) -> Match<T, U>>(
    f: F,
    start: Collected<T, U>,
    count: nat,
    mid: Collected<T, U>,
    end: Collected<T, U>,
)
    requires
        CollectingMatch::repeated(f, start, count, mid),
        CollectingMatch::stepped(f, mid, end),
    ensures
        CollectingMatch::repeated(f, start, count + 1, end),
{
    assert(CollectingMatch::repeated(f, start, ((count + 1) - 1) as nat, mid));
}

/// Steps can be counted from the front: one or more steps are a first step
/// followed by the others.
pub proof fn lemma_repeated_first_step<T, U, F: FnMut(Option<&T>, U) -> Match<T, U>>(
    f: F,
    start: Collected<T, U>,
    count: nat,
    end: Collected<T, U>,
)
    requires
        CollectingMatch::repeated(f, start, count, end),
        count > 0,
    ensures
        exists|mid: Collected<T, U>| #[trigger]
            CollectingMatch::stepped(f, start, mid) && CollectingMatch::repeated(
                f,
                mid,
                (count - 1) as nat,
                end,
            ),
    decreases count,
{
    let last = choose|last: Collected<T, U>|
        CollectingMatch::repeated(f, start, (count - 1) as nat, last)
            && #[trigger] CollectingMatch::stepped(f, last, end);
    if count == 1 {
        assert(CollectingMatch::stepped(f, start, end));
        assert(CollectingMatch::repeated(f, end, 0, end));
    } else {
        lemma_repeated_first_step(f, start, (count - 1) as nat, last);
        let mid = choose|mid: Collected<T, U>| #[trigger]
            CollectingMatch::stepped(f, start, mid) && CollectingMatch::repeated(
                f,
                mid,
                (count - 2) as nat,
                last,
            );
        lemma_repeated_extends(f, mid, (count - 2) as nat, last, end);
        assert(CollectingMatch::stepped(f, start, mid));
    }
}

/// A chain that has failed stays failed through any number of steps.
pub proof fn lemma_repeated_failure_stays<T, U, F: FnMut(Option<&T>, U) -> Match<T, U>>(
    f: F,
    count: nat,
    end: Collected<T, U>,
)
    requires
        CollectingMatch::repeated(f, None, count, end),
    ensures
        end is None,
    decreases count,
{
    if count > 0 {
        let mid = choose|mid: Collected<T, U>|
            CollectingMatch::repeated(f, None, (count - 1) as nat, mid)
                && #[trigger] CollectingMatch::stepped(f, mid, end);
        lemma_repeated_failure_stays(f, (count - 1) as nat, mid);
    }
}

/// A chain that has failed after some steps has failed after any greater
/// number of steps.
pub proof fn lemma_repeated_failure_lasts<T, U, F: FnMut(Option<&T>, U) -> Match<T, U>>(
    f: F,
    start: Collected<T, U>,
    failed_after: nat,
    count: nat,
)
    requires
        CollectingMatch::repeated(f, start, failed_after, None),
        failed_after <= count,
    ensures
        CollectingMatch::repeated(f, start, count, None),
    decreases count - failed_after,
{
    if failed_after < count {
        assert(CollectingMatch::stepped(f, None, None));
        lemma_repeated_extends(f, start, failed_after, None, None);
        lemma_repeated_failure_lasts(f, start, failed_after + 1, count);
    }
}

/// Collecting is all or nothing. A chain that has not failed after `count`
/// steps started from one that had not failed, and holds what that one had
/// collected, in its order, followed by at most `count` matched parts more.
/// So a step that fails leaves nothing of what was collected before it.
pub proof fn lemma_repeated_success<T, U, F: FnMut(Option<&T>, U) -> Match<T, U>>(
    f: F,
    start: Collected<T, U>,
    count: nat,
    end: Collected<T, U>,
)
    requires
        CollectingMatch::repeated(f, start, count, end),
        end is Some,
    ensures
        start matches Some((before, _)) && end matches Some((after, _)) && before.len()
            <= after.len() <= before.len() + count && after.take(before.len() as int) == before,
    decreases count,
{
    if count == 0 {
        let (list, _) = start->0;
        assert(list.take(list.len() as int) =~= list);
    } else {
        let mid = choose|mid: Collected<T, U>|
            CollectingMatch::repeated(f, start, (count - 1) as nat, mid)
                && #[trigger] CollectingMatch::stepped(f, mid, end);
        lemma_repeated_success(f, start, (count - 1) as nat, mid);
        let (before, _) = start->0;
        let (list, _) = mid->0;
        let (after, _) = end->0;
        assert(after.take(before.len() as int) =~= list.take(before.len() as int));
    }
}

} // verus!
