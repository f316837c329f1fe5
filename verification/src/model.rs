//! The mathematical model that the contracts of the matchers are stated over.
//!
//! A sequence is modelled by the `Seq` of its elements: a slice `&[E]` by a
//! `Seq<E>`, a string by the `Seq<char>` of its characters. All counts are
//! counts of elements.

use vstd::prelude::*;

verus! {

/// The model of a result over sequences: `None` for a failure, otherwise the
/// matched part, if there is one, and the rest.
pub type Parts<E> = Option<(Option<Seq<E>>, Seq<E>)>;

/// `copy` is what `Clone::clone` may give for `value`, or `value` itself.
pub open spec fn cloned_option<T: Clone>(value: Option<T>, copy: Option<T>) -> bool {
    match (value, copy) {
        (None, None) => true,
        (Some(o), Some(c)) => cloned(o, c),
        _ => false,
    }
}

/// The successful outcome that splits `input` after its first `k` elements.
pub open spec fn split_at<E>(input: Seq<E>, k: int) -> Parts<E> {
    Some((Some(input.take(k)), input.skip(k)))
}

/// The parts of a successful outcome, put together again, give `input`.
pub open spec fn partitions<E>(input: Seq<E>, parts: Parts<E>) -> bool {
    match parts {
        None => true,
        Some((None, rest)) => rest == input,
        Some((Some(matched), rest)) => matched + rest == input,
    }
}

/// The smaller of two lengths.
pub open spec fn shorter(a: nat, b: nat) -> int {
    if a <= b {
        a as int
    } else {
        b as int
    }
}

/// What matching a fixed `pattern` makes of `input`, where `same` tells when
/// an element of the input equals one of the pattern. Only as many elements
/// are compared as both have: the match succeeds if those are the same, and
/// the matched part is then that prefix of the input. So an empty pattern
/// matches with an empty matched part, and a pattern that is longer than the
/// input matches if the input is a prefix of it.
pub open spec fn static_outcome<E, U>(
    input: Seq<E>,
    pattern: Seq<U>,
    same: spec_fn(E, U) -> bool,
) -> Parts<E> {
    let n = shorter(input.len(), pattern.len());
    if forall|i: int| 0 <= i < n ==> same(#[trigger] input[i], pattern[i]) {
        split_at(input, n)
    } else {
        None
    }
}

/// What matching the first of several fixed patterns that matches makes of
/// `input`: `parts` is the outcome of the first pattern, in their order, that
/// matches, and a failure where none does.
pub open spec fn first_static_outcome<E, U>(
    input: Seq<E>,
    patterns: Seq<Seq<U>>,
    same: spec_fn(E, U) -> bool,
    parts: Parts<E>,
) -> bool {
    ||| {
        &&& parts is None
        &&& forall|i: int|
            0 <= i < patterns.len() ==> static_outcome(input, #[trigger] patterns[i], same) is None
    }
    ||| exists|i: int|
        {
            &&& 0 <= i < patterns.len()
            &&& parts is Some
            &&& parts == static_outcome(input, #[trigger] patterns[i], same)
            &&& forall|j: int|
                0 <= j < i ==> static_outcome(input, #[trigger] patterns[j], same) is None
        }
}

/// A predicate that takes its element by value may be called on `element`:
/// it is handed a clone.
pub open spec fn callable_by_value<E: Clone, F: FnMut(E) -> bool>(pattern: F, element: E) -> bool {
    forall|c: E| cloned(element, c) ==> call_requires(pattern, (c,))
}

/// A predicate that takes its element by value can answer `true` for `element`.
pub open spec fn accepts_by_value<E: Clone, F: FnMut(E) -> bool>(pattern: F, element: E) -> bool {
    exists|c: E| cloned(element, c) && call_ensures(pattern, (c,), true)
}

/// A predicate that takes its element by value can answer `false` for `element`.
pub open spec fn rejects_by_value<E: Clone, F: FnMut(E) -> bool>(pattern: F, element: E) -> bool {
    exists|c: E| cloned(element, c) && call_ensures(pattern, (c,), false)
}

/// A predicate that takes its element by reference may be called on `element`.
pub open spec fn callable_by_ref<E, F: FnMut(&E) -> bool>(pattern: F, element: E) -> bool {
    call_requires(pattern, (&element,))
}

/// A predicate that takes its element by reference can answer `true` for `element`.
pub open spec fn accepts_by_ref<E, F: FnMut(&E) -> bool>(pattern: F, element: E) -> bool {
    call_ensures(pattern, (&element,), true)
}

/// A predicate that takes its element by reference can answer `false` for `element`.
pub open spec fn rejects_by_ref<E, F: FnMut(&E) -> bool>(pattern: F, element: E) -> bool {
    call_ensures(pattern, (&element,), false)
}

/// A predicate that takes its element by value may be called on every
/// element of `input`.
pub open spec fn all_callable_by_value<E: Clone, F: FnMut(E) -> bool>(
    input: Seq<E>,
    pattern: F,
) -> bool {
    forall|i: int| 0 <= i < input.len() ==> callable_by_value(pattern, #[trigger] input[i])
}

/// A predicate that takes its element by reference may be called on every
/// element of `input`.
pub open spec fn all_callable_by_ref<E, F: FnMut(&E) -> bool>(input: Seq<E>, pattern: F) -> bool {
    forall|i: int| 0 <= i < input.len() ==> callable_by_ref(pattern, #[trigger] input[i])
}

/// A scan of `input` that may consume at most `limit` elements can stop after
/// `k` of them: each of the first `k` was accepted, and the scan went no
/// further because the input or the allowance ran out, or because the element
/// at `k` was rejected.
pub open spec fn scan_stops_at<E>(
    input: Seq<E>,
    limit: int,
    accepted: spec_fn(E) -> bool,
    rejected: spec_fn(E) -> bool,
    k: int,
) -> bool {
    &&& 0 <= k <= input.len()
    &&& k <= limit
    &&& forall|i: int| 0 <= i < k ==> accepted(#[trigger] input[i])
    &&& k < input.len() && k < limit ==> rejected(input[k])
}

/// What a scan that must consume at least `floor` and may consume at most
/// `limit` elements makes of `input`. It fails without scanning where the
/// bounds cannot be met: `limit < floor`, or fewer than `floor` elements.
/// Otherwise it fails if the scan stops short of `floor`, and splits the input
/// where the scan stops if not.
pub open spec fn ranged_outcome<E>(
    input: Seq<E>,
    floor: int,
    limit: int,
    accepted: spec_fn(E) -> bool,
    rejected: spec_fn(E) -> bool,
    parts: Parts<E>,
) -> bool {
    if limit < floor || input.len() < floor {
        parts is None
    } else {
        exists|k: int| #[trigger]
            scan_stops_at(input, limit, accepted, rejected, k) && parts == if k < floor {
                None
            } else {
                split_at(input, k)
            }
    }
}

/// A count can be used: it is not negative and fits the machine's word.
pub open spec fn usable(count: int) -> bool {
    0 <= count <= usize::MAX
}

/// The bounds of a matcher can be met on an input of `len` elements: each
/// count that is given can be used, the maximum is not below the minimum, and
/// the input has as many elements as the minimum.
pub open spec fn bounds_can_be_met(len: nat, min: Option<int>, max: Option<int>) -> bool {
    match (min, max) {
        (Some(least), Some(most)) => usable(least) && usable(most) && least <= most && least
            <= len,
        (Some(least), None) => usable(least) && least <= len,
        (None, Some(most)) => usable(most),
        (None, None) => true,
    }
}

/// What a matcher with an optional minimum and an optional maximum count
/// makes of `input`: a failure where a count that is given cannot be used,
/// else `ranged_outcome` with a missing minimum read as 0 and a missing
/// maximum as the length of the input.
pub open spec fn ranged_match<E>(
    input: Seq<E>,
    min: Option<int>,
    max: Option<int>,
    accepted: spec_fn(E) -> bool,
    rejected: spec_fn(E) -> bool,
    parts: Parts<E>,
) -> bool {
    if (min matches Some(m) && !usable(m)) || (max matches Some(m) && !usable(m)) {
        parts is None
    } else {
        ranged_outcome(
            input,
            match min {
                Some(m) => m,
                None => 0,
            },
            match max {
                Some(m) => m,
                None => input.len() as int,
            },
            accepted,
            rejected,
            parts,
        )
    }
}

/// A predicate that is known by what it can accept and what it can reject
/// decides as `holds` does: it accepts only where `holds` is true and rejects
/// only where it is false.
pub open spec fn decides<E>(
    accepted: spec_fn(E) -> bool,
    rejected: spec_fn(E) -> bool,
    holds: spec_fn(E) -> bool,
) -> bool {
    &&& forall|e: E| #[trigger] accepted(e) ==> holds(e)
    &&& forall|e: E| #[trigger] rejected(e) ==> !holds(e)
}

/// The first `k` elements of `input` are its longest prefix of at most
/// `limit` elements whose elements all satisfy `holds`.
pub open spec fn is_longest_prefix<E>(
    input: Seq<E>,
    limit: int,
    holds: spec_fn(E) -> bool,
    k: int,
) -> bool {
    &&& 0 <= k <= input.len()
    &&& k <= limit
    &&& forall|i: int| 0 <= i < k ==> holds(#[trigger] input[i])
    &&& k < input.len() && k < limit ==> !holds(input[k])
}

} // verus!
