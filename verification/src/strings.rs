//! Matching on strings: the scanning and splitting that the matchers share.
//!
//! A string is matched character by character and split between characters.
//! The place of a split is kept as a count of bytes, so that a split costs
//! nothing: the bytes of the characters matched so far are counted while
//! they are matched.

use crate::laws::lemma_split_partitions;
use crate::model::{
    accepts_by_ref, accepts_by_value, all_callable_by_ref, all_callable_by_value, partitions,
    ranged_outcome, rejects_by_ref, rejects_by_value, scan_stops_at, shorter, split_at,
    static_outcome,
};
use crate::result::Match;
use vstd::prelude::*;
use vstd::std_specs::iter::IteratorSpec;
use vstd::string::StringSliceAdditionalSpecFns;
use vstd::utf8::{
    char_is_scalar, encode_scalar, encode_utf8, encode_utf8_decode_utf8,
    encode_utf8_first_scalar, encode_utf8_valid_utf8, is_char_boundary, pop_first_scalar,
};

verus! {

/// The bytes of two sequences of characters, one after the other, are the
/// bytes of the first followed by the bytes of the second.
pub(crate) proof fn lemma_encode_concat(a: Seq<char>, b: Seq<char>)
    ensures
        encode_utf8(a + b) == encode_utf8(a) + encode_utf8(b),
    decreases a.len(),
{
    if a.len() == 0 {
        assert(a + b =~= b);
        assert(encode_utf8(a) + encode_utf8(b) =~= encode_utf8(b));
    } else {
        assert((a + b).drop_first() =~= a.drop_first() + b);
        lemma_encode_concat(a.drop_first(), b);
        assert(encode_utf8(a + b) =~= encode_utf8(a) + encode_utf8(b));
    }
}

/// Every character has at least one byte.
pub(crate) proof fn lemma_encode_len(a: Seq<char>)
    ensures
        a.len() <= encode_utf8(a).len(),
    decreases a.len(),
{
    if a.len() > 0 {
        lemma_encode_len(a.drop_first());
    }
}

/// Where the bytes of `a` end in the bytes of `a + b`, a character begins.
pub(crate) proof fn lemma_encode_boundary(a: Seq<char>, b: Seq<char>)
    ensures
        is_char_boundary(encode_utf8(a + b), encode_utf8(a).len() as int),
    decreases a.len(),
{
    let bytes = encode_utf8(a + b);
    encode_utf8_valid_utf8(a + b);
    lemma_encode_concat(a, b);
    if a.len() > 0 {
        encode_utf8_first_scalar(a + b);
        assert((a + b).drop_first() =~= a.drop_first() + b);
        assert(pop_first_scalar(bytes) =~= encode_utf8((a + b).drop_first()));
        lemma_encode_boundary(a.drop_first(), b);
    }
}

/// The first `k + 1` characters of `chars` have the bytes of the first `k`
/// and those of the character at `k`, and no more bytes than all of `chars`.
pub(crate) proof fn lemma_encode_next(chars: Seq<char>, k: int)
    requires
        0 <= k < chars.len(),
    ensures
        encode_utf8(chars.take(k + 1)).len() == encode_utf8(chars.take(k)).len() + encode_scalar(
            chars[k] as u32,
        ).len(),
        encode_utf8(chars.take(k + 1)).len() <= encode_utf8(chars).len(),
{
    let one = seq![chars[k]];
    assert(chars.take(k + 1) =~= chars.take(k) + one);
    lemma_encode_concat(chars.take(k), one);
    assert(one.drop_first() =~= Seq::<char>::empty());
    assert(encode_utf8(one) =~= encode_scalar(chars[k] as u32)) by {
        reveal_with_fuel(encode_utf8, 2);
    }
    assert(chars.take(k + 1) + chars.skip(k + 1) =~= chars);
    lemma_encode_concat(chars.take(k + 1), chars.skip(k + 1));
}

/// The number of bytes of a character.
fn char_width(c: char) -> (width: usize)
    ensures
        width == encode_scalar(c as u32).len(),
{
    proof {
        char_is_scalar(c);
    }
    let v = c as u32;
    if v <= 0x7F {
        1
    } else if v <= 0x7FF {
        2
    } else if v <= 0xFFFF {
        3
    } else {
        4
    }
}

/// Splits a string after its first `k` characters, which end at the byte
/// `offset`.
fn split_str<'a>(input: &'a str, Ghost(k): Ghost<int>, offset: usize) -> (result: Match<
    &'a str,
    &'a str,
>)
    requires
        0 <= k <= input@.len(),
        offset == encode_utf8(input@.take(k)).len(),
    ensures
        result.parts() == split_at(input@, k),
        partitions(input@, result.parts()),
{
    proof {
        lemma_split_partitions(input@, k);
        assert(input@.take(k) + input@.skip(k) =~= input@);
        lemma_encode_concat(input@.take(k), input@.skip(k));
        lemma_encode_boundary(input@.take(k), input@.skip(k));
    }
    let (matched, rest) = input.split_at(offset);
    proof {
        let bytes = input.spec_bytes();
        assert(bytes.subrange(0, offset as int) =~= encode_utf8(input@.take(k)));
        assert(bytes.subrange(offset as int, bytes.len() as int) =~= encode_utf8(input@.skip(k)));
        encode_utf8_decode_utf8(matched@);
        encode_utf8_decode_utf8(rest@);
        encode_utf8_decode_utf8(input@.take(k));
        encode_utf8_decode_utf8(input@.skip(k));
    }
    Match::new(Some(matched), rest)
}

/// Whether a string has `count` characters or more. No more than `count`
/// characters are looked at.
fn has_at_least(input: &str, count: usize) -> (enough: bool)
    ensures
        enough == (count <= input@.len()),
{
    let mut chars = input.chars();
    let mut seen: usize = 0;
    while seen < count
        invariant
            seen <= count,
            seen <= input@.len(),
            chars.remaining() == input@.skip(seen as int),
        decreases count - seen,
    {
        match chars.next() {
            None => {
                return false;
            },
            Some(_) => {
                assert(input@.skip(seen as int).drop_first() =~= input@.skip(seen + 1));
                seen = seen + 1;
            },
        }
    }
    true
}

/// Matches a fixed pattern on a string.
pub(crate) fn static_str<'a>(input: &'a str, pattern: &str) -> (result: Match<&'a str, &'a str>)
    ensures
        result.parts() == static_outcome(input@, pattern@, |a: char, b: char| a == b),
        partitions(input@, result.parts()),
{
    let total = input.as_bytes().len();
    let mut mine = input.chars();
    let mut theirs = pattern.chars();
    let ghost mut n: int = 0;
    let mut offset: usize = 0;
    loop
        invariant_except_break
            mine.remaining() == input@.skip(n),
            theirs.remaining() == pattern@.skip(n),
        invariant
            0 <= n <= input@.len(),
            n <= pattern@.len(),
            total == encode_utf8(input@).len(),
            offset == encode_utf8(input@.take(n)).len(),
            forall|j: int| 0 <= j < n ==> #[trigger] input@[j] == pattern@[j],
        ensures
            n == shorter(input@.len(), pattern@.len()),
        decreases input@.len() - n,
    {
        match theirs.next() {
            None => {
                break ;
            },
            Some(p) => {
                match mine.next() {
                    None => {
                        break ;
                    },
                    Some(c) => {
                        assert(c == input@[n] && p == pattern@[n]);
                        if c != p {
                            return Match::failed();
                        }
                        proof {
                            lemma_encode_next(input@, n);
                            assert(input@.skip(n).drop_first() =~= input@.skip(n + 1));
                            assert(pattern@.skip(n).drop_first() =~= pattern@.skip(n + 1));
                        }
                        offset = offset + char_width(c);
                        proof {
                            n = n + 1;
                        }
                    },
                }
            },
        }
    }
    split_str(input, Ghost(n), offset)
}

/// Scans a string with a predicate that takes each character by value.
/// Returns the count of the characters accepted and the count of their
/// bytes.
fn scan_str_by_value<F: FnMut(char) -> bool>(input: &str, limit: Option<usize>, pattern: F) -> (end:
    (usize, usize))
    requires
        all_callable_by_value(input@, pattern),
    ensures
        scan_stops_at(
            input@,
            match limit {
                Some(l) => l as int,
                None => input@.len() as int,
            },
            |e: char| accepts_by_value(pattern, e),
            |e: char| rejects_by_value(pattern, e),
            end.0 as int,
        ),
        end.1 == encode_utf8(input@.take(end.0 as int)).len(),
{
    let total = input.as_bytes().len();
    proof {
        lemma_encode_len(input@);
    }
    let mut test = pattern;
    let mut chars = input.chars();
    let mut k: usize = 0;
    let mut offset: usize = 0;
    loop
        invariant
            test == pattern,
            k <= input@.len(),
            limit matches Some(l) ==> k <= l,
            input@.len() <= total,
            total == encode_utf8(input@).len(),
            offset == encode_utf8(input@.take(k as int)).len(),
            chars.remaining() == input@.skip(k as int),
            all_callable_by_value(input@, pattern),
            forall|i: int| 0 <= i < k ==> accepts_by_value(pattern, #[trigger] input@[i]),
        decreases input@.len() - k,
    {
        if let Some(l) = limit {
            if k >= l {
                return (k, offset);
            }
        }
        match chars.next() {
            None => {
                return (k, offset);
            },
            Some(c) => {
                assert(c == input@[k as int] && cloned(input@[k as int], c));
                if !test(c) {
                    assert(rejects_by_value(pattern, input@[k as int]));
                    return (k, offset);
                }
                assert(accepts_by_value(pattern, input@[k as int]));
                proof {
                    lemma_encode_next(input@, k as int);
                    assert(input@.skip(k as int).drop_first() =~= input@.skip(k + 1));
                }
                offset = offset + char_width(c);
                k = k + 1;
            },
        }
    }
}

/// Scans a string with a predicate that takes each character by reference.
/// Returns the count of the characters accepted and the count of their
/// bytes.
fn scan_str_by_ref<F: FnMut(&char) -> bool>(input: &str, limit: Option<usize>, pattern: F) -> (end:
    (usize, usize))
    requires
        all_callable_by_ref(input@, pattern),
    ensures
        scan_stops_at(
            input@,
            match limit {
                Some(l) => l as int,
                None => input@.len() as int,
            },
            |e: char| accepts_by_ref(pattern, e),
            |e: char| rejects_by_ref(pattern, e),
            end.0 as int,
        ),
        end.1 == encode_utf8(input@.take(end.0 as int)).len(),
{
    let total = input.as_bytes().len();
    proof {
        lemma_encode_len(input@);
    }
    let mut test = pattern;
    let mut chars = input.chars();
    let mut k: usize = 0;
    let mut offset: usize = 0;
    loop
        invariant
            test == pattern,
            k <= input@.len(),
            limit matches Some(l) ==> k <= l,
            input@.len() <= total,
            total == encode_utf8(input@).len(),
            offset == encode_utf8(input@.take(k as int)).len(),
            chars.remaining() == input@.skip(k as int),
            all_callable_by_ref(input@, pattern),
            forall|i: int| 0 <= i < k ==> accepts_by_ref(pattern, #[trigger] input@[i]),
        decreases input@.len() - k,
    {
        if let Some(l) = limit {
            if k >= l {
                return (k, offset);
            }
        }
        match chars.next() {
            None => {
                return (k, offset);
            },
            Some(c) => {
                assert(c == input@[k as int]);
                if !test(&c) {
                    return (k, offset);
                }
                proof {
                    lemma_encode_next(input@, k as int);
                    assert(input@.skip(k as int).drop_first() =~= input@.skip(k + 1));
                }
                offset = offset + char_width(c);
                k = k + 1;
            },
        }
    }
}

/// Matches on a string between `floor` and `limit` characters by a predicate
/// that takes each character by value. Without a `limit` the whole string
/// may be consumed.
pub(crate) fn range_str_by_value<'a, F: FnMut(char) -> bool>(
    input: &'a str,
    floor: usize,
    limit: Option<usize>,
    pattern: F,
) -> (result: Match<&'a str, &'a str>)
    requires
        all_callable_by_value(input@, pattern),
    ensures
        ranged_outcome(
            input@,
            floor as int,
            match limit {
                Some(l) => l as int,
                None => input@.len() as int,
            },
            |e: char| accepts_by_value(pattern, e),
            |e: char| rejects_by_value(pattern, e),
            result.parts(),
        ),
        partitions(input@, result.parts()),
{
    if let Some(l) = limit {
        if l < floor {
            return Match::failed();
        }
    }
    if !has_at_least(input, floor) {
        return Match::failed();
    }
    let (k, offset) = scan_str_by_value(input, limit, pattern);
    if k < floor {
        Match::failed()
    } else {
        split_str(input, Ghost(k as int), offset)
    }
}

/// Matches on a string between `floor` and `limit` characters by a predicate
/// that takes each character by reference. Without a `limit` the whole
/// string may be consumed.
pub(crate) fn range_str_by_ref<'a, F: FnMut(&char) -> bool>(
    input: &'a str,
    floor: usize,
    limit: Option<usize>,
    pattern: F,
) -> (result: Match<&'a str, &'a str>)
    requires
        all_callable_by_ref(input@, pattern),
    ensures
        ranged_outcome(
            input@,
            floor as int,
            match limit {
                Some(l) => l as int,
                None => input@.len() as int,
            },
            |e: char| accepts_by_ref(pattern, e),
            |e: char| rejects_by_ref(pattern, e),
            result.parts(),
        ),
        partitions(input@, result.parts()),
{
    if let Some(l) = limit {
        if l < floor {
            return Match::failed();
        }
    }
    if !has_at_least(input, floor) {
        return Match::failed();
    }
    let (k, offset) = scan_str_by_ref(input, limit, pattern);
    if k < floor {
        Match::failed()
    } else {
        split_str(input, Ghost(k as int), offset)
    }
}

} // verus!
