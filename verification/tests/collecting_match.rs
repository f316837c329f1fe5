use pattern_matching::result::{CollectingMatch, Match, MatchFailed};
use pattern_matching::traits::{MatchStatic, MatchWith, MatchWithInRange};

fn collecting_match_test(data: &[u8]) -> Result<(Vec<&[u8]>, &[u8]), MatchFailed> {
    data.match_static(b"#")
        .into_collecting()
        .repeat(3, |_, rest: &[u8]| {
            rest.match_exact_with(2, |byte: u8| (byte as char).is_numeric())
        })
        .finalize()
}

#[test]
fn collecting_match() {
    collecting_match_test(b"#123456").unwrap();
}

#[test]
fn collecting_match_fails_on_letters() {
    assert_eq!(collecting_match_test(b"#ABCDEF"), Err(MatchFailed));
}

fn collecting_match_str_test(data: &str) -> Result<(Vec<&str>, &str), MatchFailed> {
    data.match_static("#")
        .into_collecting()
        .repeat(3, |_, rest: &str| rest.match_exact_with(2, |c: char| c.is_numeric()))
        .finalize()
}

#[test]
fn collecting_match_str() {
    collecting_match_str_test("#123456").unwrap();
}

#[test]
fn collecting_match_str_fails_on_letters() {
    assert_eq!(collecting_match_str_test("#ABCDEF"), Err(MatchFailed));
}

fn collecting_match_repeat_test(data: &[u8]) -> Result<(Vec<&[u8]>, &[u8]), MatchFailed> {
    data.match_static(b"#")
        .into_collecting()
        .repeat(3, |_, rest: &[u8]| {
            rest.match_exact_with(2, |byte: u8| (byte as char).is_numeric())
        })
        .finalize()
}

#[test]
fn collecting_match_repeat() {
    collecting_match_repeat_test(b"#123456").unwrap();
}

#[test]
fn collecting_match_repeat_fails_on_letters() {
    assert_eq!(collecting_match_repeat_test(b"#ABCDEF"), Err(MatchFailed));
}

fn collecting_match_repeat_str_test(data: &str) -> Result<(Vec<&str>, &str), MatchFailed> {
    data.match_static("#")
        .into_collecting()
        .repeat(3, |_, rest: &str| rest.match_exact_with(2, |c: char| c.is_numeric()))
        .finalize()
}

#[test]
fn collecting_match_repeat_str() {
    collecting_match_repeat_str_test("#123456").unwrap();
}

#[test]
fn collecting_match_repeat_str_fails_on_letters() {
    assert_eq!(collecting_match_repeat_str_test("#ABCDEF"), Err(MatchFailed));
}

#[test]
fn repeat_collects_each_matched_part_in_order() {
    let (parts, rest) = collecting_match_repeat_str_test("#123456tail").unwrap();
    assert_eq!(parts, vec!["#", "12", "34", "56"]);
    assert_eq!(rest, "tail");
}

#[test]
fn repeat_is_all_or_nothing() {
    let mut calls = 0;
    let chain = "1234ab"
        .match_static("")
        .clear()
        .into_collecting()
        .repeat(3, |_, rest: &str| {
            calls += 1;
            rest.match_exact_with(2, |c: char| c.is_ascii_digit())
        });
    assert_eq!(calls, 3);
    assert!(chain.is_failed());
    assert_eq!(chain.finalize(), Err(MatchFailed));
}

#[test]
fn repeat_stops_calling_after_a_failure() {
    let mut calls = 0;
    let chain = CollectingMatch::<&str, &str>::from("12ab56").repeat(5, |_, rest: &str| {
        calls += 1;
        rest.match_exact_with(2, |c: char| c.is_ascii_digit())
    });
    assert_eq!(calls, 2);
    assert!(chain.is_failed());
}

#[test]
fn repeat_with_a_huge_count_stops_at_the_first_failure() {
    let mut calls = 0;
    let chain = CollectingMatch::<&str, &str>::from("1234").repeat(usize::MAX, |_, rest: &str| {
        calls += 1;
        rest.match_exact_with(1, |c: char| c.is_ascii_digit())
    });
    assert_eq!(calls, 5);
    assert!(chain.is_failed());
    let failed = CollectingMatch::<&str, &str>::failed().repeat(usize::MAX, |_, rest: &str| {
        calls += 1;
        Match::new(None, rest)
    });
    assert_eq!(calls, 5);
    assert!(failed.is_failed());
}

#[test]
fn repeat_of_no_steps_changes_nothing() {
    let chain = CollectingMatch::<&str, &str>::from("12").repeat(0, |_, _: &str| Match::failed());
    assert_eq!(chain.finalize(), Ok((vec![], "12")));
}

#[test]
fn single_collects_one_matched_part() {
    let chain = CollectingMatch::<&str, &str>::from("12ab")
        .single(|last, rest: &str| {
            assert_eq!(last, None);
            rest.match_exact_with(2, |c: char| c.is_ascii_digit())
        })
        .single(|last, rest: &str| {
            assert_eq!(last, Some(&"12"));
            rest.match_with(|c: char| c.is_alphabetic())
        });
    assert_eq!(chain.finalize(), Ok((vec!["12", "ab"], "")));
}

#[test]
fn single_collects_nothing_from_a_result_without_a_matched_part() {
    let chain = CollectingMatch::<&str, &str>::from("12ab")
        .single(|_, rest: &str| rest.match_static("12").clear());
    assert_eq!(chain.finalize(), Ok((vec![], "ab")));
}

#[test]
fn single_drops_what_was_collected_where_it_fails() {
    let mut later_ran = false;
    let chain = "12ab"
        .match_static("12")
        .into_collecting()
        .single(|_, rest: &str| rest.match_static("x"))
        .single(|_, rest: &str| {
            later_ran = true;
            rest.match_static("")
        });
    assert!(!later_ran);
    assert!(chain.is_failed());
    assert_eq!(chain.finalize(), Err(MatchFailed));
}

#[test]
fn collecting_discarding_consumes_without_collecting() {
    let chain = "12, 34"
        .match_static("12")
        .into_collecting()
        .discarding(|last, rest: &str| {
            assert_eq!(last, Some(&"12"));
            rest.match_with(|c: char| c == ',' || c == ' ')
        })
        .single(|_, rest: &str| rest.match_exact_with(2, |c: char| c.is_ascii_digit()));
    assert_eq!(chain.finalize(), Ok((vec!["12", "34"], "")));
    let failed = "12, 34"
        .match_static("12")
        .into_collecting()
        .discarding(|_, rest: &str| rest.match_static(";"));
    assert_eq!(failed.finalize(), Err(MatchFailed));
}

#[test]
fn collecting_assert_with_and_execute() {
    let mut seen = Vec::new();
    let chain = "12ab"
        .match_static("12")
        .into_collecting()
        .execute(|last, rest| seen.push((last.copied(), *rest)))
        .assert_with(|last, rest| last == Some(&"12") && *rest == "ab");
    assert!(!chain.is_failed());
    let chain = chain.assert_with(|_, rest| rest.is_empty());
    assert!(chain.is_failed());
    let mut ran = false;
    let chain = chain.execute(|_, _| ran = true).assert_with(|_, _| {
        ran = true;
        true
    });
    assert!(chain.is_failed());
    assert!(!ran);
    assert_eq!(seen, vec![(Some("12"), "ab")]);
}

#[test]
fn collecting_optional_keeps_the_chain_where_the_attempt_fails() {
    let chain = "12ab"
        .match_static("12")
        .into_collecting()
        .optional(|_, _: &str| CollectingMatch::failed())
        .optional_ref(|_, _| CollectingMatch::failed());
    assert_eq!(chain.clone().finalize(), Ok((vec!["12"], "ab")));
    let chain = chain.optional(|_, rest: &str| rest.match_static("a").into_collecting());
    assert_eq!(chain.clone().finalize(), Ok((vec!["a"], "b")));
    let chain = chain.optional_ref(|_, rest| rest.match_static("b").into_collecting());
    assert_eq!(chain.finalize(), Ok((vec!["b"], "")));
}

#[test]
fn collecting_unwrap_and_expect() {
    let chain = "12ab".match_static("12").into_collecting();
    assert_eq!(chain.clone().unwrap(), (vec!["12"], "ab"));
    assert_eq!(chain.expect("the chain has not failed"), (vec!["12"], "ab"));
}

#[test]
fn collecting_starts_from_a_result_or_a_rest() {
    let from_match = CollectingMatch::<&str, &str>::from(Match::new(Some("a"), "b"));
    assert_eq!(from_match.finalize(), Ok((vec!["a"], "b")));
    let without_part = CollectingMatch::<&str, &str>::from(Match::<&str, &str>::new(None, "b"));
    assert_eq!(without_part.finalize(), Ok((vec![], "b")));
    let from_failure = CollectingMatch::<&str, &str>::from(Match::<&str, &str>::failed());
    assert_eq!(from_failure.finalize(), Err(MatchFailed));
    let from_rest = CollectingMatch::<&str, &str>::from("b");
    assert_eq!(from_rest.finalize(), Ok((vec![], "b")));
    let failed = CollectingMatch::<&str, &str>::failed();
    assert!(failed.is_failed());
}
