use pattern_matching::prelude::{IntoMatch, Match, MatchFail, MatchFailed, MatchStatic, MatchWith};
use pattern_matching::result::{MappedMatch, TransformMappedMatch, TransformMatch};

#[test]
fn new_holds_its_parts() {
    let result = Match::new(Some("ab"), "cd");
    assert!(!result.is_failed());
    assert_eq!(result.matched(), Some(&"ab"));
    assert_eq!(result.rest(), Some(&"cd"));
    assert_eq!(result.take(), Ok((Some("ab"), "cd")));
    let result: Match<&str, &str> = Match::new(None, "cd");
    assert_eq!(result.matched(), None);
    assert_eq!(result.take(), Ok((None, "cd")));
}

#[test]
fn a_failure_has_no_parts() {
    let result: Match<&str, &str> = Match::failed();
    assert!(result.is_failed());
    assert_eq!(result.matched(), None);
    assert_eq!(result.rest(), None);
    assert_eq!(result.take(), Err(MatchFailed));
    let result: Match<&str, &str> = MatchFail::failed();
    assert!(result.is_failed());
    assert_eq!(result, Match::failed());
}

#[test]
fn into_match_has_matched_nothing_yet() {
    let result = "abc".into_match::<&str>();
    assert_eq!(result.take(), Ok((None, "abc")));
    let result: Match<&str, &str> = Match::from("abc");
    assert_eq!(result.take(), Ok((None, "abc")));
    assert_eq!("abc".into_match::<&str>().match_static("a").unwrap(), (Some("a"), "bc"));
}

#[test]
fn unwrap_and_expect_hand_out_the_parts() {
    assert_eq!(Match::new(Some(1), 2).unwrap(), (Some(1), 2));
    assert_eq!(Match::new(Some(1), 2).expect("the match has not failed"), (Some(1), 2));
    assert_eq!(MappedMatch::new(Some((1, 'a')), 2).unwrap(), (Some((1, 'a')), 2));
    assert_eq!(MappedMatch::new(Some((1, 'a')), 2).expect("not failed"), (Some((1, 'a')), 2));
}

#[test]
fn clone_keeps_the_parts() {
    let result = Match::new(Some(String::from("ab")), String::from("cd"));
    assert_eq!(result.clone(), result);
    let failed: Match<String, String> = Match::failed();
    assert_eq!(failed.clone(), failed);
    let mapped = MappedMatch::new(Some((String::from("ab"), 7)), String::from("cd"));
    assert_eq!(mapped.clone(), mapped);
    let failed: MappedMatch<String, String, u8> = MappedMatch::failed();
    assert_eq!(failed.clone(), failed);
}

#[test]
fn transform_replaces_a_success() {
    let full = Match::new(Some(2), 3).transform(|matched, rest| match matched {
        Some(m) => TransformMatch::Full(m * 10, rest + 1),
        None => TransformMatch::Failed,
    });
    assert_eq!(full.take(), Ok((Some(20), 4)));
    let only_rest = Match::new(Some(2), 3)
        .transform(|_, rest| TransformMatch::<u8, u8>::OnlyRest(rest));
    assert_eq!(only_rest.take(), Ok((None, 3)));
    let failed = Match::new(Some(2), 3).transform(|_, _| TransformMatch::<u8, u8>::Failed);
    assert!(failed.is_failed());
}

#[test]
fn transform_of_a_failure_does_not_call() {
    let mut ran = false;
    let result = Match::<u8, u8>::failed().transform(|_, rest| {
        ran = true;
        TransformMatch::<u8, u8>::OnlyRest(rest)
    });
    assert!(result.is_failed());
    let result = Match::<u8, u8>::failed().transform_full(|matched, rest| {
        ran = true;
        TransformMatch::Full(matched, rest)
    });
    assert!(result.is_failed());
    let result = Match::<u8, u8>::failed().transform_matched(|matched| {
        ran = true;
        matched
    });
    assert!(result.is_failed());
    let result = Match::<u8, u8>::failed().transform_rest(|rest| {
        ran = true;
        rest
    });
    assert!(result.is_failed());
    assert!(!ran);
}

#[test]
fn transform_full_needs_a_matched_part() {
    let result = Match::new(Some(2), 3).transform_full(|m, r| TransformMatch::Full(m + r, r));
    assert_eq!(result.take(), Ok((Some(5), 3)));
    let mut ran = false;
    let result = Match::<u8, u8>::new(None, 3).transform_full(|m, r| {
        ran = true;
        TransformMatch::Full(m, r)
    });
    assert!(result.is_failed());
    assert!(!ran);
}

#[test]
fn transform_matched_and_rest_touch_one_part() {
    let result = Match::new(Some("ab"), "cd").transform_matched(|m| m.len());
    assert_eq!(result.take(), Ok((Some(2), "cd")));
    let result = Match::<&str, &str>::new(None, "cd").transform_matched(|m| m.len());
    assert_eq!(result.take(), Ok((None, "cd")));
    let result = Match::new(Some("ab"), "cd").transform_rest(|r| r.len());
    assert_eq!(result.take(), Ok((Some("ab"), 2)));
    let result = Match::<&str, &str>::new(None, "cd").transform_rest(|r| r.len());
    assert_eq!(result.take(), Ok((None, 2)));
}

#[test]
fn map_attaches_a_value_to_the_matched_part() {
    let mapped = Match::new(Some("ab"), "cd").map(7);
    assert_eq!(mapped.take(), Ok((Some(("ab", 7)), "cd")));
    let mapped = Match::<&str, &str>::new(None, "cd").map(7);
    assert_eq!(mapped.take(), Ok((None, "cd")));
    let mapped = Match::<&str, &str>::failed().map(7);
    assert_eq!(mapped.take(), Err(MatchFailed));
}

#[test]
fn clear_drops_the_matched_part() {
    assert_eq!(Match::new(Some("ab"), "cd").clear().take(), Ok((None, "cd")));
    assert!(Match::<&str, &str>::failed().clear().is_failed());
    assert_eq!(MappedMatch::new(Some(("ab", 1)), "cd").clear().take(), Ok((None, "cd")));
    assert!(MappedMatch::<&str, &str, u8>::failed().clear().is_failed());
}

#[test]
fn assert_with_fails_where_the_condition_does_not_hold() {
    let result = Match::new(Some("ab"), "cd").assert_with(|m, r| m.is_some() && *r == "cd");
    assert_eq!(result.take(), Ok((Some("ab"), "cd")));
    let result = Match::new(Some("ab"), "cd").assert_with(|_, r| r.is_empty());
    assert!(result.is_failed());
    assert_eq!(result.matched(), None);
    let mut ran = false;
    let result = Match::<&str, &str>::failed().assert_with(|_, _| {
        ran = true;
        true
    });
    assert!(result.is_failed());
    assert!(!ran);
}

#[test]
fn execute_returns_the_result_as_it_was() {
    let mut seen = None;
    let result = Match::new(Some("ab"), "cd").execute(|m, r| seen = Some((*m, *r)));
    assert_eq!(seen, Some((Some("ab"), "cd")));
    assert_eq!(result.take(), Ok((Some("ab"), "cd")));
    let mut ran = false;
    let result = Match::<&str, &str>::failed().execute(|_, _| ran = true);
    assert!(result.is_failed());
    assert!(!ran);
}

#[test]
fn discarding_of_a_failure_does_not_call() {
    let mut ran = false;
    let result = Match::<&str, &str>::failed().discarding(|_, rest| {
        ran = true;
        Match::new(None, rest)
    });
    assert!(result.is_failed());
    let result = Match::<&str, &str>::failed().discarding_ref(|_, rest| {
        ran = true;
        Match::new(None, rest)
    });
    assert!(result.is_failed());
    assert!(!ran);
}

#[test]
fn discarding_hands_over_the_matched_part() {
    let result = Match::new(Some("ab"), "cd").discarding(|matched, rest| {
        assert_eq!(matched, Some("ab"));
        Match::new(Some("other"), &rest[1..])
    });
    assert_eq!(result.take(), Ok((Some("ab"), "d")));
}

#[test]
fn optional_reverts_where_the_attempt_fails() {
    let before = "12ab".match_with(|c: char| c.is_ascii_digit());
    let after = before.optional(|_, rest: &str| rest.match_static("x"));
    assert_eq!(after.take(), Ok((Some("12"), "ab")));
    let after = before.optional_ref(|_, rest| rest.match_static("x"));
    assert_eq!(after.take(), Ok((Some("12"), "ab")));
}

#[test]
fn optional_adopts_the_attempt_where_it_succeeds() {
    let before = "12ab".match_with(|c: char| c.is_ascii_digit());
    let after = before.optional(|matched, rest: &str| {
        assert_eq!(matched, Some("12"));
        rest.match_static("a")
    });
    assert_eq!(after.take(), Ok((Some("a"), "b")));
    let after = before.optional_ref(|matched, rest| {
        assert_eq!(matched, &Some("12"));
        rest.match_static("ab")
    });
    assert_eq!(after.take(), Ok((Some("ab"), "")));
}

#[test]
fn optional_does_not_recover_a_failed_chain() {
    let mut ran = false;
    let result = Match::<&str, &str>::failed().optional(|_, rest| {
        ran = true;
        Match::new(None, rest)
    });
    assert!(result.is_failed());
    let result = Match::<&str, &str>::failed().optional_ref(|_, rest| {
        ran = true;
        Match::new(None, *rest)
    });
    assert!(result.is_failed());
    assert!(!ran);
}

#[test]
fn from_a_transformation() {
    assert!(Match::<u8, u8>::from(TransformMatch::Failed).is_failed());
    assert_eq!(Match::<u8, u8>::from(TransformMatch::OnlyRest(1)).take(), Ok((None, 1)));
    assert_eq!(Match::<u8, u8>::from(TransformMatch::Full(2, 1)).take(), Ok((Some(2), 1)));
    assert!(MappedMatch::<u8, u8, u8>::from(TransformMappedMatch::Failed).is_failed());
    assert_eq!(
        MappedMatch::<u8, u8, u8>::from(TransformMappedMatch::OnlyRest(1)).take(),
        Ok((None, 1))
    );
    assert_eq!(
        MappedMatch::<u8, u8, u8>::from(TransformMappedMatch::Full(2, 1, 3)).take(),
        Ok((Some((2, 3)), 1))
    );
}

#[test]
fn mapped_results_hold_a_value_with_the_matched_part() {
    let result = MappedMatch::new(Some(("ab", 7)), "cd");
    assert!(!result.is_failed());
    assert_eq!(result.matched(), Some(&"ab"));
    assert_eq!(result.mapped(), Some(&7));
    assert_eq!(result.rest(), Some(&"cd"));
    let result: MappedMatch<&str, &str, u8> = MappedMatch::new(None, "cd");
    assert_eq!(result.matched(), None);
    assert_eq!(result.mapped(), None);
    let result: MappedMatch<&str, &str, u8> = MappedMatch::failed();
    assert!(result.is_failed());
    assert_eq!(result.matched(), None);
    assert_eq!(result.mapped(), None);
    assert_eq!(result.rest(), None);
    assert_eq!(result.take(), Err(MatchFailed));
    let result: MappedMatch<&str, &str, u8> = MatchFail::failed();
    assert!(result.is_failed());
}

#[test]
fn mapped_transformations() {
    let start = MappedMatch::new(Some(("ab", 7u8)), "cd");
    let result = start.transform(|matched, rest| match matched {
        Some((m, v)) => TransformMappedMatch::Full(m.len(), rest.len(), v + 1),
        None => TransformMappedMatch::Failed,
    });
    assert_eq!(result.take(), Ok((Some((2, 8)), 2)));
    let result = start.transform_full(|m, r, v| TransformMappedMatch::Full(r, m, v));
    assert_eq!(result.take(), Ok((Some(("cd", 7)), "ab")));
    let result = MappedMatch::<&str, &str, u8>::new(None, "cd")
        .transform_full(|m, r, v| TransformMappedMatch::Full(r, m, v));
    assert!(result.is_failed());
    assert_eq!(start.transform_matched(|m| m.len()).take(), Ok((Some((2, 7)), "cd")));
    assert_eq!(start.transform_rest(|r| r.len()).take(), Ok((Some(("ab", 7)), 2)));
    assert_eq!(start.transform_mapped(|v| v + 1).take(), Ok((Some(("ab", 8)), "cd")));
    let none = MappedMatch::<&str, &str, u8>::new(None, "cd");
    assert_eq!(none.transform_matched(|m| m.len()).take(), Ok((None, "cd")));
    assert_eq!(none.transform_mapped(|v| v + 1).take(), Ok((None, "cd")));
    let failed = MappedMatch::<&str, &str, u8>::failed();
    assert!(failed.transform_matched(|m| m.len()).is_failed());
    assert!(failed.transform_rest(|r| r.len()).is_failed());
    assert!(failed.transform_mapped(|v| v + 1).is_failed());
    assert!(failed.transform(|_, r| TransformMappedMatch::<u8, &str, u8>::OnlyRest(r)).is_failed());
}

#[test]
fn unmap_hands_the_value_over() {
    let mut got = None;
    let result = MappedMatch::new(Some(("ab", 7)), "cd").unmap(|v| got = Some(v));
    assert_eq!(got, Some(7));
    assert_eq!(result.take(), Ok((Some("ab"), "cd")));
    let mut ran = false;
    let result = MappedMatch::<&str, &str, u8>::new(None, "cd").unmap(|_| ran = true);
    assert_eq!(result.take(), Ok((None, "cd")));
    let result = MappedMatch::<&str, &str, u8>::failed().unmap(|_| ran = true);
    assert!(result.is_failed());
    assert!(!ran);
}

#[test]
fn mapped_into_collecting_starts_with_the_matched_part() {
    let mut got = None;
    let chain = MappedMatch::new(Some(("ab", 7)), "cd").into_collecting(|v| got = Some(v));
    assert_eq!(got, Some(7));
    assert_eq!(chain.finalize(), Ok((vec!["ab"], "cd")));
    let chain = MappedMatch::<&str, &str, u8>::failed().into_collecting(|_| {});
    assert_eq!(chain.finalize(), Err(MatchFailed));
}

#[test]
fn mapped_assert_with_and_execute() {
    let start = MappedMatch::new(Some(("ab", 7)), "cd");
    assert_eq!(start.assert_with(|m, r| m.is_some() && *r == "cd"), start);
    assert!(start.assert_with(|_, r| r.is_empty()).is_failed());
    let mut seen = None;
    assert_eq!(start.execute(|m, r| seen = Some((*m, *r))), start);
    assert_eq!(seen, Some((Some(("ab", 7)), "cd")));
    let mut ran = false;
    let failed = MappedMatch::<&str, &str, u8>::failed();
    assert!(failed.execute(|_, _| ran = true).is_failed());
    assert!(failed
        .assert_with(|_, _| {
            ran = true;
            true
        })
        .is_failed());
    assert!(!ran);
}

#[test]
fn mapped_discarding_keeps_the_matched_part_and_its_value() {
    let start = MappedMatch::new(Some(("ab", 7)), "  cd");
    let skip = |rest: &'static str| rest.trim_start();
    let result = start.discarding(|matched, rest| {
        assert_eq!(matched, Some(("ab", 7)));
        MappedMatch::new(Some(("other", 0)), skip(rest))
    });
    assert_eq!(result.take(), Ok((Some(("ab", 7)), "cd")));
    let result = start.discarding_ref(|_, rest| MappedMatch::new(None, skip(rest)));
    assert_eq!(result.take(), Ok((Some(("ab", 7)), "cd")));
    assert!(start.discarding(|_, _| MappedMatch::failed()).is_failed());
    assert!(start.discarding_ref(|_, _| MappedMatch::failed()).is_failed());
    let mut ran = false;
    let failed = MappedMatch::<&str, &str, u8>::failed();
    assert!(failed
        .discarding(|_, rest| {
            ran = true;
            MappedMatch::new(None, rest)
        })
        .is_failed());
    assert!(!ran);
}

#[test]
fn mapped_optional_reverts_where_the_attempt_fails() {
    let start = MappedMatch::new(Some(("ab", 7)), "cd");
    assert_eq!(start.optional(|_, _| MappedMatch::failed()), start);
    assert_eq!(start.optional_ref(|_, _| MappedMatch::failed()), start);
    let next = MappedMatch::new(Some(("cd", 8)), "");
    assert_eq!(start.optional(|_, _| next), next);
    assert_eq!(start.optional_ref(|_, _| next), next);
    let failed = MappedMatch::<&str, &str, u8>::failed();
    assert!(failed.optional(|_, _| next).is_failed());
    assert!(failed.optional_ref(|_, _| next).is_failed());
}

#[test]
fn matching_goes_on_from_the_rest_of_a_mapped_result() {
    let start = MappedMatch::new(Some(("ab", 7)), "cdef");
    assert_eq!(start.match_static("cd").take(), Ok((Some("cd"), "ef")));
    assert_eq!(start.match_with(|c: char| c < 'e').take(), Ok((Some("cd"), "ef")));
    let failed = MappedMatch::<&str, &str, u8>::failed();
    assert!(failed.match_static("cd").is_failed());
    assert!(failed.match_with(|_: char| true).is_failed());
}
