use pattern_matching::result::Match;
use pattern_matching::traits::{MatchStatic, MatchWith, MatchWithInRange};

fn match_with_test(data: &[u8]) -> Match<&[u8], &[u8]> {
    data.match_static(b"#").match_exact_with(6, |x: u8| x.is_ascii() && (x as char).is_numeric())
}

#[test]
fn match_with_match_with() {
    let _ = match_with_test(b"#125678").unwrap();
}

#[test]
fn match_with_fails_on_letters() {
    assert!(match_with_test(b"#ABCDEF").is_failed());
}

fn match_with_str_test(data: &str) -> Match<&str, &str> {
    data.match_static("#").match_exact_with(6, |c: char| c.is_ascii() && c.is_numeric())
}

#[test]
fn match_with_match_with_str() {
    let _ = match_with_str_test("#125678").unwrap();
}

#[test]
fn match_with_str_fails_on_letters() {
    assert!(match_with_str_test("#ABCDEF").is_failed());
}

#[test]
fn match_with_takes_the_longest_prefix() {
    let data: &[u8] = &[1, 2, 3, 9, 4];
    let (matched, rest) = data.match_with(|x: u8| x < 5).unwrap();
    assert_eq!(matched, Some(&[1u8, 2, 3][..]));
    assert_eq!(rest, &[9u8, 4][..]);
    let (matched, rest) = data.match_with_ref(|x: &u8| *x < 5).unwrap();
    assert_eq!(matched, Some(&[1u8, 2, 3][..]));
    assert_eq!(rest, &[9u8, 4][..]);
    assert_eq!("123a4".match_with(|c: char| c.is_ascii_digit()).unwrap(), (Some("123"), "a4"));
    assert_eq!("123a4".match_with_ref(char::is_ascii_digit).unwrap(), (Some("123"), "a4"));
}

#[test]
fn match_with_never_fails() {
    let data: &[u8] = &[9, 1];
    let (matched, rest) = data.match_with(|x: u8| x < 5).unwrap();
    assert_eq!(matched, Some(&[][..]));
    assert_eq!(rest, &[9u8, 1][..]);
    let (matched, rest) = data.match_with(|_: u8| true).unwrap();
    assert_eq!(matched, Some(&[9u8, 1][..]));
    assert!(rest.is_empty());
    let empty: &[u8] = &[];
    let (matched, rest) = empty.match_with(|_: u8| false).unwrap();
    assert_eq!(matched, Some(&[][..]));
    assert!(rest.is_empty());
    assert_eq!("".match_with(|_: char| true).unwrap(), (Some(""), ""));
    assert_eq!("abc".match_with(|_: char| false).unwrap(), (Some(""), "abc"));
}

#[test]
fn match_with_asks_only_up_to_the_first_rejection() {
    let mut asked = Vec::new();
    let data: &[u8] = &[1, 2, 9, 3];
    let _ = data.match_with(|x: u8| {
        asked.push(x);
        x < 5
    });
    assert_eq!(asked, vec![1, 2, 9]);
}

#[test]
fn match_with_on_strings_splits_between_characters() {
    assert_eq!("ééa".match_with(|c: char| c == 'é').unwrap(), (Some("éé"), "a"));
    assert_eq!("日本語".match_max_with(2, |_: char| true).unwrap(), (Some("日本"), "語"));
}

#[test]
fn match_min_with_needs_the_minimum() {
    assert!("123".match_min_with(4, |c: char| c.is_ascii_digit()).is_failed());
    assert_eq!("123".match_min_with(3, |c: char| c.is_ascii_digit()).unwrap(), (Some("123"), ""));
    assert_eq!("123a".match_min_with(0, |c: char| c.is_ascii_digit()).unwrap(), (Some("123"), "a"));
    assert!("12ab".match_min_with(3, |c: char| c.is_ascii_digit()).is_failed());
    assert!("12ab".match_min_with_ref(3, char::is_ascii_digit).is_failed());
    let data: &[u8] = b"12ab";
    assert!(data.match_min_with(3, |x: u8| x.is_ascii_digit()).is_failed());
    let (matched, rest) = data.match_min_with_ref(2, u8::is_ascii_digit).unwrap();
    assert_eq!(matched, Some(&b"12"[..]));
    assert_eq!(rest, &b"ab"[..]);
}

#[test]
fn match_min_with_counts_characters() {
    assert!("é1".match_min_with(2, |c: char| c.is_alphabetic()).is_failed());
    assert_eq!("éé1".match_min_with(2, |c: char| c.is_alphabetic()).unwrap(), (Some("éé"), "1"));
}

#[test]
fn match_max_with_stops_at_the_maximum() {
    assert_eq!("12345".match_max_with(3, |c: char| c.is_ascii_digit()).unwrap(), (Some("123"), "45"));
    assert_eq!("12a45".match_max_with(3, |c: char| c.is_ascii_digit()).unwrap(), (Some("12"), "a45"));
    assert_eq!("12".match_max_with(3, |c: char| c.is_ascii_digit()).unwrap(), (Some("12"), ""));
    assert_eq!("12".match_max_with(0, |c: char| c.is_ascii_digit()).unwrap(), (Some(""), "12"));
    assert_eq!("12345".match_max_with_ref(3, char::is_ascii_digit).unwrap(), (Some("123"), "45"));
    let data: &[u8] = b"12345";
    let (matched, rest) = data.match_max_with(3, |x: u8| x.is_ascii_digit()).unwrap();
    assert_eq!(matched, Some(&b"123"[..]));
    assert_eq!(rest, &b"45"[..]);
    let (matched, rest) = data.match_max_with_ref(9, u8::is_ascii_digit).unwrap();
    assert_eq!(matched, Some(&b"12345"[..]));
    assert!(rest.is_empty());
}

#[test]
fn match_max_with_does_not_ask_beyond_the_maximum() {
    let mut asked = 0;
    let data: &[u8] = b"12345";
    let _ = data.match_max_with(2, |_: u8| {
        asked += 1;
        true
    });
    assert_eq!(asked, 2);
}

#[test]
fn match_min_max_with_keeps_both_bounds() {
    let digit = |c: char| c.is_ascii_digit();
    assert_eq!("12345".match_min_max_with(2, 4, digit).unwrap(), (Some("1234"), "5"));
    assert_eq!("123a".match_min_max_with(2, 4, digit).unwrap(), (Some("123"), "a"));
    assert_eq!("12".match_min_max_with(2, 4, digit).unwrap(), (Some("12"), ""));
    assert!("1a345".match_min_max_with(2, 4, digit).is_failed());
    assert!("1".match_min_max_with(2, 4, digit).is_failed());
    assert!("12345".match_min_max_with(4, 2, digit).is_failed());
    assert!("12345".match_min_max_with_ref(4, 2, char::is_ascii_digit).is_failed());
    let data: &[u8] = b"12345";
    let (matched, rest) = data.match_min_max_with(2, 4, |x: u8| x.is_ascii_digit()).unwrap();
    assert_eq!(matched, Some(&b"1234"[..]));
    assert_eq!(rest, &b"5"[..]);
    let (matched, rest) = data.match_min_max_with_ref(2, 4, u8::is_ascii_digit).unwrap();
    assert_eq!(matched, Some(&b"1234"[..]));
    assert_eq!(rest, &b"5"[..]);
}

#[test]
fn match_min_max_with_does_not_ask_where_the_bounds_cannot_be_met() {
    let mut asked = 0;
    let result = "12".match_min_max_with(3, 5, |_: char| {
        asked += 1;
        true
    });
    assert!(result.is_failed());
    let result = "12345".match_min_max_with(3, 2, |_: char| {
        asked += 1;
        true
    });
    assert!(result.is_failed());
    assert_eq!(asked, 0);
}

#[test]
fn match_exact_with_takes_the_count() {
    assert_eq!("12a".match_exact_with(2, |c: char| c.is_ascii_digit()).unwrap(), (Some("12"), "a"));
    assert!("1a".match_exact_with(2, |c: char| c.is_ascii_digit()).is_failed());
    assert_eq!("123".match_exact_with(2, |c: char| c.is_ascii_digit()).unwrap(), (Some("12"), "3"));
    assert_eq!("123".match_exact_with(0, |c: char| c.is_ascii_digit()).unwrap(), (Some(""), "123"));
    assert!("1".match_exact_with(2, |c: char| c.is_ascii_digit()).is_failed());
    assert_eq!("12a".match_exact_with_ref(2, char::is_ascii_digit).unwrap(), (Some("12"), "a"));
    let data: &[u8] = b"12a";
    let (matched, rest) = data.match_exact_with(2, |x: u8| x.is_ascii_digit()).unwrap();
    assert_eq!(matched, Some(&b"12"[..]));
    assert_eq!(rest, &b"a"[..]);
    assert!(data.match_exact_with_ref(3, u8::is_ascii_digit).is_failed());
}

#[test]
fn a_count_that_cannot_be_used_fails() {
    let digit = |c: char| c.is_ascii_digit();
    assert!("123".match_min_with(-1, digit).is_failed());
    assert!("123".match_max_with(-1, digit).is_failed());
    assert!("123".match_min_max_with(-1, 2, digit).is_failed());
    assert!("123".match_min_max_with(1i64, -2i64, digit).is_failed());
    assert!("123".match_exact_with(-3i8, digit).is_failed());
}

#[test]
fn counts_of_every_integer_type() {
    let digit = |c: char| c.is_ascii_digit();
    assert_eq!("123".match_exact_with(2usize, digit).unwrap(), (Some("12"), "3"));
    assert_eq!("123".match_exact_with(2isize, digit).unwrap(), (Some("12"), "3"));
    assert_eq!("123".match_exact_with(2u8, digit).unwrap(), (Some("12"), "3"));
    assert_eq!("123".match_exact_with(2i8, digit).unwrap(), (Some("12"), "3"));
    assert_eq!("123".match_exact_with(2u16, digit).unwrap(), (Some("12"), "3"));
    assert_eq!("123".match_exact_with(2i16, digit).unwrap(), (Some("12"), "3"));
    assert_eq!("123".match_exact_with(2u32, digit).unwrap(), (Some("12"), "3"));
    assert_eq!("123".match_exact_with(2i32, digit).unwrap(), (Some("12"), "3"));
    assert_eq!("123".match_exact_with(2u64, digit).unwrap(), (Some("12"), "3"));
    assert_eq!("123".match_exact_with(2i64, digit).unwrap(), (Some("12"), "3"));
}

#[test]
fn matchers_on_a_failure_do_not_ask() {
    let mut asked = false;
    let failed: Match<&str, &str> = Match::failed();
    assert!(failed.match_with(|_: char| {
        asked = true;
        true
    }).is_failed());
    assert!(failed.match_max_with(3, |_: char| {
        asked = true;
        true
    }).is_failed());
    assert!(failed.match_min_with_ref(0, |_: &char| {
        asked = true;
        true
    }).is_failed());
    assert!(!asked);
}
