use pattern_matching::traits::{MatchStatic, MatchWith, MatchWithInRange};

fn match_with_test(data: &[u8]) -> bool {
    data.match_static(b"#")
        .execute(|&matched: &Option<&[u8]>, _| assert_eq!(matched.unwrap(), b"#"))
        .match_exact_with(2, |x: u8| x.is_ascii() && (x as char).is_numeric())
        .discarding(|_, rest: &[u8]| rest.match_with(|byte: u8| byte == b' '))
        .execute(|&matched: &Option<&[u8]>, _| assert_eq!(matched.unwrap(), b"12"))
        .match_exact_with(2, |x: u8| x.is_ascii() && (x as char).is_numeric())
        .discarding(|_, rest: &[u8]| rest.match_with(|byte: u8| byte == b' '))
        .execute(|&matched: &Option<&[u8]>, _| assert_eq!(matched.unwrap(), b"56"))
        .match_exact_with(2, |x: u8| x.is_ascii() && (x as char).is_numeric())
        .discarding(|_, rest: &[u8]| rest.match_with(|byte: u8| byte == b' '))
        .execute(|&matched: &Option<&[u8]>, _| assert_eq!(matched.unwrap(), b"78"))
        .take()
        .is_ok()
}

#[test]
fn discarding_match_with() {
    assert!(match_with_test(b"#12 56 78"));
}

#[test]
fn discarding_match_with_fails_on_letters() {
    assert!(!match_with_test(b"#AB CD EF"));
}

fn match_with_str_test(data: &str) -> bool {
    data.match_static("#")
        .execute(|&matched: &Option<&str>, _| assert_eq!(matched.unwrap(), "#"))
        .match_exact_with(2, |c: char| c.is_ascii() && c.is_numeric())
        .discarding(|_, rest: &str| rest.match_with(|c: char| c.is_whitespace()))
        .execute(|&matched: &Option<&str>, _| assert_eq!(matched.unwrap(), "12"))
        .match_exact_with(2, |c: char| c.is_ascii() && c.is_numeric())
        .discarding(|_, rest: &str| rest.match_with(|c: char| c.is_whitespace()))
        .execute(|&matched: &Option<&str>, _| assert_eq!(matched.unwrap(), "56"))
        .match_exact_with(2, |c: char| c.is_ascii() && c.is_numeric())
        .discarding(|_, rest: &str| rest.match_with(|c: char| c.is_whitespace()))
        .execute(|&matched: &Option<&str>, _| assert_eq!(matched.unwrap(), "78"))
        .take()
        .is_ok()
}

#[test]
fn discarding_match_with_str() {
    assert!(match_with_str_test("#12 56 78"));
}

#[test]
fn discarding_match_with_str_fails_on_letters() {
    assert!(!match_with_str_test("#AB CD EF"));
}

#[test]
fn discarding_keeps_the_matched_part() {
    let data: &[u8] = b"12   rest";
    let before = data.match_exact_with(2, |x: u8| x.is_ascii_digit());
    assert_eq!(before.matched(), Some(&&b"12"[..]));
    assert_eq!(before.rest(), Some(&&b"   rest"[..]));
    let after = before.discarding(|_, rest: &[u8]| rest.match_with(|byte: u8| byte == b' '));
    assert_eq!(after.matched(), Some(&&b"12"[..]));
    assert_eq!(after.rest(), Some(&&b"rest"[..]));
}

#[test]
fn discarding_ref_keeps_the_matched_part() {
    let after = "ab--cd"
        .match_static("ab")
        .discarding_ref(|matched, rest: &str| {
            assert_eq!(matched, &Some("ab"));
            rest.match_with(|c: char| c == '-')
        });
    assert_eq!(after.unwrap(), (Some("ab"), "cd"));
}

#[test]
fn discarding_fails_where_its_function_fails() {
    let after = "ab--cd".match_static("ab").discarding(|_, rest: &str| rest.match_static("x"));
    assert!(after.is_failed());
    assert_eq!(after.matched(), None);
    let after = "ab--cd".match_static("ab").discarding_ref(|_, rest: &str| rest.match_static("x"));
    assert!(after.is_failed());
    assert_eq!(after.matched(), None);
}
