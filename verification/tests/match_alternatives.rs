use pattern_matching::result::Match;
use pattern_matching::traits::{Alternatives, MatchStatic};

fn match_alternatives_test(data: &[u8]) -> Match<&[u8], &[u8]> {
    data.alternatives::<&[u8], &[u8]>()
        .add_path(|rest| rest.match_static(b"!"))
        .add_path(|rest| rest.match_static(b"@"))
        .add_path(|rest| rest.match_static(b"#"))
        .finalize()
        .alternatives::<&[u8], &[u8]>()
        .add_path(|rest| rest.match_static(b"01"))
        .add_path(|rest| rest.match_static(b"12"))
        .add_path(|rest| rest.match_static(b"23"))
        .finalize()
        .alternatives::<&[u8], &[u8]>()
        .add_path(|rest| rest.match_static(b"23"))
        .add_path(|rest| rest.match_static(b"34"))
        .add_path(|rest| rest.match_static(b"45"))
        .finalize()
        .alternatives::<&[u8], &[u8]>()
        .add_path(|rest| rest.match_static(b"45"))
        .add_path(|rest| rest.match_static(b"56"))
        .add_path(|rest| rest.match_static(b"67"))
        .finalize()
}

#[test]
fn match_alternatives() {
    let _ = match_alternatives_test(b"#123456").unwrap();
}

#[test]
fn match_alternatives_none_matches() {
    assert!(match_alternatives_test(b"#012340").is_failed());
}

fn match_alternatives_str_test(data: &str) -> Match<&str, &str> {
    data.alternatives::<&str, &str>()
        .add_path(|matched| matched.match_static("!"))
        .add_path(|matched| matched.match_static("@"))
        .add_path(|matched| matched.match_static("#"))
        .finalize()
        .alternatives::<&str, &str>()
        .add_path(|rest| rest.match_static("01"))
        .add_path(|rest| rest.match_static("12"))
        .add_path(|rest| rest.match_static("23"))
        .finalize()
        .alternatives::<&str, &str>()
        .add_path(|rest| rest.match_static("23"))
        .add_path(|rest| rest.match_static("34"))
        .add_path(|rest| rest.match_static("45"))
        .finalize()
        .alternatives::<&str, &str>()
        .add_path(|rest| rest.match_static("45"))
        .add_path(|rest| rest.match_static("56"))
        .add_path(|rest| rest.match_static("67"))
        .finalize()
}

#[test]
fn match_alternatives_str() {
    let (matched, rest) = match_alternatives_str_test("#123456").unwrap();
    assert_eq!(matched, Some("56"));
    assert_eq!(rest, "");
}

#[test]
fn match_alternatives_str_none_matches() {
    assert!(match_alternatives_str_test("#000000").is_failed());
}

#[test]
fn alternatives_stop_at_the_first_match() {
    let mut first_ran = false;
    let mut second_ran = false;
    let mut third_ran = false;
    let tree = "beta"
        .alternatives::<&str, &str>()
        .add_path(|start| {
            first_ran = true;
            start.match_static("alpha")
        });
    assert!(!tree.is_matched());
    let tree = tree.add_path(|start| {
        second_ran = true;
        start.match_static("be")
    });
    assert!(tree.is_matched());
    let result = tree
        .add_path(|start| {
            third_ran = true;
            start.match_static("beta")
        })
        .finalize();
    assert!(first_ran);
    assert!(second_ran);
    assert!(!third_ran);
    assert_eq!(result.unwrap(), (Some("be"), "ta"));
}

#[test]
fn alternatives_by_reference_stop_at_the_first_match() {
    let mut later_ran = false;
    let result = String::from("beta")
        .alternatives::<usize, usize>()
        .add_path_ref(|start| Match::new(Some(start.len()), 0))
        .add_path_ref(|_| {
            later_ran = true;
            Match::failed()
        })
        .finalize();
    assert!(!later_ran);
    assert_eq!(result.unwrap(), (Some(4), 0));
}

#[test]
fn alternatives_without_a_branch_fail() {
    let tree = "beta".alternatives::<&str, &str>();
    assert!(!tree.is_matched());
    assert!(tree.finalize().is_failed());
}
