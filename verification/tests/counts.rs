use pattern_matching::traits::SafeAsUsize;

#[test]
fn unsigned_counts_convert() {
    assert_eq!(0usize.as_usize(), Some(0));
    assert_eq!(usize::MAX.as_usize(), Some(usize::MAX));
    assert_eq!(255u8.as_usize(), Some(255));
    assert_eq!(65535u16.as_usize(), Some(65535));
    assert_eq!(7u32.as_usize(), Some(7));
    assert_eq!(7u64.as_usize(), Some(7));
}

#[test]
fn signed_counts_convert_where_they_are_not_negative() {
    assert_eq!(7isize.as_usize(), Some(7));
    assert_eq!(127i8.as_usize(), Some(127));
    assert_eq!(7i16.as_usize(), Some(7));
    assert_eq!(0i32.as_usize(), Some(0));
    assert_eq!(i32::MAX.as_usize(), Some(2147483647));
    assert_eq!(7i64.as_usize(), Some(7));
}

#[test]
fn negative_counts_do_not_convert() {
    assert_eq!((-1isize).as_usize(), None);
    assert_eq!((-1i8).as_usize(), None);
    assert_eq!(i8::MIN.as_usize(), None);
    assert_eq!((-1i16).as_usize(), None);
    assert_eq!((-1i32).as_usize(), None);
    assert_eq!(i64::MIN.as_usize(), None);
}

#[test]
fn counts_that_fit_the_word_convert_unchanged() {
    let most = usize::MAX as u64;
    assert_eq!(most.as_usize(), Some(usize::MAX));
    let signed = i64::MAX;
    if (signed as u64) <= most {
        assert_eq!(signed.as_usize(), Some(signed as usize));
    } else {
        assert_eq!(signed.as_usize(), None);
    }
}
