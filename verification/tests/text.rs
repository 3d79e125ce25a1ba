use mailcmd::text::{clip, decimal, pad_right};

#[test]
fn decimal_writes_numbers_without_padding() {
    assert_eq!(decimal(0), "0");
    assert_eq!(decimal(7), "7");
    assert_eq!(decimal(10), "10");
    assert_eq!(decimal(1203), "1203");
    assert_eq!(decimal(usize::MAX), usize::MAX.to_string());
}

#[test]
fn pad_right_fills_up_to_the_width() {
    assert_eq!(pad_right("ab", 5), "ab   ");
    assert_eq!(pad_right("", 2), "  ");
    assert_eq!(pad_right("abc", 3), "abc");
    assert_eq!(pad_right("abcdef", 3), "abcdef");
    assert_eq!(pad_right("é│", 4), "é│  ");
}

#[test]
fn clip_cuts_at_the_limit() {
    assert_eq!(clip("abcdef", Some(3)), "abc");
    assert_eq!(clip("abcdef", Some(0)), "");
    assert_eq!(clip("abc", Some(3)), "abc");
    assert_eq!(clip("abc", Some(10)), "abc");
    assert_eq!(clip("abc", None), "abc");
    assert_eq!(clip("é│x", Some(2)), "é│");
}
