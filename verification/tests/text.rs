use heos::data::player::PlayerId;
use heos::data::queue::QueueId;
use heos::text::{
    concat2, concat3, i64_to_string, parse_i64, parse_list, parse_u64, split, u64_to_string,
};

#[test]
fn numbers_are_written_in_decimal() {
    assert_eq!(u64_to_string(0), "0");
    assert_eq!(u64_to_string(7), "7");
    assert_eq!(u64_to_string(1255), "1255");
    assert_eq!(u64_to_string(u64::MAX), "18446744073709551615");
    assert_eq!(i64_to_string(0), "0");
    assert_eq!(i64_to_string(-42), "-42");
    assert_eq!(i64_to_string(i64::MAX), "9223372036854775807");
    assert_eq!(i64_to_string(i64::MIN), "-9223372036854775808");
}

#[test]
fn unsigned_numbers_are_read_like_the_standard_library_reads_them() {
    for text in ["0", "7", "007", "+5", "18446744073709551615", "", "+", "-", "-0", "-1", "1a",
        " 1", "18446744073709551616", "99999999999999999999999", "١"]
    {
        assert_eq!(parse_u64(text), text.parse::<u64>().ok(), "{text:?}");
    }
}

#[test]
fn signed_numbers_are_read_like_the_standard_library_reads_them() {
    for text in ["0", "-0", "+0", "42", "-42", "+42", "9223372036854775807",
        "9223372036854775808", "-9223372036854775808", "-9223372036854775809", "", "+", "-",
        "--1", "+-1", "1-", "1.5", "0x10", "12 "]
    {
        assert_eq!(parse_i64(text), text.parse::<i64>().ok(), "{text:?}");
    }
}

#[test]
fn reading_gives_back_what_was_written() {
    for n in [0u64, 1, 9, 10, 99, 100, 12345, u64::MAX] {
        assert_eq!(parse_u64(&u64_to_string(n)), Some(n));
    }
    for n in [0i64, 1, -1, 10, -10, i64::MAX, i64::MIN] {
        assert_eq!(parse_i64(&i64_to_string(n)), Some(n));
    }
}

#[test]
fn split_cuts_at_every_separator() {
    assert_eq!(split("a,b,c", ','), vec!["a", "b", "c"]);
    assert_eq!(split("", ','), vec![""]);
    assert_eq!(split(",", ','), vec!["", ""]);
    assert_eq!(split("a,,b", ','), vec!["a", "", "b"]);
    assert_eq!(split("a,b,", ','), vec!["a", "b", ""]);
    assert_eq!(split("äö&ü", '&'), vec!["äö", "ü"]);
    assert_eq!(split("no separator", ','), vec!["no separator"]);
}

#[test]
fn lists_are_read_element_by_element() {
    assert_eq!(parse_list::<QueueId>("3,4"), Some(vec![QueueId(3), QueueId(4)]));
    assert_eq!(parse_list::<PlayerId>("-7"), Some(vec![PlayerId(-7)]));
    assert_eq!(parse_list::<QueueId>(""), None);
    assert_eq!(parse_list::<QueueId>("1,,2"), None);
    assert_eq!(parse_list::<QueueId>("1,x"), None);
    assert_eq!(parse_list::<QueueId>("-1"), None);
}

#[test]
fn texts_are_joined_in_order() {
    assert_eq!(concat2("ab", "cd"), "abcd");
    assert_eq!(concat3("a", "", "c"), "ac");
}
