use reverse_proxy::text::{decimal, leading_segment_len, same_text};

#[test]
fn same_text_compares_every_character() {
    assert!(same_text("", ""));
    assert!(same_text("hasura-cache", "hasura-cache"));
    assert!(!same_text("hasura-cache", "hasura-cachf"));
    assert!(!same_text("hasura-cache", "hasura-cach"));
    assert!(!same_text("GET", "get"));
    assert!(same_text("caf\u{e9}", "caf\u{e9}"));
    assert!(!same_text("caf\u{e9}", "cafe"));
}

#[test]
fn leading_segment_len_stops_at_the_first_slash() {
    assert_eq!(leading_segment_len(""), 0);
    assert_eq!(leading_segment_len("/"), 0);
    assert_eq!(leading_segment_len("/a"), 0);
    assert_eq!(leading_segment_len("abc"), 3);
    assert_eq!(leading_segment_len("abc/"), 3);
    assert_eq!(leading_segment_len("abc/de/f"), 3);
}

#[test]
fn leading_segment_len_counts_characters_not_bytes() {
    assert_eq!(leading_segment_len("h\u{e9}llo/x"), 5);
    assert_eq!(leading_segment_len("\u{1f600}\u{1f600}/"), 2);
}

#[test]
fn decimal_writes_numbers_without_leading_zeros() {
    assert_eq!(decimal(0), "0");
    assert_eq!(decimal(7), "7");
    assert_eq!(decimal(10), "10");
    assert_eq!(decimal(80), "80");
    assert_eq!(decimal(109), "109");
    assert_eq!(decimal(10000), "10000");
    assert_eq!(decimal(65535), "65535");
}

#[test]
fn decimal_agrees_with_the_standard_library() {
    let mut number: u16 = 0;
    loop {
        assert_eq!(decimal(number), number.to_string());
        if number == u16::MAX {
            break;
        }
        number += 1;
    }
}
