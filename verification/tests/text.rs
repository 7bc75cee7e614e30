use thorc::text::chars_of;
use thorc::text::contains;
use thorc::text::contains_chars;
use thorc::text::str_eq;
use thorc::text::str_precedes;
use thorc::text::usize_to_string;

#[test]
fn characters_come_out_in_order() {
    assert_eq!(chars_of("a\u{e9}z"), vec!['a', '\u{e9}', 'z']);
    assert_eq!(chars_of(""), Vec::<char>::new());
}

#[test]
fn substring_search_agrees_with_the_standard_one() {
    let hays = ["", "a", "web-api", "REST service", "aaa", "abcabd", "\u{e9}t\u{e9}"];
    let needles = ["", "a", "web", "api", "rest", "REST", "aa", "aaaa", "abd", "t\u{e9}", "e"];
    for hay in hays {
        for needle in needles {
            assert_eq!(contains(hay, needle), hay.contains(needle));
            assert_eq!(
                contains_chars(&chars_of(hay), &chars_of(needle)),
                hay.contains(needle)
            );
        }
    }
}

#[test]
fn the_empty_term_is_part_of_everything() {
    assert!(contains("", ""));
    assert!(contains("abc", ""));
    assert!(!contains("", "a"));
}

#[test]
fn the_search_tells_case_apart() {
    assert!(contains("REST service", "REST"));
    assert!(!contains("REST service", "rest"));
}

#[test]
fn the_order_of_names_agrees_with_the_standard_one() {
    let names = ["", "a", "A", "ab", "b", "web-api", "web-ui", "web", "0", "_", "-", "\u{e9}", "z\u{10000}", "z\u{ffff}"];
    for a in names {
        for b in names {
            assert_eq!(str_precedes(a, b), a < b);
            assert_eq!(str_eq(a, b), a == b);
        }
    }
}

#[test]
fn numerals_are_decimal() {
    assert_eq!(usize_to_string(0), "0");
    assert_eq!(usize_to_string(9), "9");
    assert_eq!(usize_to_string(10), "10");
    assert_eq!(usize_to_string(1234567890), "1234567890");
    assert_eq!(usize_to_string(usize::MAX), usize::MAX.to_string());
}
