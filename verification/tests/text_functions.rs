use docker_db_manager::commands::app::greet;
use docker_db_manager::text::{
    comes_before, contains, int_to_string, is_whitespace, join2, join3, same_text, split, starts_with, trim,
};

#[test]
fn contains_finds_parts_anywhere() {
    assert!(contains("Bind for 0.0.0.0:5432 failed", "Bind for"));
    assert!(contains("x port is already allocated", "port is already allocated"));
    assert!(contains("abc", ""));
    assert!(contains("", ""));
    assert!(contains("abc", "abc"));
    assert!(contains("aab", "ab"));
    assert!(!contains("abc", "abcd"));
    assert!(!contains("", "a"));
    assert!(!contains("No such Container", "No such container"));
    assert!(contains("größe: ñandú", "ñan"));
    assert_eq!(contains("ababac", "abac"), "ababac".contains("abac"));
}

#[test]
fn starts_with_looks_at_the_beginning_only() {
    assert!(starts_with("Up 3 hours", "Up"));
    assert!(starts_with("Up", "Up"));
    assert!(starts_with("anything", ""));
    assert!(!starts_with("U", "Up"));
    assert!(!starts_with(" Up", "Up"));
    assert!(!starts_with("Exited (0)", "Up"));
}

#[test]
fn trim_removes_unicode_whitespace_at_both_ends() {
    assert_eq!(trim("  abc \t\r\n"), "abc");
    assert_eq!(trim("a b"), "a b");
    assert_eq!(trim(""), "");
    assert_eq!(trim(" \n\t "), "");
    assert_eq!(trim("\u{a0}\u{2003}x\u{3000}\u{85}"), "x");
    assert_eq!(trim("\u{200b}x"), "\u{200b}x");
    for code in 0u32..0x3100 {
        if let Some(c) = char::from_u32(code) {
            assert_eq!(is_whitespace(c), c.is_whitespace(), "U+{:04X}", code);
        }
    }
}

#[test]
fn split_keeps_empty_fields() {
    assert_eq!(split("a,b,c", ','), vec!["a", "b", "c"]);
    assert_eq!(split("", ','), vec![""]);
    assert_eq!(split(",", ','), vec!["", ""]);
    assert_eq!(split("a,,b,", ','), vec!["a", "", "b", ""]);
    assert_eq!(split("no separator", ','), vec!["no separator"]);
    assert_eq!(split("ä\nö\n", '\n'), vec!["ä", "ö", ""]);
    let text = ",x,,yz,";
    let expected: Vec<String> = text.split(',').map(|s| s.to_string()).collect();
    assert_eq!(split(text, ','), expected);
}

#[test]
fn integers_are_rendered_in_decimal() {
    assert_eq!(int_to_string(0), "0");
    assert_eq!(int_to_string(7), "7");
    assert_eq!(int_to_string(10), "10");
    assert_eq!(int_to_string(5432), "5432");
    assert_eq!(int_to_string(-1), "-1");
    assert_eq!(int_to_string(-27017), "-27017");
    assert_eq!(int_to_string(2147483647), "2147483647");
    assert_eq!(int_to_string(-2147483648), "-2147483648");
    assert_eq!(int_to_string(i64::MAX), "9223372036854775807");
    assert_eq!(int_to_string(i64::MIN), "-9223372036854775808");
    for n in [-1000i64, -99, -10, 9, 99, 100, 101, 65535, 1000000] {
        assert_eq!(int_to_string(n), n.to_string());
    }
}

#[test]
fn joining_and_comparing_texts() {
    assert_eq!(join2("a", "b"), "ab");
    assert_eq!(join2("", ""), "");
    assert_eq!(join3("x", ":", "y"), "x:y");
    assert!(same_text("MySQL", "MySQL"));
    assert!(!same_text("MySQL", "mysql"));
    assert!(!same_text("a", "ab"));
}

#[test]
fn dictionary_order_goes_character_by_character() {
    assert!(comes_before("", "a"));
    assert!(!comes_before("", ""));
    assert!(!comes_before("a", ""));
    assert!(comes_before("a", "b"));
    assert!(comes_before("ab", "b"));
    assert!(comes_before("a", "ab"));
    assert!(!comes_before("ab", "ab"));
    assert!(comes_before("Z", "a"));
    assert!(comes_before("z", "ä"));
    let texts = ["", "A", "a", "ab", "b", "\u{e9}", "\u{10000}", "\u{ffff}"];
    for a in texts {
        for b in texts {
            assert_eq!(comes_before(a, b), a < b, "{:?} {:?}", a, b);
        }
    }
}

#[test]
fn greeting_names_the_guest() {
    assert_eq!(
        greet("Ada"),
        "Hello, Ada! You've been greeted from Rust!"
    );
    assert_eq!(greet(""), "Hello, ! You've been greeted from Rust!");
}
