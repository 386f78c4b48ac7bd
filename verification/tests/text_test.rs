//! The operations on text, and the map that is keyed by text.

use cp_core::test_base::get_test_data_path;
use cp_core::test_base::test_data_path_text;
use cp_core::text::chars_of;
use cp_core::text::contains_text;
use cp_core::text::decimal;
use cp_core::text::joined;
use cp_core::text::rank_text;
use cp_core::text::replace_all;
use cp_core::text::split;
use cp_core::text::Rank;
use cp_core::text_map::TextMap;

fn rank(a: &str, b: &str) -> i32 {
    match rank_text(a, b) {
        Rank::Before => -1,
        Rank::Same => 0,
        Rank::After => 1,
    }
}

#[test]
fn rank_text_orders_as_the_dictionary_does() {
    assert_eq!(0, rank("", ""));
    assert_eq!(0, rank("abc", "abc"));
    assert_eq!(-1, rank("", "a"));
    assert_eq!(1, rank("a", ""));
    assert_eq!(-1, rank("abc", "abd"));
    assert_eq!(1, rank("abd", "abc"));
    assert_eq!(-1, rank("ab", "abc"));
    assert_eq!(1, rank("abc", "ab"));
    assert_eq!(-1, rank("B", "a"));
    assert_eq!(-1, rank("z", "\u{e9}"));
}

#[test]
fn rank_text_agrees_with_the_order_of_strings() {
    let texts = ["", "a", "ab", "abc", "b", "B", "10", "9", "caf\u{e9}", "cafe", "\u{1f600}"];
    for a in texts {
        for b in texts {
            let expected = match a.cmp(b) {
                std::cmp::Ordering::Less => -1,
                std::cmp::Ordering::Equal => 0,
                std::cmp::Ordering::Greater => 1,
            };
            assert_eq!(expected, rank(a, b));
        }
    }
}

#[test]
fn joined_puts_tail_after_head() {
    assert_eq!("failed: why", joined("failed: ", "why"));
    assert_eq!("why", joined("", "why"));
    assert_eq!("", joined("", ""));
}

#[test]
fn decimal_writes_number_in_digits() {
    for number in [0u16, 1, 9, 10, 11, 99, 100, 404, 1000, 9999, 10000, 65535] {
        assert_eq!(number.to_string(), decimal(number));
    }
}

#[test]
fn chars_of_lists_characters_in_order() {
    assert_eq!(vec!['a', '\u{e9}', 'b'], chars_of("a\u{e9}b"));
    assert!(chars_of("").is_empty());
}

#[test]
fn contains_text_finds_needle_anywhere() {
    assert!(contains_text("error [429 Too Many Requests] again", "[429 Too Many Requests]"));
    assert!(contains_text("abc", "abc"));
    assert!(contains_text("abc", "a"));
    assert!(contains_text("abc", "c"));
    assert!(contains_text("abc", ""));
    assert!(contains_text("", ""));
    assert!(contains_text("aab", "ab"));
    assert!(!contains_text("abc", "abcd"));
    assert!(!contains_text("abc", "ac"));
    assert!(!contains_text("", "a"));
    assert!(!contains_text("[429 Too Many Requests", "[429 Too Many Requests]"));
}

#[test]
fn replace_all_replaces_every_occurrence() {
    assert_eq!("test_data/a/test_data/b", replace_all("tests/a/tests/b", "tests/", "test_data/"));
    assert_eq!("config", replace_all("config.rs", ".rs", ""));
    assert_eq!("abc", replace_all("abc", "x", "y"));
    assert_eq!("", replace_all("", "x", "y"));
    assert_eq!("y", replace_all("x", "x", "y"));
    assert_eq!("ba", replace_all("aaa", "aa", "b"));
    assert_eq!("xxxx", replace_all("xx", "x", "xx"));
    assert_eq!("abc", replace_all("abc", "", "y"));
    assert_eq!("abc", replace_all("abc", "abcd", "y"));
}

#[test]
fn replace_all_agrees_with_the_replacement_of_strings() {
    let texts = ["", "a", "aaaa", "abab", "tests/x.rs", "src/tests/tests.rs", "\u{e9}\u{e9}a\u{e9}"];
    let patterns = ["a", "aa", "ab", "tests/", ".rs", "\u{e9}", "b"];
    for text in texts {
        for from in patterns {
            for to in ["", "-", "aa"] {
                assert_eq!(text.replace(from, to), replace_all(text, from, to));
            }
        }
    }
}

#[test]
fn split_cuts_at_every_separator() {
    assert_eq!(vec!["Example", "Inner", "Value"], split("Example:Inner:Value", ':'));
    assert_eq!(vec!["Root"], split("Root", ':'));
    assert_eq!(vec![""], split("", ':'));
    assert_eq!(vec!["", ""], split(":", ':'));
    assert_eq!(vec!["a", "", "b"], split("a::b", ':'));
    assert_eq!(vec!["", "a"], split(":a", ':'));
    assert_eq!(vec!["a", ""], split("a:", ':'));
}

#[test]
fn split_agrees_with_the_split_of_strings() {
    for text in ["", ":", "a", "a:b", "a:b:c", "::", ":a:", "\u{e9}:\u{e9}", "a b:c"] {
        let expected: Vec<String> = text.split(':').map(|piece| piece.to_string()).collect();

        assert_eq!(expected, split(text, ':'));
    }
}

#[test]
fn get_test_data_path_puts_test_data_for_tests_and_drops_extension() {
    let path = get_test_data_path("tests/config_reader_test.rs");

    assert_eq!(std::path::PathBuf::from("test_data/config_reader_test"), path);
    assert_eq!("test_data/config_reader_test", test_data_path_text("tests/config_reader_test.rs"));
}

#[test]
fn get_test_data_path_replaces_wherever_the_words_stand() {
    assert_eq!("src/auth/jwt", test_data_path_text("src/auth/jwt.rs"));
    assert_eq!("test_data/test_data/a", test_data_path_text("tests/tests/a.rs.rs"));
    assert_eq!("", test_data_path_text(""));
    assert_eq!("test_data/c", test_data_path_text("tests/.rsc"));
}

#[test]
fn text_map_holds_what_was_put_in() {
    let mut map: TextMap<u32> = TextMap::new();
    for (key, value) in [("m", 1), ("a", 2), ("z", 3), ("b", 4), ("", 5), ("mm", 6)] {
        map.insert(key.to_string(), value);
    }

    assert_eq!(Some(&1), map.get("m"));
    assert_eq!(Some(&2), map.get("a"));
    assert_eq!(Some(&3), map.get("z"));
    assert_eq!(Some(&4), map.get("b"));
    assert_eq!(Some(&5), map.get(""));
    assert_eq!(Some(&6), map.get("mm"));
    assert_eq!(None, map.get("c"));
    assert!(map.contains_key("a"));
    assert!(!map.contains_key("A"));
}

#[test]
fn text_map_puts_new_value_in_place_of_old() {
    let mut map: TextMap<&str> = TextMap::new();
    map.insert("a".to_string(), "first");
    map.insert("b".to_string(), "other");
    map.insert("a".to_string(), "second");

    assert_eq!(Some(&"second"), map.get("a"));
    assert_eq!(Some(&"other"), map.get("b"));
}

#[test]
fn text_map_without_keys_finds_nothing() {
    let map: TextMap<u32> = TextMap::new();

    assert_eq!(None, map.get(""));
    assert!(!map.contains_key("a"));
}

#[test]
fn text_map_finds_each_of_many_keys() {
    let mut map: TextMap<usize> = TextMap::new();
    for i in 0..200 {
        map.insert(format!("key-{}", (i * 37) % 200), i);
    }

    for i in 0..200 {
        assert_eq!(Some(&i), map.get(format!("key-{}", (i * 37) % 200).as_str()));
    }
    assert_eq!(None, map.get("key-200"));
}
