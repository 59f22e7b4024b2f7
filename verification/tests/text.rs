use lemmy_bb::text::{
    char_is_white_space, concat_int, contains, find, from_chars, int_to_string,
    matches_at, nat_to_string, replace, replace_once, starts_with, str_eq, str_is_blank, to_chars,
};

#[test]
fn chars_round_trip() {
    let text = "naïve ☺ text";
    let chars = to_chars(text);
    assert_eq!(chars, text.chars().collect::<Vec<char>>());
    assert_eq!(from_chars(&chars), text);
    assert_eq!(from_chars(&Vec::new()), "");
}

#[test]
fn concat_joins() {
    assert_eq!(lemmy_bb::text::concat("ab", "cd"), "abcd");
    assert_eq!(lemmy_bb::text::concat("", ""), "");
    assert_eq!(concat_int("/view_topic?t=", -7), "/view_topic?t=-7");
}

#[test]
fn white_space_is_what_std_calls_white_space() {
    for code in 0..=0x10FFFFu32 {
        if let Some(c) = char::from_u32(code) {
            assert_eq!(char_is_white_space(c), c.is_whitespace(), "U+{:04X}", code);
        }
    }
}

#[test]
fn blank_strings_are_those_that_trim_to_nothing() {
    for text in ["", " ", "\t\n ", "\u{a0}\u{3000}", " a ", "a", "\u{200b}", " \u{feff}"] {
        assert_eq!(str_is_blank(text), text.trim() == "", "{:?}", text);
    }
}

#[test]
fn decimal_numerals() {
    assert_eq!(nat_to_string(0), "0");
    assert_eq!(nat_to_string(9), "9");
    assert_eq!(nat_to_string(10), "10");
    assert_eq!(nat_to_string(u64::MAX), "18446744073709551615");
    assert_eq!(int_to_string(0), "0");
    assert_eq!(int_to_string(-12), "-12");
    assert_eq!(int_to_string(i64::MIN), "-9223372036854775808");
    assert_eq!(int_to_string(i64::MAX), "9223372036854775807");
    for n in [-1000001i64, -1, 1, 7, 42, 100, 1234567890123] {
        assert_eq!(int_to_string(n), format!("{}", n));
    }
}

#[test]
fn prefixes_and_equality() {
    assert!(starts_with("/assets/style.css", "/assets"));
    assert!(starts_with("/assets", "/assets"));
    assert!(!starts_with("/asset", "/assets"));
    assert!(starts_with("anything", ""));
    assert!(!starts_with("", "x"));
    assert!(str_eq("ok", "ok"));
    assert!(!str_eq("ok", "ok "));
    assert!(!str_eq("ok", "oK"));
    assert!(str_eq("", ""));
}

#[test]
fn occurrences() {
    let text = to_chars("abcabc");
    assert!(matches_at(&text, 3, &to_chars("abc")));
    assert!(!matches_at(&text, 4, &to_chars("abc")));
    assert!(matches_at(&text, 6, &Vec::new()));
    assert!(!matches_at(&text, 7, &Vec::new()));
    assert_eq!(find(&text, &to_chars("ca")), Some(2));
    assert_eq!(find(&text, &to_chars("cb")), None);
    assert_eq!(find(&text, &to_chars("abc")), Some(0));
    assert!(contains("a {} b", "{}"));
    assert!(!contains("a { } b", "{}"));
}

#[test]
fn replace_is_what_std_replaces() {
    let cases = [
        ("", "a", "b"),
        ("aaa", "a", "bb"),
        ("aaa", "aa", "b"),
        ("abcabc", "bc", ""),
        ("a:):)b", ":)", "![](x)"),
        ("ababab", "aba", "X"),
        ("no match", "xyz", "!"),
        ("ünïcödé", "ï", "i"),
        ("line\nline\n", "\n", " "),
        ("short", "much longer pattern", "x"),
        ("abc", "", "-"),
        ("", "", "x"),
        ("a", "", ""),
        ("héllo", "", "<>"),
    ];
    for (text, from, to) in cases {
        assert_eq!(replace(text, from, to), text.replace(from, to), "{:?}", (text, from, to));
        assert_eq!(
            replace_once(text, from, to),
            text.replacen(from, to, 1),
            "{:?}",
            (text, from, to)
        );
    }
}

#[test]
fn empty_pattern_occurs_before_each_character_and_at_the_end() {
    assert_eq!(replace("ab", "", "-"), "-a-b-");
    assert_eq!(replace("", "", "-"), "-");
    assert_eq!(replace_once("ab", "", "-"), "-ab");
    assert_eq!(replace_once("", "", "-"), "-");
}

#[test]
fn replace_resumes_after_the_replacement() {
    assert_eq!(replace("aaaa", "aa", "a"), "aa");
    assert_eq!(replace("xx", "x", "xx"), "xxxx");
    assert_eq!(replace_once("xx", "x", "xx"), "xxx");
}
