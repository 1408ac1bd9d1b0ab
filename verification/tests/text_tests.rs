use tailburrow::text::{
    chars_of, is_space, decimal, find_sub, has_char, matches_at, push_chars, push_str, remove_chars,
    replace_char, same_text, signed_decimal, string_of, strip_all, tail_after_last, trim,
};

fn cs(s: &str) -> Vec<char> {
    s.chars().collect()
}

fn st(v: &[char]) -> String {
    v.iter().collect()
}

#[test]
fn chars_and_string_round_trip() {
    let v = chars_of("héllo wörld");
    assert_eq!(v, cs("héllo wörld"));
    assert_eq!(string_of(&v), "héllo wörld");
    assert_eq!(string_of(&Vec::new()), "");
}

#[test]
fn same_text_compares_characters() {
    assert!(same_text("abc", "abc"));
    assert!(!same_text("abc", "abd"));
    assert!(!same_text("abc", "ab"));
    assert!(same_text("", ""));
}

#[test]
fn trim_drops_white_space_at_both_ends() {
    assert_eq!(st(&trim(&cs("  a b \t\n"))), "a b");
    assert_eq!(st(&trim(&cs("\u{3000}x\u{a0}"))), "x");
    assert_eq!(st(&trim(&cs("   "))), "");
    assert_eq!(st(&trim(&cs(""))), "");
    assert_eq!(st(&trim(&cs("plain"))), "plain");
}

#[test]
fn replace_char_turns_every_occurrence() {
    assert_eq!(st(&replace_char(&cs("a b  c"), ' ', '_')), "a_b__c");
    assert_eq!(st(&replace_char(&cs("abc"), 'x', 'y')), "abc");
}

#[test]
fn remove_chars_drops_the_banned() {
    assert_eq!(st(&remove_chars(&cs("a<b>c:d"), &cs("<>:"))), "abcd");
    assert_eq!(st(&remove_chars(&cs("abc"), &cs(""))), "abc");
    assert!(has_char(&cs("<>:"), ':'));
    assert!(!has_char(&cs("<>:"), 'a'));
}

#[test]
fn decimal_renders_numbers() {
    assert_eq!(st(&decimal(0)), "0");
    assert_eq!(st(&decimal(7)), "7");
    assert_eq!(st(&decimal(10)), "10");
    assert_eq!(st(&decimal(4051)), "4051");
    assert_eq!(st(&decimal(u64::MAX)), "18446744073709551615");
}

#[test]
fn signed_decimal_renders_the_sign() {
    assert_eq!(st(&signed_decimal(0)), "0");
    assert_eq!(st(&signed_decimal(-12)), "-12");
    assert_eq!(st(&signed_decimal(123456)), "123456");
    assert_eq!(st(&signed_decimal(i64::MIN)), "-9223372036854775808");
    assert_eq!(st(&signed_decimal(i64::MAX)), "9223372036854775807");
}

#[test]
fn find_sub_gives_the_first_position() {
    assert_eq!(find_sub(&cs("a/art/b/art/c"), &cs("/art/")), Some(1));
    assert_eq!(find_sub(&cs("abc"), &cs("x")), None);
    assert_eq!(find_sub(&cs("abc"), &cs("")), Some(0));
    assert_eq!(find_sub(&cs("ab"), &cs("abc")), None);
    assert_eq!(find_sub(&cs("xxab"), &cs("ab")), Some(2));
    assert!(matches_at(&cs("xxab"), &cs("ab"), 2));
    assert!(!matches_at(&cs("xxab"), &cs("ab"), 3));
    assert!(!matches_at(&cs("xxab"), &cs("ab"), 9));
}

#[test]
fn strip_all_removes_each_occurrence() {
    assert_eq!(st(&strip_all(&cs("sid-12345"), &cs("sid-"))), "12345");
    assert_eq!(st(&strip_all(&cs("sid-1sid-2"), &cs("sid-"))), "12");
    assert_eq!(st(&strip_all(&cs("aaa"), &cs("aa"))), "a");
    assert_eq!(st(&strip_all(&cs("abc"), &cs(""))), "abc");
    assert_eq!(st(&strip_all(&cs("sid-"), &cs("sid-"))), "");
    assert_eq!("sid-1sid-2".replace("sid-", ""), "12");
}

#[test]
fn tail_after_last_takes_the_extension() {
    assert_eq!(st(&tail_after_last(&cs("https://d.example/art/x/file.name.png"), '.')), "png");
    assert_eq!(st(&tail_after_last(&cs("nodot"), '.')), "nodot");
    assert_eq!(st(&tail_after_last(&cs("ends."), '.')), "");
    assert_eq!(st(&tail_after_last(&cs(""), '.')), "");
}

#[test]
fn push_helpers_append() {
    let mut v = cs("ab");
    push_str(&mut v, "cd");
    push_chars(&mut v, &cs("ef"));
    assert_eq!(st(&v), "abcdef");
}

#[test]
fn is_space_is_the_white_space_property() {
    for n in 0..=0x10FFFFu32 {
        if let Some(c) = char::from_u32(n) {
            assert_eq!(is_space(c), c.is_whitespace(), "at U+{:04X}", n);
        }
    }
    assert!(is_space(' '));
    assert!(is_space('\u{3000}'));
    assert!(!is_space('a'));
    assert!(!is_space('\u{200B}'));
}
