use echidna::text::{
    ascii_letter, ascii_letter_or_digit, chars_of, contains, find, find_from, glue, glue3,
    has_char, has_prefix, has_suffix, holds_text, join, join_strings, matches_at, parse_u32,
    push_all, push_decimal, push_signed_decimal, push_str, replace, replace_chars, same_chars,
    same_text, slice_of, split, string_of, trim,
};

fn c(s: &str) -> Vec<char> {
    s.chars().collect()
}

fn s(v: Vec<char>) -> String {
    v.into_iter().collect()
}

#[test]
fn characters_and_back() {
    assert_eq!(chars_of("añ→𝄞"), vec!['a', 'ñ', '→', '𝄞']);
    assert_eq!(string_of(&c("añ→𝄞")), "añ→𝄞");
    assert!(chars_of("").is_empty());
    assert_eq!(string_of(&vec![]), "");
}

#[test]
fn equality() {
    assert!(same_chars(&c("abc"), &c("abc")));
    assert!(!same_chars(&c("abc"), &c("abd")));
    assert!(!same_chars(&c("abc"), &c("ab")));
    assert!(same_text("", ""));
    assert!(!same_text("a", "A"));
    assert!(holds_text(&vec!["a".to_string(), "bc".to_string()], &c("bc")));
    assert!(!holds_text(&vec!["a".to_string(), "bc".to_string()], &c("b")));
    assert!(!holds_text(&vec![], &c("")));
}

#[test]
fn appending_and_slicing() {
    let mut out = c("ab");
    push_all(&mut out, &c("cd"));
    push_str(&mut out, "é");
    assert_eq!(s(out), "abcdé");
    assert_eq!(s(slice_of(&c("hello"), 1, 3)), "el");
    assert_eq!(s(slice_of(&c("hello"), 5, 5)), "");
    assert_eq!(glue("a", "b"), "ab");
    assert_eq!(glue3("a", "", "c"), "ac");
}

#[test]
fn searching() {
    assert!(matches_at(&c("hello"), &c("ll"), 2));
    assert!(!matches_at(&c("hello"), &c("ll"), 3));
    assert!(!matches_at(&c("hello"), &c("lo"), 4));
    assert!(matches_at(&c("hello"), &c(""), 5));
    assert!(!matches_at(&c("hello"), &c(""), 6));
    assert_eq!(find(&c("abcabc"), &c("bc")), Some(1));
    assert_eq!(find(&c("abcabc"), &c("x")), None);
    assert_eq!(find(&c("abc"), &c("")), Some(0));
    assert_eq!(find(&c(""), &c("")), Some(0));
    assert_eq!(find(&c("ab"), &c("abc")), None);
    assert_eq!(find_from(&c("abcabc"), &c("bc"), 2), Some(4));
    assert_eq!(find_from(&c("abcabc"), &c("bc"), 5), None);
    assert_eq!(find_from(&c("abc"), &c(""), 3), Some(3));
    assert_eq!(find_from(&c("abc"), &c(""), 4), None);
    assert!(contains(&c("abc"), &c("c")));
    assert!(!contains(&c("abc"), &c("ca")));
    assert!(has_prefix(&c("abc"), &c("ab")) && !has_prefix(&c("abc"), &c("bc")));
    assert!(has_suffix(&c("abc"), &c("bc")) && !has_suffix(&c("abc"), &c("ab")));
    assert!(has_suffix(&c("abc"), &c("")) && !has_suffix(&c("c"), &c("bc")));
    assert!(has_char(&c("abc"), 'b') && !has_char(&c("abc"), 'd'));
}

#[test]
fn splitting() {
    let rows = |text: &str, seps: &str| -> Vec<String> {
        split(&c(text), &c(seps)).into_iter().map(s).collect()
    };
    assert_eq!(rows("a.b.c", "."), vec!["a", "b", "c"]);
    assert_eq!(rows("", "."), vec![""]);
    assert_eq!(rows(".", "."), vec!["", ""]);
    assert_eq!(rows("a..b.", "."), vec!["a", "", "b", ""]);
    assert_eq!(rows("a-b_c", "-_"), vec!["a", "b", "c"]);
    assert_eq!(rows("abc", ""), vec!["abc"]);
}

#[test]
fn trimming() {
    assert_eq!(s(trim(&c("  a b \t\n"))), "a b");
    assert_eq!(s(trim(&c("\u{a0}\u{3000}x\u{2003}"))), "x");
    assert_eq!(s(trim(&c("   "))), "");
    assert_eq!(s(trim(&c(""))), "");
    assert_eq!(s(trim(&c("a"))), "a");
}

#[test]
fn replacing() {
    let r = |text: &str, pat: &str, rep: &str| s(replace(&c(text), &c(pat), &c(rep)));
    for (text, pat, rep) in [
        ("aaa", "aa", "b"),
        ("abcabc", "bc", "X"),
        ("abc", "", "-"),
        ("", "", "-"),
        ("", "a", "b"),
        ("abab", "ab", "ab"),
        ("hello", "l", ""),
        ("aXbXc", "X", "XX"),
        ("line\nline", "\n", "\\n"),
    ] {
        assert_eq!(r(text, pat, rep), text.replace(pat, rep));
    }
    let each = |text: &str, targets: &str, rep: &str| {
        s(replace_chars(&c(text), &c(targets), &c(rep)))
    };
    assert_eq!(each("a-b_c d", "-_ ", ""), "abcd");
    assert_eq!(each("a-b c", "- ", "_"), "a_b_c");
    assert_eq!(each("abc", "", "x"), "abc");
}

#[test]
fn joining() {
    let parts = vec![c("a"), c(""), c("b")];
    assert_eq!(s(join(&parts, &c(", "))), "a, , b");
    assert_eq!(s(join(&vec![], &c(", "))), "");
    assert_eq!(s(join(&vec![c("x")], &c(", "))), "x");
    assert_eq!(join_strings(&vec!["a".to_string(), "b".to_string()], "+"), "a+b");
    assert_eq!(join_strings(&vec![], "+"), "");
}

#[test]
fn decimals() {
    let d = |n: u64| {
        let mut out = Vec::new();
        push_decimal(&mut out, n);
        s(out)
    };
    assert_eq!(d(0), "0");
    assert_eq!(d(9), "9");
    assert_eq!(d(10), "10");
    assert_eq!(d(1234567890), "1234567890");
    assert_eq!(d(u64::MAX), "18446744073709551615");
    let sd = |n: i64| {
        let mut out = c(">");
        push_signed_decimal(&mut out, n);
        s(out)
    };
    assert_eq!(sd(0), ">0");
    assert_eq!(sd(-1), ">-1");
    assert_eq!(sd(42), ">42");
    assert_eq!(sd(i64::MIN), ">-9223372036854775808");
    assert_eq!(sd(i64::MAX), ">9223372036854775807");
}

#[test]
fn parsing_numbers() {
    for text in [
        "0", "7", "007", "+7", "4294967295", "4294967296", "42949672950", "", "+", "-1", "1a",
        " 1", "1 ", "++1", "+-1", "١٢", "1_000", "00000000000000000000001",
    ] {
        assert_eq!(parse_u32(&c(text)), text.parse::<u32>().ok(), "{:?}", text);
    }
}

#[test]
fn ascii_classes() {
    assert!(ascii_letter('a') && ascii_letter('Z') && !ascii_letter('1') && !ascii_letter('é'));
    assert!(ascii_letter_or_digit('0') && ascii_letter_or_digit('9'));
    assert!(!ascii_letter_or_digit('_') && !ascii_letter_or_digit('٣'));
    for ch in ['a', 'z', 'A', 'Z', '0', '9', '@', '[', '`', '{', '/', ':', 'é'] {
        assert_eq!(ascii_letter(ch), ch.is_ascii_alphabetic());
        assert_eq!(ascii_letter_or_digit(ch), ch.is_ascii_alphanumeric());
    }
}
