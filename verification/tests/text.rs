use llama_chat::text::{
    chars_of, count_words, find_in, is_space_char, same_chars, same_text, string_of, trim_bounds,
    trim_end_matches_len, trimmed,
};

fn chars(s: &str) -> Vec<char> {
    s.chars().collect()
}

#[test]
fn whitespace_is_what_std_calls_whitespace() {
    let mut c = '\0';
    loop {
        assert_eq!(is_space_char(c), c.is_whitespace(), "U+{:04X}", c as u32);
        if c == char::MAX {
            break;
        }
        c = char::from_u32(c as u32 + 1).unwrap_or('\u{E000}');
    }
}

#[test]
fn chars_of_lists_every_character() {
    assert_eq!(chars_of(""), Vec::<char>::new());
    assert_eq!(chars_of("aé用"), vec!['a', 'é', '用']);
}

#[test]
fn string_of_takes_the_range() {
    let v = chars("hello world");
    assert_eq!(string_of(&v, 0, 5), "hello");
    assert_eq!(string_of(&v, 6, 11), "world");
    assert_eq!(string_of(&v, 3, 3), "");
}

#[test]
fn same_text_compares_characters() {
    assert!(same_text("abc", "abc"));
    assert!(same_text("", ""));
    assert!(!same_text("abc", "abd"));
    assert!(!same_text("abc", "ab"));
    assert!(same_chars(&chars("用户"), &chars("用户")));
    assert!(!same_chars(&chars("a"), &chars("")));
}

#[test]
fn trimmed_removes_outer_whitespace_only() {
    assert_eq!(trimmed("  a b \n"), "a b");
    assert_eq!(trimmed("a b"), "a b");
    assert_eq!(trimmed("\t\r\n x"), "x");
    assert_eq!(trimmed("x\u{3000}\u{A0}"), "x");
    assert_eq!(trimmed(" \n\t "), "");
    assert_eq!(trimmed(""), "");
}

#[test]
fn trimmed_agrees_with_std_trim() {
    for s in ["", " ", "a", " a", "a ", "  a  b  ", "\u{2003}x\u{2003}", "\n\n", "用户: "] {
        assert_eq!(trimmed(s), s.trim());
    }
}

#[test]
fn trim_bounds_gives_the_kept_range() {
    assert_eq!(trim_bounds(&chars("  ab ")), (2, 4));
    assert_eq!(trim_bounds(&chars("ab")), (0, 2));
    assert_eq!(trim_bounds(&chars("   ")), (3, 3));
    assert_eq!(trim_bounds(&chars("")), (0, 0));
}

#[test]
fn find_in_gives_the_first_occurrence() {
    let hay = chars("abcabc");
    assert_eq!(find_in(&hay, 6, &chars("bc")), Some(1));
    assert_eq!(find_in(&hay, 6, &chars("abc")), Some(0));
    assert_eq!(find_in(&hay, 6, &chars("cab")), Some(2));
    assert_eq!(find_in(&hay, 6, &chars("x")), None);
    assert_eq!(find_in(&hay, 6, &chars("abcabcd")), None);
    assert_eq!(find_in(&hay, 6, &chars("")), Some(0));
}

#[test]
fn find_in_looks_no_further_than_the_end_given() {
    let hay = chars("abcabc");
    assert_eq!(find_in(&hay, 2, &chars("bc")), None);
    assert_eq!(find_in(&hay, 3, &chars("bc")), Some(1));
    assert_eq!(find_in(&hay, 0, &chars("a")), None);
}

#[test]
fn trim_end_matches_removes_every_trailing_repetition() {
    let hay = chars("ab</s></s>");
    assert_eq!(trim_end_matches_len(&hay, hay.len(), &chars("</s>")), 2);
    let hay = chars("</s>ab");
    assert_eq!(trim_end_matches_len(&hay, hay.len(), &chars("</s>")), 6);
    let hay = chars("aaa");
    assert_eq!(trim_end_matches_len(&hay, 3, &chars("aa")), 1);
    assert_eq!(trim_end_matches_len(&hay, 3, &chars("")), 3);
    assert_eq!(trim_end_matches_len(&hay, 3, &chars("a")), 0);
    assert_eq!(trim_end_matches_len(&hay, 2, &chars("aa")), 0);
}

#[test]
fn trim_end_matches_agrees_with_std() {
    for (s, p) in [("x</s>", "</s>"), ("x</s> ", "</s>"), ("abab", "ab"), ("ab", "abc"), ("", "a")] {
        let hay = chars(s);
        let len = trim_end_matches_len(&hay, hay.len(), &chars(p));
        assert_eq!(string_of(&hay, 0, len), s.trim_end_matches(p));
    }
}

#[test]
fn count_words_counts_runs_between_whitespace() {
    assert_eq!(count_words("a b c"), 3);
    assert_eq!(count_words("d e"), 2);
    assert_eq!(count_words(""), 0);
    assert_eq!(count_words("   "), 0);
    assert_eq!(count_words("  hello   world  "), 2);
    assert_eq!(count_words("one\ttwo\nthree\r\nfour"), 4);
    assert_eq!(count_words("用户: 你好"), 2);
    assert_eq!(count_words("x"), 1);
}

#[test]
fn count_words_agrees_with_split_whitespace() {
    for s in ["", " ", "a", "a  b", " a b ", "<|im_start|>user\nhi<|im_end|>", "\u{3000}a\u{3000}"] {
        assert_eq!(count_words(s), s.split_whitespace().count());
    }
}
