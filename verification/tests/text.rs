use hover_dict::text::{
    decimal_text, has_punctuation, is_sentence, preview_text, punctuation, replace_all, same,
    starts_with, strip_repeated, trim, white_space, word_count,
};

#[test]
fn words_are_runs_between_white_space() {
    assert_eq!(word_count(""), 0);
    assert_eq!(word_count("  \t\n "), 0);
    assert_eq!(word_count("word"), 1);
    assert_eq!(word_count("  two  words "), 2);
    assert_eq!(word_count("full\u{3000}width\u{a0}blanks"), 3);
    for s in ["a b c", " x\u{85}y ", "一 二\u{2003}三", "a\u{200b}b", "q\u{1680}r\u{202f}s"] {
        assert_eq!(word_count(s), s.split_whitespace().count());
    }
}

#[test]
fn white_space_is_that_of_unicode() {
    for u in 0..=0x10ffffu32 {
        if let Some(c) = char::from_u32(u) {
            assert_eq!(white_space(c), c.is_whitespace());
        }
    }
}

#[test]
fn trimming_takes_white_space_off_both_ends() {
    assert_eq!(trim("  two words\t\n"), "two words");
    assert_eq!(trim(""), "");
    assert_eq!(trim(" \u{3000}\r\n "), "");
    assert_eq!(trim("\u{2003}一 二\u{a0}"), "一 二");
    for s in ["plain", " a", "a ", "\u{200b} x \u{200b}", "\u{85}é\u{2028}", " \u{feff} "] {
        assert_eq!(trim(s), s.trim());
        assert_eq!(trim(trim(s)), trim(s));
    }
}

#[test]
fn punctuation_is_ascii_or_chinese() {
    for u in 0u8..128 {
        let c = u as char;
        assert_eq!(punctuation(c), c.is_ascii_punctuation());
    }
    for c in ['，', '。', '！', '？', '；', '：'] {
        assert!(punctuation(c));
    }
    assert!(!punctuation('、'));
    assert!(!punctuation('中'));
    assert!(has_punctuation("你好，世界"));
    assert!(!has_punctuation("你好世界"));
    assert!(!has_punctuation(""));
}

#[test]
fn sentence_needs_three_words_or_punctuation() {
    assert!(!is_sentence("word"));
    assert!(!is_sentence("two words"));
    assert!(is_sentence("now three words"));
    assert!(is_sentence("stop."));
    assert!(is_sentence("well-known"));
    assert!(is_sentence("你好。"));
    assert!(!is_sentence(""));
}

#[test]
fn preview_is_trimmed_and_cut() {
    assert_eq!(preview_text("  hello  ", 120), "hello");
    assert_eq!(preview_text("hello", 5), "hello");
    assert_eq!(preview_text("hello", 4), "hell...");
    assert_eq!(preview_text(" 一二三四 ", 2), "一二...");
    assert_eq!(preview_text("abc", 0), "...");
    assert_eq!(preview_text("   ", 0), "");
}

#[test]
fn replacement_goes_from_left_without_overlap() {
    assert_eq!(replace_all("a\\nb\\nc", "\\n", "\n"), "a\nb\nc");
    assert_eq!(replace_all("aaa", "aa", "b"), "ba");
    assert_eq!(replace_all("abc", "x", "y"), "abc");
    assert_eq!(replace_all("", "x", "y"), "");
    assert_eq!(replace_all("中文中", "中", ""), "文");
    for s in ["\\\\rr", "\\r\\r", "x\\", "\\n\\r\\n", "plain"] {
        assert_eq!(replace_all(s, "\\r", ""), s.replace("\\r", ""));
    }
}

#[test]
fn prefix_is_stripped_as_often_as_it_stands() {
    assert_eq!(strip_repeated("model_x", "model_"), "x");
    assert_eq!(strip_repeated("model_model_x", "model_"), "x");
    assert_eq!(strip_repeated("xmodel_", "model_"), "xmodel_");
    assert_eq!(strip_repeated("model_", "model_"), "");
    assert_eq!(strip_repeated("abc", ""), "abc");
    assert!(starts_with("model_a", "model_"));
    assert!(!starts_with("mode", "model_"));
    assert!(starts_with("", ""));
}

#[test]
fn numerals() {
    for n in [0u128, 7, 10, 99, 1234567890, u64::MAX as u128, u128::MAX] {
        assert_eq!(decimal_text(n), n.to_string());
    }
}

#[test]
fn same_compares_characters() {
    assert!(same("中", "中"));
    assert!(same("", ""));
    assert!(!same("a", "A"));
    assert!(!same("a", "ab"));
}
