use dkdc_lm::text::{
    join_texts, same_text, signed_text, split_whitespace, to_owned_all, unsigned_text, white_space,
};

#[test]
fn decimal_rendering() {
    assert_eq!(unsigned_text(0), "0");
    assert_eq!(unsigned_text(7), "7");
    assert_eq!(unsigned_text(10), "10");
    assert_eq!(unsigned_text(8080), "8080");
    assert_eq!(unsigned_text(u64::MAX), "18446744073709551615");
    assert_eq!(signed_text(-1), "-1");
    assert_eq!(signed_text(0), "0");
    assert_eq!(signed_text(i64::MIN), "-9223372036854775808");
    assert_eq!(signed_text(i64::MAX), "9223372036854775807");
}

#[test]
fn split_matches_std_split_whitespace() {
    let samples = [
        "",
        "   ",
        "-hf ggml-org/gemma-4-26B-A4B-it-GGUF",
        "  a  b\tc\n",
        "x\u{3000}y\u{a0}z\u{2028}w",
        "no-space",
        "\u{85}lead and trail\u{205f}",
    ];
    for s in samples {
        let expected: Vec<String> = s.split_whitespace().map(String::from).collect();
        assert_eq!(split_whitespace(s), expected, "split of {s:?}");
    }
}

#[test]
fn white_space_agrees_with_std() {
    for u in 0u32..0x3100 {
        if let Some(c) = char::from_u32(u) {
            assert_eq!(white_space(c), c.is_whitespace(), "char {u:#x}");
        }
    }
    assert!(!white_space('\u{10ffff}'));
}

#[test]
fn join_then_split_gives_the_words_back() {
    let ws = vec!["llama-server".to_string(), "--port".to_string(), "8080".to_string()];
    let joined = join_texts(&ws, " ");
    assert_eq!(joined, "llama-server --port 8080");
    assert_eq!(split_whitespace(&joined), ws);
    assert_eq!(join_texts(&Vec::new(), ", "), "");
    assert_eq!(join_texts(&vec!["one".to_string()], ", "), "one");
}

#[test]
fn text_equality() {
    assert!(same_text("abc", "abc"));
    assert!(!same_text("abc", "abd"));
    assert!(!same_text("abc", "ab"));
    assert!(same_text("", ""));
    assert!(same_text("é", "é"));
}

#[test]
fn owned_copies() {
    assert_eq!(to_owned_all(&["a", "b c"]), vec!["a".to_string(), "b c".to_string()]);
}
